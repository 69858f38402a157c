use msfs::{first_failure, map_err, HResult, SimConnect};

#[test]
fn map_err_accepts_non_negative_statuses() {
    assert_eq!(map_err(0), Ok(()));
    assert_eq!(map_err(5), Ok(()));
    assert_eq!(map_err(i32::MAX), Ok(()));
}

#[test]
fn map_err_carries_negative_status() {
    assert_eq!(map_err(-1), Err(HResult(-1)));
    assert_eq!(map_err(i32::MIN), Err(HResult(i32::MIN)));
}

#[test]
fn first_failure_picks_earliest_negative() {
    assert_eq!(first_failure(&[0, 1, -3, -4]), Err(HResult(-3)));
    assert_eq!(first_failure(&[0, 2, 3]), Ok(()));
    assert_eq!(first_failure(&[]), Ok(()));
}

#[test]
fn open_fails_with_host_status() {
    assert_eq!(SimConnect::open(-2147467259, 0).err(), Some(HResult(-2147467259)));
}

#[test]
fn open_keeps_handle() {
    let sim = SimConnect::open(0, 0x1234).unwrap();
    assert_eq!(sim.handle(), 0x1234);
    assert_eq!(sim.data_definition_id(1), None);
}
