use msfs::gauge::PANEL_SERVICE_PRE_INSTALL;
use msfs::{FsContext, GaugeExecutor, GaugeStep, SimConnect};

#[test]
fn test() {
    let mut gauge = GaugeExecutor::new();
    match gauge.handle_gauge(FsContext(1), PANEL_SERVICE_PRE_INSTALL, None) {
        GaugeStep::Start(_rx) => {
            let sim = SimConnect::open(0, 7).unwrap();
            assert_eq!(sim.handle(), 7);
        }
        _ => panic!("the pre-install call must start the task"),
    }
}
