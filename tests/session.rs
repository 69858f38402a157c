use msfs::session::{GROUP_PRIORITY_HIGHEST_MASKABLE, NOTIFICATION_GROUP, SIMCONNECT_OBJECT_ID_USER};
use msfs::{
    ClientDataDefinition, ClientDatum, DataDefinition, DataType, DatumDefinition, FacilityDefinition,
    HResult, HostRequest, InitPosition, Period, SimConnect, Transaction,
};

fn datum(name: &str, units: &str, epsilon: f32, datatype: DataType) -> DatumDefinition {
    DatumDefinition {
        name: name.to_string(),
        units: units.to_string(),
        epsilon_bits: epsilon.to_bits(),
        datatype,
    }
}

fn record(key: u64) -> DataDefinition {
    DataDefinition {
        key,
        datums: vec![
            datum("RADIO HEIGHT", "Feet", 0.01, DataType::Float64),
            datum("AIRSPEED INDICATED", "Knots", 0.01, DataType::Float64),
        ],
    }
}

/// Performs the requests in order, stopping at the first failure, as the
/// host connection does.
fn run(tx: &Transaction, host: &mut dyn FnMut(&HostRequest) -> i32) -> Vec<i32> {
    let mut statuses = Vec::new();
    for req in &tx.requests {
        let s = host(req);
        statuses.push(s);
        if s < 0 {
            break;
        }
    }
    statuses
}

fn register(sim: &mut SimConnect, def: &DataDefinition, calls: &mut usize) -> u32 {
    let (id, tx) = sim.get_define_id(def);
    let statuses = run(&tx, &mut |req| {
        if let HostRequest::AddToDataDefinition { .. } = req {
            *calls += 1;
        }
        0
    });
    assert!(sim.accepts(&tx));
    sim.complete(&tx, &statuses).unwrap();
    id
}

#[test]
fn registration_is_idempotent() {
    let mut sim = SimConnect::open(0, 1).unwrap();
    let def = record(10);
    let mut calls = 0;
    let first = register(&mut sim, &def, &mut calls);
    let second = register(&mut sim, &def, &mut calls);
    let third = register(&mut sim, &def, &mut calls);
    assert_eq!(first, 0);
    assert_eq!(second, first);
    assert_eq!(third, first);
    assert_eq!(calls, 2);
}

#[test]
fn registration_describes_each_datum_in_order() {
    let sim = SimConnect::open(0, 1).unwrap();
    let (id, tx) = sim.get_define_id(&record(10));
    assert_eq!(id, 0);
    assert_eq!(tx.requests.len(), 2);
    match &tx.requests[0] {
        HostRequest::AddToDataDefinition { define_id, datum_name, units_name, datatype, epsilon_bits } => {
            assert_eq!(*define_id, 0);
            assert_eq!(datum_name, "RADIO HEIGHT");
            assert_eq!(units_name, "Feet");
            assert_eq!(*datatype, DataType::Float64);
            assert_eq!(f32::from_bits(*epsilon_bits), 0.01);
        }
        other => panic!("unexpected request {:?}", other),
    }
    match &tx.requests[1] {
        HostRequest::AddToDataDefinition { datum_name, units_name, .. } => {
            assert_eq!(datum_name, "AIRSPEED INDICATED");
            assert_eq!(units_name, "Knots");
        }
        other => panic!("unexpected request {:?}", other),
    }
}

#[test]
fn ids_are_dense_in_registration_order() {
    let mut sim = SimConnect::open(0, 1).unwrap();
    let mut calls = 0;
    let a = register(&mut sim, &record(100), &mut calls);
    let b = register(&mut sim, &record(200), &mut calls);
    let c = register(&mut sim, &record(300), &mut calls);
    assert_eq!((a, b, c), (0, 1, 2));

    let mut other = SimConnect::open(0, 2).unwrap();
    let c2 = register(&mut other, &record(300), &mut calls);
    let a2 = register(&mut other, &record(100), &mut calls);
    let b2 = register(&mut other, &record(200), &mut calls);
    assert_eq!((c2, a2, b2), (0, 1, 2));
    assert_eq!(other.data_definition_id(200), Some(2));
}

#[test]
fn failed_registration_leaves_type_unregistered() {
    let mut sim = SimConnect::open(0, 1).unwrap();
    let def = record(10);
    let (id, tx) = sim.get_define_id(&def);
    let mut n = 0;
    let statuses = run(&tx, &mut |_| {
        n += 1;
        if n == 2 {
            -5
        } else {
            0
        }
    });
    assert_eq!(statuses, vec![0, -5]);
    assert_eq!(sim.complete(&tx, &statuses), Err(HResult(-5)));
    assert_eq!(sim.data_definition_id(10), None);
    let (again, tx2) = sim.get_define_id(&def);
    assert_eq!(again, id);
    assert_eq!(tx2.requests.len(), 2);
}

#[test]
fn stale_transaction_is_not_accepted() {
    let mut sim = SimConnect::open(0, 1).unwrap();
    let (_, tx_a) = sim.get_define_id(&record(1));
    let (_, tx_b) = sim.get_define_id(&record(2));
    let statuses = vec![0, 0];
    sim.complete(&tx_a, &statuses).unwrap();
    assert!(!sim.accepts(&tx_b));
    assert!(sim.accepts(&sim.transmit_client_event(0, 0, 0)));
}

#[test]
fn periodic_request_follows_definition() {
    let sim = SimConnect::open(0, 1).unwrap();
    let tx = sim.request_data_on_sim_object(&record(10), 7, SIMCONNECT_OBJECT_ID_USER, Period::SimFrame);
    assert_eq!(tx.requests.len(), 3);
    match &tx.requests[2] {
        HostRequest::RequestDataOnSimObject { request_id, define_id, object_id, period } => {
            assert_eq!((*request_id, *define_id, *object_id), (7, 0, 0));
            assert_eq!(*period, Period::SimFrame);
            assert_eq!(period.code(), 3);
        }
        other => panic!("unexpected request {:?}", other),
    }
    assert_eq!(tx.definition.unwrap().request_count, 2);
}

#[test]
fn request_on_registered_type_sends_only_the_request() {
    let mut sim = SimConnect::open(0, 1).unwrap();
    let mut calls = 0;
    register(&mut sim, &record(10), &mut calls);
    register(&mut sim, &record(11), &mut calls);
    let tx = sim.request_data_on_sim_object_type(&record(11), 3, 1000, 1);
    assert!(tx.definition.is_none());
    assert_eq!(tx.requests.len(), 1);
    match &tx.requests[0] {
        HostRequest::RequestDataOnSimObjectType { request_id, define_id, radius, object_type } => {
            assert_eq!((*request_id, *define_id, *radius, *object_type), (3, 1, 1000, 1));
        }
        other => panic!("unexpected request {:?}", other),
    }
}

#[test]
fn set_data_carries_record_bytes() {
    let mut sim = SimConnect::open(0, 1).unwrap();
    let mut calls = 0;
    register(&mut sim, &record(10), &mut calls);
    let bytes: Vec<u8> = (0..16).collect();
    let tx = sim.set_data_on_sim_object(&record(10), 4, &bytes);
    assert_eq!(tx.requests.len(), 1);
    match &tx.requests[0] {
        HostRequest::SetDataOnSimObject { define_id, object_id, data } => {
            assert_eq!((*define_id, *object_id), (0, 4));
            assert_eq!(data, &bytes);
        }
        other => panic!("unexpected request {:?}", other),
    }
}

#[test]
fn mapped_events_get_increasing_ids() {
    let mut sim = SimConnect::open(0, 1).unwrap();
    let (first, tx) = sim.map_client_event_to_sim_event("AP_MASTER", true);
    let (second, _) = sim.map_client_event_to_sim_event("TOGGLE_FLIGHT_DIRECTOR", false);
    let (third, sub) = sim.subscribe_to_system_event("4sec");
    assert_eq!((first, second, third), (0, 1, 2));
    assert_eq!(tx.requests.len(), 3);
    match &tx.requests[0] {
        HostRequest::MapClientEventToSimEvent { event_id, event_name } => {
            assert_eq!(*event_id, 0);
            assert_eq!(event_name, "AP_MASTER");
        }
        other => panic!("unexpected request {:?}", other),
    }
    match &tx.requests[1] {
        HostRequest::AddClientEventToNotificationGroup { group_id, event_id, maskable } => {
            assert_eq!((*group_id, *event_id, *maskable), (NOTIFICATION_GROUP, 0, true));
        }
        other => panic!("unexpected request {:?}", other),
    }
    match &tx.requests[2] {
        HostRequest::SetNotificationGroupPriority { group_id, priority } => {
            assert_eq!((*group_id, *priority), (0, GROUP_PRIORITY_HIGHEST_MASKABLE));
            assert_eq!(*priority, 10000000);
        }
        other => panic!("unexpected request {:?}", other),
    }
    match &sub.requests[0] {
        HostRequest::SubscribeToSystemEvent { event_id, system_event_name } => {
            assert_eq!(*event_id, 2);
            assert_eq!(system_event_name, "4sec");
        }
        other => panic!("unexpected request {:?}", other),
    }
}

#[test]
fn single_request_operations() {
    let sim = SimConnect::open(0, 1).unwrap();
    let tx = sim.transmit_client_event_ex1(0, 3, [1, 2, 3, 4, 5]);
    match &tx.requests[..] {
        [HostRequest::TransmitClientEventEx1 { object_id, event_id, data }] => {
            assert_eq!((*object_id, *event_id), (0, 3));
            assert_eq!(*data, [1, 2, 3, 4, 5]);
        }
        other => panic!("unexpected requests {:?}", other),
    }
    let tx = sim.set_system_event_state(4, true);
    assert!(matches!(&tx.requests[..], [HostRequest::SetSystemEventState { event_id: 4, on: true }]));
    let tx = sim.unsubscribe_from_system_event(4);
    assert!(matches!(&tx.requests[..], [HostRequest::UnsubscribeFromSystemEvent { event_id: 4 }]));
    let tx = sim.request_facilities_list(0, 9);
    assert!(matches!(&tx.requests[..], [HostRequest::RequestFacilitiesList { list_type: 0, request_id: 9 }]));
    let tx = sim.request_facilities_list_ex1(1, 8);
    assert!(matches!(&tx.requests[..], [HostRequest::RequestFacilitiesListEx1 { list_type: 1, request_id: 8 }]));
    let tx = sim.transmit_client_event(0, 2, 77);
    assert!(matches!(&tx.requests[..], [HostRequest::TransmitClientEvent { object_id: 0, event_id: 2, data: 77 }]));
}

fn area_type(size: u32, datums: Vec<ClientDatum>) -> ClientDataDefinition {
    ClientDataDefinition { key: 50, size, datums }
}

#[test]
fn client_data_definition_covers_trailing_padding() {
    let sim = SimConnect::open(0, 1).unwrap();
    let def = area_type(
        16,
        vec![
            ClientDatum { offset: 4, size: 4, epsilon_bits: 0 },
            ClientDatum { offset: 0, size: 4, epsilon_bits: 0.5f32.to_bits() },
        ],
    );
    let (id, tx) = sim.get_client_data_define_id(&def);
    assert_eq!(id, 0);
    assert_eq!(tx.requests.len(), 3);
    assert!(matches!(
        tx.requests[1],
        HostRequest::AddToClientDataDefinition { define_id: 0, offset: 0, size: 4, .. }
    ));
    assert!(matches!(
        tx.requests[2],
        HostRequest::AddToClientDataDefinition { define_id: 0, offset: 8, size: 8, epsilon_bits: 0 }
    ));
}

#[test]
fn client_data_definition_without_padding() {
    let sim = SimConnect::open(0, 1).unwrap();
    let def = area_type(8, vec![ClientDatum { offset: 0, size: 8, epsilon_bits: 0 }]);
    let (_, tx) = sim.get_client_data_define_id(&def);
    assert_eq!(tx.requests.len(), 1);
    let empty = area_type(8, vec![]);
    let (_, tx) = sim.get_client_data_define_id(&empty);
    assert_eq!(tx.requests.len(), 0);
}

#[test]
fn client_data_areas() {
    let mut sim = SimConnect::open(0, 1).unwrap();
    let def = area_type(8, vec![ClientDatum { offset: 0, size: 8, epsilon_bits: 0 }]);
    let (area, tx) = sim.create_client_data(&def, "shared");
    assert_eq!(area.client_id, 0);
    assert_eq!(tx.requests.len(), 2);
    match &tx.requests[0] {
        HostRequest::MapClientDataNameToId { client_data_name, client_data_id } => {
            assert_eq!(client_data_name, "shared");
            assert_eq!(*client_data_id, 0);
        }
        other => panic!("unexpected request {:?}", other),
    }
    assert!(matches!(tx.requests[1], HostRequest::CreateClientData { client_data_id: 0, size: 8 }));
    let (other, tx) = sim.get_client_area(&def, "elsewhere");
    assert_eq!(other.client_id, 1);
    assert_eq!(tx.requests.len(), 1);
    let tx = sim.request_client_data(&def, 5, "shared");
    assert_eq!(tx.requests.len(), 3);
    assert!(matches!(tx.requests[0], HostRequest::AddToClientDataDefinition { define_id: 0, .. }));
    assert!(matches!(tx.requests[1], HostRequest::MapClientDataNameToId { client_data_id: 2, .. }));
    assert!(matches!(
        tx.requests[2],
        HostRequest::RequestClientData { client_data_id: 2, request_id: 5, define_id: 0 }
    ));
    let statuses = vec![0, 0, 0];
    sim.complete(&tx, &statuses).unwrap();
    assert_eq!(sim.client_data_definition_id(50), Some(0));
    let tx = sim.set_client_data(&area, &def, &[1, 2, 3, 4, 5, 6, 7, 8]);
    assert_eq!(tx.requests.len(), 1);
    match &tx.requests[0] {
        HostRequest::SetClientData { client_data_id, define_id, data } => {
            assert_eq!((*client_data_id, *define_id), (0, 0));
            assert_eq!(data, &vec![1, 2, 3, 4, 5, 6, 7, 8]);
        }
        other => panic!("unexpected request {:?}", other),
    }
}

#[test]
fn facility_data_request() {
    let sim = SimConnect::open(0, 1).unwrap();
    let def = FacilityDefinition {
        key: 3,
        fields: vec!["OPEN AIRPORT".to_string(), "N_RUNWAYS".to_string(), "CLOSE AIRPORT".to_string()],
    };
    let tx = sim.request_facility_data(&def, 12, "KSEA", Some("K1"));
    assert_eq!(tx.requests.len(), 4);
    match &tx.requests[1] {
        HostRequest::AddToFacilityDefinition { define_id, field_name } => {
            assert_eq!(*define_id, 0);
            assert_eq!(field_name, "N_RUNWAYS");
        }
        other => panic!("unexpected request {:?}", other),
    }
    match &tx.requests[3] {
        HostRequest::RequestFacilityData { define_id, request_id, icao, region } => {
            assert_eq!((*define_id, *request_id), (0, 12));
            assert_eq!(icao, "KSEA");
            assert_eq!(region.as_deref(), Some("K1"));
        }
        other => panic!("unexpected request {:?}", other),
    }
    let tx = sim.request_facility_data(&def, 13, "EGLL", None);
    assert!(matches!(&tx.requests[3], HostRequest::RequestFacilityData { region: None, .. }));
}

#[test]
fn ai_and_flight_operations() {
    let sim = SimConnect::open(0, 1).unwrap();
    let pos = InitPosition {
        latitude: 47.45f64.to_bits(),
        longitude: (-122.3f64).to_bits(),
        altitude: 500.0f64.to_bits(),
        pitch: 0,
        bank: 0,
        heading: 90.0f64.to_bits(),
        on_ground: 0,
        airspeed: 120,
    };
    let tx = sim.ai_create_non_atc_aircraft("Cessna Skyhawk", "N123", pos, 4);
    match &tx.requests[..] {
        [HostRequest::AiCreateNonAtcAircraft { container_title, tail_number, init_position, request_id }] => {
            assert_eq!(container_title, "Cessna Skyhawk");
            assert_eq!(tail_number, "N123");
            assert_eq!(*init_position, pos);
            assert_eq!(*request_id, 4);
        }
        other => panic!("unexpected requests {:?}", other),
    }
    let tx = sim.ai_create_parked_atc_aircraft("Cessna Skyhawk", "N124", "KSEA", 5);
    match &tx.requests[..] {
        [HostRequest::AiCreateParkedAtcAircraft { icao, request_id, .. }] => {
            assert_eq!(icao, "KSEA");
            assert_eq!(*request_id, 5);
        }
        other => panic!("unexpected requests {:?}", other),
    }
    let tx = sim.ai_remove_object(1000, 6);
    assert!(matches!(&tx.requests[..], [HostRequest::AiRemoveObject { object_id: 1000, request_id: 6 }]));
    let tx = sim.save_flight("flight.FLT", Some("Title"), None);
    match &tx.requests[..] {
        [HostRequest::FlightSave { file_path, title, description }] => {
            assert_eq!(file_path, "flight.FLT");
            assert_eq!(title.as_deref(), Some("Title"));
            assert!(description.is_none());
        }
        other => panic!("unexpected requests {:?}", other),
    }
    let tx = sim.load_flight("flight.FLT");
    assert!(matches!(&tx.requests[..], [HostRequest::FlightLoad { file_path }] if file_path == "flight.FLT"));
    let tx = sim.load_flight_plan("route.PLN");
    assert!(matches!(&tx.requests[..], [HostRequest::FlightPlanLoad { file_path }] if file_path == "route.PLN"));
}

#[test]
fn precondition_checks() {
    let mut sim = SimConnect::open(0, 1).unwrap();
    assert!(sim.can_register(msfs::DefinitionKind::Data));
    assert!(sim.can_register(msfs::DefinitionKind::Facility));
    assert_eq!(sim.next_event_id(), 0);
    sim.subscribe_to_system_event("Pause");
    assert_eq!(sim.next_event_id(), 1);
    assert_eq!(sim.next_client_data_id(), 0);
    let fits = area_type(8, vec![ClientDatum { offset: 4, size: 4, epsilon_bits: 0 }]);
    assert!(fits.members_fit());
    let overflows = area_type(8, vec![ClientDatum { offset: 6, size: 4, epsilon_bits: 0 }]);
    assert!(!overflows.members_fit());
    let huge = area_type(8, vec![ClientDatum { offset: 0, size: 9, epsilon_bits: 0 }]);
    assert!(!huge.members_fit());
}
