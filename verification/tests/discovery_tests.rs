use discovery_utils::discovery::pump_capability_events;
use discovery_utils::discovery::producer_step;
use discovery_utils::discovery::CapabilityEvent;
use discovery_utils::discovery::Device;
use discovery_utils::discovery::DiscoveryFault;
use discovery_utils::discovery::ProducerStep;

#[test]
fn one_empty_update_yields_one_empty_snapshot_then_the_stream_ends() {
    let events = vec![CapabilityEvent::Update { devices: Vec::new() }, CapabilityEvent::End];
    let items = pump_capability_events(events);
    assert_eq!(items.len(), 1);
    match &items[0] {
        Ok(response) => assert!(response.devices.is_empty()),
        Err(_) => panic!("the sole item must be an empty snapshot"),
    }
}

#[test]
fn updates_are_forwarded_in_order() {
    let events = vec![
        CapabilityEvent::Update { devices: vec![Device { id: String::from("camera-1") }] },
        CapabilityEvent::Update {
            devices: vec![
                Device { id: String::from("camera-1") },
                Device { id: String::from("camera-2") },
            ],
        },
        CapabilityEvent::End,
    ];
    let items = pump_capability_events(events);
    assert_eq!(items.len(), 2);
    match &items[0] {
        Ok(response) => {
            assert_eq!(response.devices.len(), 1);
            assert_eq!(response.devices[0].id, "camera-1");
        },
        Err(_) => panic!("first item must be a snapshot"),
    }
    match &items[1] {
        Ok(response) => assert_eq!(response.devices.len(), 2),
        Err(_) => panic!("second item must be a snapshot"),
    }
}

#[test]
fn a_faulting_capability_ends_its_own_stream_only() {
    let faulting = vec![CapabilityEvent::Fault { detail: String::from("bus unavailable") }];
    let items = pump_capability_events(faulting);
    assert_eq!(items.len(), 1);
    match &items[0] {
        Err(DiscoveryFault::Capability { detail }) => assert_eq!(detail, "bus unavailable"),
        _ => panic!("the fault must end the stream as an error"),
    }

    let healthy = vec![CapabilityEvent::Update { devices: Vec::new() }, CapabilityEvent::End];
    let other_call = pump_capability_events(healthy);
    assert_eq!(other_call.len(), 1);
    assert!(other_call[0].is_ok());
}

#[test]
fn a_fault_cuts_off_later_updates() {
    let events = vec![
        CapabilityEvent::Update { devices: Vec::new() },
        CapabilityEvent::Fault { detail: String::from("gone") },
        CapabilityEvent::Update { devices: Vec::new() },
    ];
    let items = pump_capability_events(events);
    assert_eq!(items.len(), 2);
    assert!(items[0].is_ok());
    assert!(items[1].is_err());
}

#[test]
fn the_producer_stops_when_the_consumer_went_away() {
    let step = producer_step(CapabilityEvent::Update { devices: Vec::new() }, false);
    assert!(matches!(step, ProducerStep::Stop));
}

#[test]
fn the_producer_forwards_snapshots_while_the_consumer_listens() {
    let step = producer_step(
        CapabilityEvent::Update { devices: vec![Device { id: String::from("d") }] },
        true,
    );
    match step {
        ProducerStep::Send { response } => assert_eq!(response.devices.len(), 1),
        _ => panic!("a snapshot must be forwarded"),
    }
}
