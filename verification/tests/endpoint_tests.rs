use discovery_utils::endpoint::resolve_endpoint;
use discovery_utils::endpoint::EndpointType;
use discovery_utils::endpoint::RegisterDiscoveryHandlerRequest;
use discovery_utils::endpoint::DISCOVERED_DEVICES_CHANNEL_CAPACITY;
use discovery_utils::endpoint::DISCOVERY_PORT;
use discovery_utils::endpoint::REGISTER_AGAIN_CHANNEL_CAPACITY;

#[test]
fn resolve_endpoint_prefers_network_when_pod_address_is_set() {
    let resolved = resolve_endpoint(
        Some(String::from("10.1.2.3")),
        Some(String::from("/var/lib/handlers")),
        "onvif",
    )
    .unwrap();
    assert!(matches!(resolved.endpoint_type, EndpointType::Network));
    assert_eq!(resolved.endpoint, "10.1.2.3:10000");
}

#[test]
fn resolve_endpoint_uses_socket_file_without_pod_address() {
    let resolved =
        resolve_endpoint(None, Some(String::from("/var/lib/handlers")), "onvif").unwrap();
    assert!(matches!(resolved.endpoint_type, EndpointType::UnixSocket));
    assert_eq!(resolved.endpoint, "/var/lib/handlers/onvif.sock");
}

#[test]
fn resolve_endpoint_fails_without_any_configuration() {
    let outcome = resolve_endpoint(None, None, "onvif");
    match outcome {
        Err(error) => assert!(!error.message().is_empty()),
        Ok(_) => panic!("resolution must fail when nothing is configured"),
    }
}

#[test]
fn registration_request_prefixes_network_endpoints() {
    let resolved = resolve_endpoint(Some(String::from("10.1.2.3")), None, "udev").unwrap();
    let request = RegisterDiscoveryHandlerRequest::new("udev", &resolved, true);
    assert_eq!(request.name, "udev");
    assert_eq!(request.endpoint, "http://10.1.2.3:10000");
    assert!(matches!(request.endpoint_type, EndpointType::Network));
    assert!(request.shared);
}

#[test]
fn registration_request_advertises_socket_endpoints_verbatim() {
    let resolved = resolve_endpoint(None, Some(String::from("/run/handlers")), "udev").unwrap();
    let request = RegisterDiscoveryHandlerRequest::new("udev", &resolved, false);
    assert_eq!(request.endpoint, "/run/handlers/udev.sock");
    assert!(matches!(request.endpoint_type, EndpointType::UnixSocket));
    assert!(!request.shared);
}

#[test]
fn a_resolved_network_endpoint_is_a_valid_socket_address() {
    let resolved = resolve_endpoint(Some(String::from("10.1.2.3")), None, "onvif").unwrap();
    assert!(discovery_utils::addr::validate_socket_addr(&resolved.endpoint));
}

#[test]
fn channel_capacities_are_the_designed_ones() {
    assert_eq!(REGISTER_AGAIN_CHANNEL_CAPACITY, 1);
    assert_eq!(DISCOVERED_DEVICES_CHANNEL_CAPACITY, 4);
    assert_eq!(DISCOVERY_PORT, 10000);
}
