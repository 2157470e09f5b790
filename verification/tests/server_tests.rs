use discovery_utils::server::plan_transport;
use discovery_utils::server::uds_lifecycle;
use discovery_utils::server::str_starts_with;
use discovery_utils::server::ServerError;
use discovery_utils::server::TransportPlan;
use discovery_utils::server::UdsAction;

#[test]
fn endpoints_under_the_handlers_directory_are_served_on_the_socket() {
    let plan = plan_transport("/run/handlers/onvif.sock", "/run/handlers").unwrap();
    match plan {
        TransportPlan::UnixSocket { socket_path } => {
            assert_eq!(socket_path, "/run/handlers/onvif.sock")
        },
        TransportPlan::Network { .. } => panic!("expected the socket plan"),
    }
}

#[test]
fn valid_addresses_outside_the_directory_are_served_on_the_network() {
    let plan = plan_transport("127.0.0.1:10000", "/run/handlers").unwrap();
    match plan {
        TransportPlan::Network { address } => assert_eq!(address, "127.0.0.1:10000"),
        TransportPlan::UnixSocket { .. } => panic!("expected the network plan"),
    }
}

#[test]
fn test_plan_transport_error_invalid_ip_addr() {
    let outcome = plan_transport("random", "/tmp/discovery-handlers");
    match outcome {
        Err(error) => {
            assert!(matches!(error, ServerError::InvalidAddress { .. }));
            assert!(error.message().contains("invalid IP address syntax"));
        },
        Ok(_) => panic!("should be invalid IP address error"),
    }
}

#[test]
fn prefix_check_matches_string_prefixes() {
    assert!(str_starts_with("/run/handlers/onvif.sock", "/run/handlers"));
    assert!(str_starts_with("abc", ""));
    assert!(str_starts_with("abc", "abc"));
    assert!(!str_starts_with("abc", "abcd"));
    assert!(!str_starts_with("/other/onvif.sock", "/run/handlers"));
}

#[test]
fn socket_lifecycle_removes_the_stale_file_before_binding_and_cleans_up() {
    let steps = uds_lifecycle();
    assert_eq!(
        steps,
        vec![
            UdsAction::EnsureParentDirectory,
            UdsAction::RemoveStaleSocket,
            UdsAction::BindListener,
            UdsAction::Serve,
            UdsAction::RemoveSocket,
        ]
    );
    let bind_at = steps.iter().position(|a| *a == UdsAction::BindListener).unwrap();
    let stale_removal_at = steps.iter().position(|a| *a == UdsAction::RemoveStaleSocket).unwrap();
    assert!(stale_removal_at < bind_at);
    assert_eq!(*steps.last().unwrap(), UdsAction::RemoveSocket);
}
