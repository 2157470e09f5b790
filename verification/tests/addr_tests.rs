use discovery_utils::addr::validate_socket_addr;

#[test]
fn accepts_ipv4_socket_addresses() {
    assert!(validate_socket_addr("127.0.0.1:8080"));
    assert!(validate_socket_addr("0.0.0.0:10000"));
    assert!(validate_socket_addr("255.255.255.255:65535"));
    assert!(validate_socket_addr("10.1.2.3:1"));
}

#[test]
fn accepts_ipv6_socket_addresses() {
    assert!(validate_socket_addr("[::]:50051"));
    assert!(validate_socket_addr("[::1]:443"));
    assert!(validate_socket_addr("[2001:db8::1]:443"));
    assert!(validate_socket_addr("[1:2:3:4:5:6:7:8]:80"));
    assert!(validate_socket_addr("[fe80::]:10000"));
}

#[test]
fn rejects_plain_words() {
    assert!(!validate_socket_addr("random"));
    assert!(!validate_socket_addr(""));
    assert!(!validate_socket_addr("localhost:8080"));
}

#[test]
fn rejects_malformed_ipv4() {
    assert!(!validate_socket_addr("256.1.1.1:80"));
    assert!(!validate_socket_addr("01.2.3.4:80"));
    assert!(!validate_socket_addr("1.2.3:80"));
    assert!(!validate_socket_addr("1.2.3.4.5:80"));
    assert!(!validate_socket_addr("1.2.3.4"));
    assert!(!validate_socket_addr("1.2.3.4:"));
    assert!(!validate_socket_addr("1.2.3.4:65536"));
    assert!(!validate_socket_addr("1.2.3.4:123456"));
}

#[test]
fn rejects_malformed_ipv6() {
    assert!(!validate_socket_addr("[12345::]:80"));
    assert!(!validate_socket_addr("[1:2:3:4:5:6:7:8:9]:80"));
    assert!(!validate_socket_addr("[1::2::3]:80"));
    assert!(!validate_socket_addr("[1:2:3]:80"));
    assert!(!validate_socket_addr("[::1]"));
    assert!(!validate_socket_addr("[::1]80"));
    assert!(!validate_socket_addr("[zz::1]:80"));
    assert!(!validate_socket_addr("::1:80"));
}
