use zero2prod::startup::{listen_address, ApplicationBaseUrl};

#[test]
fn listen_address_joins_host_and_port() {
    assert_eq!(listen_address("127.0.0.1", 8000), "127.0.0.1:8000");
}

#[test]
fn listen_address_with_port_zero() {
    assert_eq!(listen_address("localhost", 0), "localhost:0");
}

#[test]
fn listen_address_with_the_largest_port() {
    assert_eq!(listen_address("0.0.0.0", 65535), "0.0.0.0:65535");
}

#[test]
fn listen_address_with_one_digit_and_round_ports() {
    assert_eq!(listen_address("h", 7), "h:7");
    assert_eq!(listen_address("h", 10), "h:10");
    assert_eq!(listen_address("h", 100), "h:100");
}

#[test]
fn application_base_url_holds_the_url() {
    let base = ApplicationBaseUrl("http://127.0.0.1".to_string());
    assert_eq!(base.0, "http://127.0.0.1");
}
