use dink::api::{resolve_notify_route, resolve_port, DEFAULT_PORT};

#[test]
fn port_from_setting() {
    assert_eq!(resolve_port(None), 3000);
    assert_eq!(DEFAULT_PORT, 3000);
    assert_eq!(resolve_port(Some("8080")), 8080);
    assert_eq!(resolve_port(Some("+80")), 80);
    assert_eq!(resolve_port(Some("0065535")), 65535);
    assert_eq!(resolve_port(Some("65536")), 3000);
    assert_eq!(resolve_port(Some("-1")), 3000);
    assert_eq!(resolve_port(Some(" 80")), 3000);
    assert_eq!(resolve_port(Some("")), 3000);
    assert_eq!(resolve_port(Some("+")), 3000);
    assert_eq!(resolve_port(Some("http")), 3000);
}

#[test]
fn route_from_setting() {
    assert_eq!(resolve_notify_route(None), "/");
    assert_eq!(resolve_notify_route(Some("/dink".to_string())), "/dink");
}
