use entity_gateway::config::resolve_backend_address;
use entity_gateway::config::resolve_listen_address;

#[test]
fn configured_listen_address_wins() {
    let address = resolve_listen_address(
        Some("0.0.0.0:9000".to_string()),
        Some("192.168.1.4".to_string()),
    );
    assert_eq!(address, "0.0.0.0:9000".to_string());
}

#[test]
fn detected_address_gets_fallback_port() {
    let address = resolve_listen_address(None, Some("192.168.1.4".to_string()));
    assert_eq!(address, "192.168.1.4:7878".to_string());
}

#[test]
fn loopback_is_the_last_fallback() {
    let address = resolve_listen_address(None, None);
    assert_eq!(address, "127.0.0.1:7878".to_string());
}

#[test]
fn backend_address_is_mandatory() {
    assert_eq!(
        resolve_backend_address(Some("http://backend:50059".to_string())),
        Ok("http://backend:50059".to_string())
    );
    assert_eq!(
        resolve_backend_address(None),
        Err("Middleware Host not found".to_string())
    );
}
