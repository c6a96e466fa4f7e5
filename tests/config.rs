use sozu_worker::config::{ListenerConfig, ListenerType};

fn config(listener_type: ListenerType) -> ListenerConfig {
    ListenerConfig {
        listener_type,
        address: "127.0.0.1".to_string(),
        port: 8080,
        worker_count: Some(2),
        answer_404: Some("404".to_string()),
        answer_503: None,
        certificate: None,
        key: None,
    }
}

#[test]
fn narrows_to_http() {
    let c = config(ListenerType::HTTP);
    let h = c.to_http().unwrap();
    assert_eq!(h.address, "127.0.0.1");
    assert_eq!(h.port, 8080);
    assert_eq!(h.answer_404, Some("404".to_string()));
    assert!(c.to_tls().is_none());
}

#[test]
fn http_needs_an_address() {
    let mut c = config(ListenerType::HTTP);
    c.address = String::new();
    assert!(c.to_http().is_none());
}

#[test]
fn tls_needs_certificate_and_key() {
    let mut c = config(ListenerType::HTTPS);
    assert!(c.to_tls().is_none());
    c.certificate = Some("cert".to_string());
    assert!(c.to_tls().is_none());
    c.key = Some("key".to_string());
    let t = c.to_tls().unwrap();
    assert_eq!(t.certificate, "cert");
    assert_eq!(t.key, "key");
    assert_eq!(t.port, 8080);
    assert!(c.to_http().is_none());
}

#[test]
fn worker_count_defaults_to_one() {
    let mut c = config(ListenerType::HTTP);
    assert_eq!(c.workers(), 2);
    c.worker_count = None;
    assert_eq!(c.workers(), 1);
    c.worker_count = Some(0);
    assert_eq!(c.workers(), 1);
}
