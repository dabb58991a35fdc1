use onion_dispatch::admission::{admit_port, admits, RequestDescriptor, HTTPS_PORT, HTTP_PORT};

#[test]
fn allowed_ports_are_admitted() {
    assert!(admit_port(80));
    assert!(admit_port(443));
    assert_eq!(HTTP_PORT, 80);
    assert_eq!(HTTPS_PORT, 443);
}

#[test]
fn neighbouring_and_extreme_ports_are_not_admitted() {
    for p in [0u16, 1, 79, 81, 442, 444, 8080, 8443, 65535] {
        assert!(!admit_port(p), "port {p}");
        assert!(!admits(&RequestDescriptor::Begin { port: p }), "port {p}");
    }
}

#[test]
fn begin_to_allowed_port_is_admitted() {
    assert!(admits(&RequestDescriptor::Begin { port: 80 }));
    assert!(admits(&RequestDescriptor::Begin { port: 443 }));
}

#[test]
fn requests_other_than_begin_are_not_admitted() {
    assert!(!admits(&RequestDescriptor::BeginDir));
    assert!(!admits(&RequestDescriptor::Resolve));
    assert!(!admits(&RequestDescriptor::Other));
}
