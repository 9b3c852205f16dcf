use ruci_config::doc::Value;
use ruci_config::fields::ErrKind;
use ruci_config::inbound::{decode_in, in_map_variant_names};
use ruci_config::outbound::out_map_variant_names;
use ruci_config::types::DnsClientConfig;

#[test]
fn static_pair_lookup_ignores_letter_case() {
    let mut dns = DnsClientConfig {
        dns_server_list: vec![],
        ip_strategy: None,
        static_pairs: vec![],
    };
    dns.insert_static_pair("Example.COM", "93.184.216.34");
    let hit = dns.lookup_static("example.com");
    assert_eq!(hit, Some(String::from("93.184.216.34")));
    let hit2 = dns.lookup_static("EXAMPLE.com");
    assert_eq!(hit2, Some(String::from("93.184.216.34")));
    assert_eq!(dns.lookup_static("example.org"), None);
}

#[test]
fn later_static_pair_for_the_same_name_wins() {
    let mut dns = DnsClientConfig {
        dns_server_list: vec![],
        ip_strategy: None,
        static_pairs: vec![],
    };
    dns.insert_static_pair("host.test", "10.0.0.1");
    dns.insert_static_pair("HOST.test", "10.0.0.2");
    assert_eq!(dns.lookup_static("host.TEST"), Some(String::from("10.0.0.2")));
}

#[test]
fn inbound_catalog_is_the_declared_set_in_stable_order() {
    let names = in_map_variant_names();
    let expected = vec![
        "Echo", "Stdio", "Fileio", "BindDialer", "Listener", "TcpOptListener",
        "TproxyUdpListener", "TproxyTcpResolver", "Adder", "Counter", "Recorder", "TLS",
        "NativeTLS", "H2", "Http", "Socks5", "Socks5Http", "Trojan", "HttpFilter", "WebSocket",
        "Quic", "Stack", "StackLwip", "SPE1", "Lua", "MITM", "Embedder",
    ];
    assert_eq!(names.len(), expected.len());
    for (got, want) in names.iter().zip(expected.iter()) {
        assert_eq!(got, want);
    }
    // a second query gives the same order
    let again = in_map_variant_names();
    assert_eq!(names, again);
    // no duplicates
    for i in 0..names.len() {
        for j in (i + 1)..names.len() {
            assert_ne!(names[i], names[j]);
        }
    }
}

#[test]
fn outbound_catalog_has_no_duplicates_and_keeps_both_h2_variants() {
    let names = out_map_variant_names();
    assert_eq!(names.len(), 22);
    assert!(names.iter().any(|n| n == "H2Single"));
    assert!(names.iter().any(|n| n == "H2Mux"));
    for i in 0..names.len() {
        for j in (i + 1)..names.len() {
            assert_ne!(names[i], names[j]);
        }
    }
}

#[test]
fn unknown_discriminant_is_reported_with_its_spelling() {
    let doc = Value::Obj(vec![(String::from("type"), Value::Str(String::from("Warp")))]);
    let e = decode_in(&doc).expect_err("decode must fail");
    assert_eq!(e.kind, ErrKind::UnknownVariant);
    assert_eq!(e.path, "Warp");
}

#[test]
fn missing_required_field_is_reported_by_name() {
    let doc = Value::Obj(vec![(String::from("type"), Value::Str(String::from("Listener")))]);
    let e = decode_in(&doc).expect_err("decode must fail");
    assert_eq!(e.kind, ErrKind::MissingField);
    assert_eq!(e.path, "listen_addr");
}

#[test]
fn wrong_field_shape_is_a_type_mismatch() {
    let doc = Value::Obj(vec![
        (String::from("type"), Value::Str(String::from("Listener"))),
        (String::from("listen_addr"), Value::Int(1080)),
    ]);
    let e = decode_in(&doc).expect_err("decode must fail");
    assert_eq!(e.kind, ErrKind::TypeMismatch);
    assert_eq!(e.path, "listen_addr");
}

#[test]
fn out_of_range_socket_mark_is_a_value_range_error() {
    let doc = Value::Obj(vec![
        (String::from("type"), Value::Str(String::from("TcpOptListener"))),
        (String::from("listen_addr"), Value::Str(String::from("0.0.0.0:1"))),
        (
            String::from("sockopt"),
            Value::Obj(vec![(String::from("so_mark"), Value::Int(300))]),
        ),
    ]);
    let e = decode_in(&doc).expect_err("decode must fail");
    assert_eq!(e.kind, ErrKind::ValueRange);
    assert_eq!(e.path, "so_mark");
}

#[test]
fn missing_type_field_is_reported() {
    let doc = Value::Obj(vec![]);
    let e = decode_in(&doc).expect_err("decode must fail");
    assert_eq!(e.kind, ErrKind::MissingField);
    assert_eq!(e.path, "type");
}
