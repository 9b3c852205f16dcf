use ruci_config::chain::{validate_in_chain, validate_out_chain, ChainError};
use ruci_config::doc::Value;
use ruci_config::document::{
    decode_document, encode_document, validate_document, ConfigDocument, DocumentError,
};
use ruci_config::fields::ErrKind;
use ruci_config::inbound::InMapConfig;
use ruci_config::outbound::OutMapConfig;
use ruci_config::types::{DirectConfig, PlainTextPassSet, TlsClientOptions};

fn socks5() -> InMapConfig {
    InMapConfig::Socks5(PlainTextPassSet { userpass: None, more: vec![] })
}

fn listener() -> InMapConfig {
    InMapConfig::Listener { listen_addr: String::from("127.0.0.1:1080"), ext: None }
}

#[test]
fn transform_only_inbound_chain_is_rejected() {
    let chain = vec![socks5()];
    let e = validate_in_chain(&chain).expect_err("must be rejected");
    assert_eq!(e, ChainError::FirstNotSource);
}

#[test]
fn listener_then_socks5_is_accepted() {
    let chain = vec![listener(), socks5()];
    assert!(validate_in_chain(&chain).is_ok());
}

#[test]
fn empty_inbound_chain_is_rejected() {
    let chain: Vec<InMapConfig> = vec![];
    let e = validate_in_chain(&chain).expect_err("must be rejected");
    assert_eq!(e, ChainError::EmptyChain);
}

#[test]
fn source_after_first_position_is_rejected_with_its_index() {
    let chain = vec![listener(), socks5(), listener()];
    let e = validate_in_chain(&chain).expect_err("must be rejected");
    assert_eq!(e, ChainError::SourceNotFirst { index: 2 });
}

#[test]
fn outbound_chain_must_end_in_a_terminal_stage() {
    let tls = OutMapConfig::TLS(TlsClientOptions {
        host: None,
        insecure: false,
        alpn: vec![],
        cert: None,
    });
    let e = validate_out_chain(&vec![tls]).expect_err("must be rejected");
    assert_eq!(e, ChainError::LastNotTerminal);
}

#[test]
fn tls_then_direct_outbound_chain_is_accepted() {
    let tls = OutMapConfig::TLS(TlsClientOptions {
        host: None,
        insecure: false,
        alpn: vec![],
        cert: None,
    });
    let direct = OutMapConfig::Direct(DirectConfig { leak_target_addr: false, dns_client: None });
    assert!(validate_out_chain(&vec![tls, direct]).is_ok());
}

#[test]
fn terminal_before_last_outbound_position_is_rejected() {
    let direct = OutMapConfig::Direct(DirectConfig { leak_target_addr: false, dns_client: None });
    let blackhole = OutMapConfig::Blackhole;
    let e = validate_out_chain(&vec![direct, blackhole]).expect_err("must be rejected");
    assert_eq!(e, ChainError::TerminalNotLast { index: 0 });
}

#[test]
fn document_roundtrip_with_both_lists() {
    let d = ConfigDocument {
        inbound: vec![listener(), socks5()],
        outbound: vec![OutMapConfig::Blackhole],
    };
    assert!(validate_document(&d).is_ok());
    let doc = encode_document(&d);
    let back = decode_document(&doc).expect("document must decode");
    assert_eq!(back, d);
}

#[test]
fn document_with_absent_lists_decodes_to_empty_chains() {
    let doc = Value::Obj(vec![]);
    let d: ConfigDocument = decode_document(&doc).expect("document must decode");
    assert!(d.inbound.is_empty());
    assert!(d.outbound.is_empty());
    assert_eq!(validate_document(&d), Err(ChainError::EmptyChain));
}

#[test]
fn document_decode_error_names_list_and_index() {
    let doc = Value::Obj(vec![(
        String::from("inbound"),
        Value::Arr(vec![
            Value::Obj(vec![(String::from("type"), Value::Str(String::from("Echo")))]),
            Value::Obj(vec![(String::from("type"), Value::Str(String::from("Nope")))]),
        ]),
    )]);
    match decode_document(&doc).expect_err("must fail") {
        DocumentError::BadInbound(e) => {
            assert_eq!(e.index, 1);
            assert_eq!(e.err.kind, ErrKind::UnknownVariant);
            assert_eq!(e.err.path, "Nope");
        }
        other => panic!("unexpected error: {:?}", other),
    }
}
