use ruci_config::chain::{decode_in_chain, encode_in_chain};
use ruci_config::doc::Value;
use ruci_config::inbound::{decode_in, encode_in, InMapConfig};
use ruci_config::outbound::{decode_out, encode_out, OutMapConfig};
use ruci_config::types::{
    BindDialerConfig, CommonConfig, DirectConfig, DnsClientConfig, Ext, FileConfig,
    LookupIpStrategy, OptDialerOption, OutputFileExtension, OutputFormat, PieceTruncateOption,
    PlainTextPassSet, Protocol, QuicClientConfig, QuicServerConfig, RecordMode, RecorderConfig,
    SessionTruncateOption, SockOpt, Socks5Out, StdioConfig, TlsClientOptions, TlsServerOptions,
    TproxyOptions, TrojanClientConfig, TrojanConfig, WriteMode,
};

fn value_eq(a: &Value, b: &Value) -> bool {
    match (a, b) {
        (Value::Bool(x), Value::Bool(y)) => x == y,
        (Value::Int(x), Value::Int(y)) => x == y,
        (Value::Str(x), Value::Str(y)) => x == y,
        (Value::Arr(x), Value::Arr(y)) => {
            x.len() == y.len() && x.iter().zip(y.iter()).all(|(u, v)| value_eq(u, v))
        }
        (Value::Obj(x), Value::Obj(y)) => {
            x.len() == y.len()
                && x.iter().zip(y.iter()).all(|(u, v)| u.0 == v.0 && value_eq(&u.1, &v.1))
        }
        _ => false,
    }
}

fn sample_ext() -> Ext {
    Ext {
        fixed_target_addr: Some(String::from("10.0.0.1:443")),
        pre_defined_early_data: None,
    }
}

fn sample_sockopt() -> SockOpt {
    SockOpt { tproxy: true, so_mark: Some(255), bind_to_device: Some(String::from("eth0")) }
}

fn sample_dns() -> DnsClientConfig {
    DnsClientConfig {
        dns_server_list: vec![
            (String::from("8.8.8.8:53"), Protocol::Udp),
            (String::from("1.1.1.1:53"), Protocol::Tcp),
        ],
        ip_strategy: Some(LookupIpStrategy::Ipv4thenIpv6),
        static_pairs: vec![(String::from("example.com"), String::from("93.184.216.34"))],
    }
}

fn sample_common() -> CommonConfig {
    CommonConfig {
        method: Some(String::from("GET")),
        scheme: None,
        authority: String::from("example.com"),
        path: String::from("/chat"),
        headers: vec![(String::from("Host"), String::from("example.com"))],
        use_early_data: true,
    }
}

fn sample_recorder() -> RecorderConfig {
    RecorderConfig {
        label: Some(String::from("probe")),
        output_dir: None,
        output_file_extension: OutputFileExtension::Cbor,
        output_format: OutputFormat::Har,
        record_mode: RecordMode::Simplified,
        prettify: true,
        piece_truncate_option: PieceTruncateOption::PieceTruncate(4096),
        session_truncate_option: SessionTruncateOption::NoTruncate,
    }
}

fn sample_bind_dialer() -> BindDialerConfig {
    BindDialerConfig {
        bind_addr: Some(String::from("0.0.0.0:1080")),
        dial_addr: None,
        dns_client: Some(sample_dns()),
        in_auto_route: None,
        out_auto_route: None,
        ext: Some(sample_ext()),
    }
}

fn all_inbound() -> Vec<InMapConfig> {
    vec![
        InMapConfig::Echo,
        InMapConfig::Stdio(StdioConfig { write_mode: WriteMode::Bytes, ext: None }),
        InMapConfig::Fileio(FileConfig {
            i: String::from("in.bin"),
            o: String::from("out.bin"),
            sleep_interval: Some(15),
            bytes_per_turn: Some(1024),
            ext: None,
        }),
        InMapConfig::BindDialer(Box::new(sample_bind_dialer())),
        InMapConfig::Listener {
            listen_addr: String::from("127.0.0.1:1080"),
            ext: Some(sample_ext()),
        },
        InMapConfig::TcpOptListener {
            listen_addr: String::from("0.0.0.0:12345"),
            sockopt: sample_sockopt(),
            ext: None,
        },
        InMapConfig::TproxyUdpListener {
            listen_addr: String::from("0.0.0.0:12346"),
            sockopt: sample_sockopt(),
            ext: None,
        },
        InMapConfig::TproxyTcpResolver(TproxyOptions {
            port: Some(12347),
            route_ipv6: true,
            proxy_local_udp_53: false,
            local_net4: Some(String::from("192.168.0.0/16")),
            auto_route: true,
            auto_route_tcp: false,
        }),
        InMapConfig::Adder { value: -3 },
        InMapConfig::Counter,
        InMapConfig::Recorder(sample_recorder()),
        InMapConfig::TLS(TlsServerOptions {
            cert: String::from("server.crt"),
            key: String::from("server.key"),
            alpn: vec![String::from("h2"), String::from("http/1.1")],
        }),
        InMapConfig::NativeTLS(TlsServerOptions {
            cert: String::from("native.crt"),
            key: String::from("native.key"),
            alpn: vec![],
        }),
        InMapConfig::H2 { is_grpc: true, http_config: Some(sample_common()) },
        InMapConfig::Http(PlainTextPassSet {
            userpass: Some(String::from("user:pass")),
            more: vec![],
        }),
        InMapConfig::Socks5(PlainTextPassSet {
            userpass: None,
            more: vec![String::from("a:b"), String::from("c:d")],
        }),
        InMapConfig::Socks5Http(PlainTextPassSet { userpass: None, more: vec![] }),
        InMapConfig::Trojan(TrojanConfig {
            password: Some(String::from("hex")),
            more: vec![String::from("word")],
        }),
        InMapConfig::HttpFilter { http_config: Some(sample_common()) },
        InMapConfig::WebSocket { http_config: None },
        InMapConfig::Quic(QuicServerConfig {
            key: String::from("q.key"),
            cert: String::from("q.crt"),
            listen_addr: String::from("0.0.0.0:443"),
            alpn: vec![String::from("h3")],
        }),
        InMapConfig::Stack,
        InMapConfig::StackLwip,
        InMapConfig::SPE1 {
            qa: vec![(String::from("hello"), String::from("world"))],
        },
        InMapConfig::Lua {
            file_name: String::from("hook.lua"),
            handshake_function: String::from("on_handshake"),
        },
        InMapConfig::MITM(TlsServerOptions {
            cert: String::from("mitm.crt"),
            key: String::from("mitm.key"),
            alpn: vec![],
        }),
        InMapConfig::Embedder { file_name: String::from("plugin.so") },
    ]
}

fn all_outbound() -> Vec<OutMapConfig> {
    vec![
        OutMapConfig::Blackhole,
        OutMapConfig::Direct(DirectConfig { leak_target_addr: true, dns_client: Some(sample_dns()) }),
        OutMapConfig::Stdio(StdioConfig { write_mode: WriteMode::UTF8, ext: None }),
        OutMapConfig::Fileio(FileConfig {
            i: String::from("a"),
            o: String::from("b"),
            sleep_interval: None,
            bytes_per_turn: None,
            ext: Some(sample_ext()),
        }),
        OutMapConfig::BindDialer(Box::new(sample_bind_dialer())),
        OutMapConfig::Adder { value: 7 },
        OutMapConfig::Counter,
        OutMapConfig::Recorder(sample_recorder()),
        OutMapConfig::TLS(TlsClientOptions {
            host: Some(String::from("example.com")),
            insecure: false,
            alpn: vec![String::from("h2")],
            cert: None,
        }),
        OutMapConfig::OptDirect {
            sockopt: sample_sockopt(),
            more_num_of_files: true,
            dns_client: None,
        },
        OutMapConfig::OptDialer(OptDialerOption {
            dial_addr: String::from("198.51.100.7:8443"),
            sockopt: sample_sockopt(),
            dns_client: Some(sample_dns()),
        }),
        OutMapConfig::NativeTLS(TlsClientOptions {
            host: None,
            insecure: true,
            alpn: vec![],
            cert: Some(String::from("ca.pem")),
        }),
        OutMapConfig::Http,
        OutMapConfig::Socks5(Socks5Out {
            userpass: Some(String::from("u:p")),
            early_data: true,
            ext: None,
        }),
        OutMapConfig::Trojan(TrojanClientConfig {
            password: Some(String::from("secret")),
            do_not_use_early_data: true,
        }),
        OutMapConfig::WebSocket(sample_common()),
        OutMapConfig::H2Single { is_grpc: false, http_config: Some(sample_common()) },
        OutMapConfig::H2Mux { is_grpc: true, http_config: None },
        OutMapConfig::Quic(QuicClientConfig {
            server_addr: String::from("203.0.113.9:443"),
            server_name: String::from("example.org"),
            cert: None,
            alpn: vec![String::from("h3")],
            insecure: false,
        }),
        OutMapConfig::SPE1 { qa: vec![] },
        OutMapConfig::Lua {
            file_name: String::from("out.lua"),
            handshake_function: String::from("dial"),
        },
        OutMapConfig::Embedder { file_name: String::from("mod.wasm") },
    ]
}

#[test]
fn inbound_roundtrip_every_variant() {
    for c in all_inbound() {
        let doc = encode_in(&c);
        let back = decode_in(&doc).expect("decode must succeed");
        assert_eq!(back, c);
    }
}

#[test]
fn outbound_roundtrip_every_variant() {
    for c in all_outbound() {
        let doc = encode_out(&c);
        let back = decode_out(&doc).expect("decode must succeed");
        assert_eq!(back, c);
    }
}

#[test]
fn normal_form_document_reencodes_identically() {
    // A document already in normal form: canonical field order, defaults
    // left out.
    let doc = Value::Obj(vec![
        (String::from("type"), Value::Str(String::from("Trojan"))),
        (String::from("password"), Value::Str(String::from("hex"))),
    ]);
    let c = decode_in(&doc).expect("decode must succeed");
    let re = encode_in(&c);
    assert!(value_eq(&re, &doc));
}

#[test]
fn default_fields_are_omitted_on_encode() {
    // `insecure: false` and empty `alpn` are defaults and must not appear.
    let c = OutMapConfig::TLS(TlsClientOptions {
        host: None,
        insecure: false,
        alpn: vec![],
        cert: None,
    });
    let doc = encode_out(&c);
    match doc {
        Value::Obj(fields) => {
            assert_eq!(fields.len(), 1);
            assert_eq!(fields[0].0, "type");
        }
        _ => panic!("expected an object"),
    }
}

#[test]
fn h2_single_and_mux_stay_distinct_after_roundtrip() {
    let single = OutMapConfig::H2Single { is_grpc: false, http_config: None };
    let mux = OutMapConfig::H2Mux { is_grpc: false, http_config: None };
    let s2 = decode_out(&encode_out(&single)).expect("decode must succeed");
    let m2 = decode_out(&encode_out(&mux)).expect("decode must succeed");
    assert_eq!(s2, single);
    assert_eq!(m2, mux);
    assert_ne!(s2, m2);
}

#[test]
fn inbound_chain_roundtrip() {
    let chain = vec![
        InMapConfig::Listener { listen_addr: String::from("127.0.0.1:1080"), ext: None },
        InMapConfig::Socks5(PlainTextPassSet { userpass: None, more: vec![] }),
        InMapConfig::Counter,
    ];
    let doc = encode_in_chain(&chain);
    let back = decode_in_chain(&doc).expect("chain decode must succeed");
    assert_eq!(back, chain);
}
