//! The inbound mapper descriptor: one variant per inbound stage behavior.

use vstd::prelude::*;

use crate::doc::{obj_view, val_view, SpecValue, Value};
use crate::fields::{
    dres, mism, unknown, mism_at, unknown_at, d_req_str, d_bool, d_req_i8, d_pair_list,
    pf_req_str, pf_bool, pf_int, pf_pair_list, put_req_str, put_bool, put_int,
    put_pair_list, put_lit_str, str_is, d_req_str_x, d_bool_x, d_i8_x, d_pair_list_x,
    DecodeErr, ErrV,
};
use crate::codec::{
    lemma_pairs_rt, enc_stdio, dec_stdio, encode_stdio_into, decode_stdio, lemma_rt_stdio,
    enc_file, dec_file, encode_file_into, decode_file, lemma_rt_file, enc_bind_dialer,
    dec_bind_dialer, encode_bind_dialer_into, decode_bind_dialer, lemma_rt_bind_dialer,
    enc_tproxy, dec_tproxy, encode_tproxy_into, decode_tproxy, lemma_rt_tproxy,
    enc_recorder, dec_recorder, encode_recorder_into, decode_recorder, lemma_rt_recorder,
    enc_tls_server, dec_tls_server, encode_tls_server_into, decode_tls_server,
    lemma_rt_tls_server, enc_plain_text, dec_plain_text, encode_plain_text_into,
    decode_plain_text, lemma_rt_plain_text, enc_trojan, dec_trojan, encode_trojan_into,
    decode_trojan, lemma_rt_trojan, enc_quic_server, dec_quic_server,
    encode_quic_server_into, decode_quic_server, lemma_rt_quic_server, d_opt_ext,
    pf_opt_ext, put_opt_ext, d_opt_ext_x, lemma_rt_ext, d_opt_common, pf_opt_common,
    put_opt_common, d_opt_common_x, lemma_rt_common, d_req_sockopt, pf_req_sockopt,
    put_req_sockopt, d_req_sockopt_x, lemma_rt_sockopt,
};
use crate::types::{
    Ext, ExtV, CommonConfig, CommonConfigV, SockOpt, SockOptV, StdioConfig, StdioConfigV,
    FileConfig, FileConfigV, BindDialerConfig, BindDialerConfigV, TproxyOptions,
    TproxyOptionsV, RecorderConfig, RecorderConfigV, TlsServerOptions, TlsServerOptionsV,
    PlainTextPassSet, PlainTextPassSetV, TrojanConfig, TrojanConfigV, QuicServerConfig,
    QuicServerConfigV,
};

verus! {

/// The base of every tagged object: just the discriminant.
pub open spec fn tbase(n: Seq<char>) -> Map<Seq<char>, SpecValue> {
    Map::empty().insert("type"@, SpecValue::Str(n))
}

#[derive(Debug, Clone, PartialEq)]
pub enum InMapConfig {
    Echo,
    Stdio(StdioConfig),
    Fileio(FileConfig),
    BindDialer(Box<BindDialerConfig>),
    Listener { listen_addr: String, ext: Option<Ext> },
    TcpOptListener { listen_addr: String, sockopt: SockOpt, ext: Option<Ext> },
    TproxyUdpListener { listen_addr: String, sockopt: SockOpt, ext: Option<Ext> },
    TproxyTcpResolver(TproxyOptions),
    Adder { value: i8 },
    Counter,
    Recorder(RecorderConfig),
    TLS(TlsServerOptions),
    NativeTLS(TlsServerOptions),
    H2 { is_grpc: bool, http_config: Option<CommonConfig> },
    Http(PlainTextPassSet),
    Socks5(PlainTextPassSet),
    Socks5Http(PlainTextPassSet),
    Trojan(TrojanConfig),
    HttpFilter { http_config: Option<CommonConfig> },
    WebSocket { http_config: Option<CommonConfig> },
    Quic(QuicServerConfig),
    Stack,
    StackLwip,
    SPE1 { qa: Vec<(String, String)> },
    Lua { file_name: String, handshake_function: String },
    MITM(TlsServerOptions),
    Embedder { file_name: String },
}

pub enum InMapConfigV {
    Echo,
    Stdio(StdioConfigV),
    Fileio(FileConfigV),
    BindDialer(BindDialerConfigV),
    Listener { listen_addr: Seq<char>, ext: Option<ExtV> },
    TcpOptListener { listen_addr: Seq<char>, sockopt: SockOptV, ext: Option<ExtV> },
    TproxyUdpListener { listen_addr: Seq<char>, sockopt: SockOptV, ext: Option<ExtV> },
    TproxyTcpResolver(TproxyOptionsV),
    Adder { value: i8 },
    Counter,
    Recorder(RecorderConfigV),
    TLS(TlsServerOptionsV),
    NativeTLS(TlsServerOptionsV),
    H2 { is_grpc: bool, http_config: Option<CommonConfigV> },
    Http(PlainTextPassSetV),
    Socks5(PlainTextPassSetV),
    Socks5Http(PlainTextPassSetV),
    Trojan(TrojanConfigV),
    HttpFilter { http_config: Option<CommonConfigV> },
    WebSocket { http_config: Option<CommonConfigV> },
    Quic(QuicServerConfigV),
    Stack,
    StackLwip,
    SPE1 { qa: Seq<(Seq<char>, Seq<char>)> },
    Lua { file_name: Seq<char>, handshake_function: Seq<char> },
    MITM(TlsServerOptionsV),
    Embedder { file_name: Seq<char> },
}

impl DeepView for InMapConfig {
    type V = InMapConfigV;

    open spec fn deep_view(&self) -> InMapConfigV {
        match self {
                InMapConfig::Echo => InMapConfigV::Echo,
                InMapConfig::Stdio(c) => InMapConfigV::Stdio(c.deep_view()),
                InMapConfig::Fileio(c) => InMapConfigV::Fileio(c.deep_view()),
                InMapConfig::BindDialer(c) => InMapConfigV::BindDialer(c.deep_view()),
                InMapConfig::Listener { listen_addr, ext } => InMapConfigV::Listener { listen_addr: listen_addr.deep_view(), ext: ext.deep_view() },
                InMapConfig::TcpOptListener { listen_addr, sockopt, ext } => InMapConfigV::TcpOptListener { listen_addr: listen_addr.deep_view(), sockopt: sockopt.deep_view(), ext: ext.deep_view() },
                InMapConfig::TproxyUdpListener { listen_addr, sockopt, ext } => InMapConfigV::TproxyUdpListener { listen_addr: listen_addr.deep_view(), sockopt: sockopt.deep_view(), ext: ext.deep_view() },
                InMapConfig::TproxyTcpResolver(c) => InMapConfigV::TproxyTcpResolver(c.deep_view()),
                InMapConfig::Adder { value } => InMapConfigV::Adder { value: *value },
                InMapConfig::Counter => InMapConfigV::Counter,
                InMapConfig::Recorder(c) => InMapConfigV::Recorder(c.deep_view()),
                InMapConfig::TLS(c) => InMapConfigV::TLS(c.deep_view()),
                InMapConfig::NativeTLS(c) => InMapConfigV::NativeTLS(c.deep_view()),
                InMapConfig::H2 { is_grpc, http_config } => InMapConfigV::H2 { is_grpc: *is_grpc, http_config: http_config.deep_view() },
                InMapConfig::Http(c) => InMapConfigV::Http(c.deep_view()),
                InMapConfig::Socks5(c) => InMapConfigV::Socks5(c.deep_view()),
                InMapConfig::Socks5Http(c) => InMapConfigV::Socks5Http(c.deep_view()),
                InMapConfig::Trojan(c) => InMapConfigV::Trojan(c.deep_view()),
                InMapConfig::HttpFilter { http_config } => InMapConfigV::HttpFilter { http_config: http_config.deep_view() },
                InMapConfig::WebSocket { http_config } => InMapConfigV::WebSocket { http_config: http_config.deep_view() },
                InMapConfig::Quic(c) => InMapConfigV::Quic(c.deep_view()),
                InMapConfig::Stack => InMapConfigV::Stack,
                InMapConfig::StackLwip => InMapConfigV::StackLwip,
                InMapConfig::SPE1 { qa } => InMapConfigV::SPE1 { qa: qa.deep_view() },
                InMapConfig::Lua { file_name, handshake_function } => InMapConfigV::Lua { file_name: file_name.deep_view(), handshake_function: handshake_function.deep_view() },
                InMapConfig::MITM(c) => InMapConfigV::MITM(c.deep_view()),
                InMapConfig::Embedder { file_name } => InMapConfigV::Embedder { file_name: file_name.deep_view() },
        }
    }
}

pub open spec fn enc_in(m: InMapConfigV) -> Map<Seq<char>, SpecValue> {
    match m {
        InMapConfigV::Echo => tbase("Echo"@),
        InMapConfigV::Stdio(c) => enc_stdio(c, tbase("Stdio"@)),
        InMapConfigV::Fileio(c) => enc_file(c, tbase("Fileio"@)),
        InMapConfigV::BindDialer(c) => enc_bind_dialer(c, tbase("BindDialer"@)),
        InMapConfigV::Listener { listen_addr, ext } => pf_opt_ext(pf_req_str(tbase("Listener"@), "listen_addr"@, listen_addr), "ext"@, ext),
        InMapConfigV::TcpOptListener { listen_addr, sockopt, ext } => pf_opt_ext(pf_req_sockopt(pf_req_str(tbase("TcpOptListener"@), "listen_addr"@, listen_addr), "sockopt"@, sockopt), "ext"@, ext),
        InMapConfigV::TproxyUdpListener { listen_addr, sockopt, ext } => pf_opt_ext(pf_req_sockopt(pf_req_str(tbase("TproxyUdpListener"@), "listen_addr"@, listen_addr), "sockopt"@, sockopt), "ext"@, ext),
        InMapConfigV::TproxyTcpResolver(c) => enc_tproxy(c, tbase("TproxyTcpResolver"@)),
        InMapConfigV::Adder { value } => pf_int(tbase("Adder"@), "value"@, value as i128),
        InMapConfigV::Counter => tbase("Counter"@),
        InMapConfigV::Recorder(c) => enc_recorder(c, tbase("Recorder"@)),
        InMapConfigV::TLS(c) => enc_tls_server(c, tbase("TLS"@)),
        InMapConfigV::NativeTLS(c) => enc_tls_server(c, tbase("NativeTLS"@)),
        InMapConfigV::H2 { is_grpc, http_config } => pf_opt_common(pf_bool(tbase("H2"@), "is_grpc"@, is_grpc), "http_config"@, http_config),
        InMapConfigV::Http(c) => enc_plain_text(c, tbase("Http"@)),
        InMapConfigV::Socks5(c) => enc_plain_text(c, tbase("Socks5"@)),
        InMapConfigV::Socks5Http(c) => enc_plain_text(c, tbase("Socks5Http"@)),
        InMapConfigV::Trojan(c) => enc_trojan(c, tbase("Trojan"@)),
        InMapConfigV::HttpFilter { http_config } => pf_opt_common(tbase("HttpFilter"@), "http_config"@, http_config),
        InMapConfigV::WebSocket { http_config } => pf_opt_common(tbase("WebSocket"@), "http_config"@, http_config),
        InMapConfigV::Quic(c) => enc_quic_server(c, tbase("Quic"@)),
        InMapConfigV::Stack => tbase("Stack"@),
        InMapConfigV::StackLwip => tbase("StackLwip"@),
        InMapConfigV::SPE1 { qa } => pf_pair_list(tbase("SPE1"@), "qa"@, qa),
        InMapConfigV::Lua { file_name, handshake_function } => pf_req_str(pf_req_str(tbase("Lua"@), "file_name"@, file_name), "handshake_function"@, handshake_function),
        InMapConfigV::MITM(c) => enc_tls_server(c, tbase("MITM"@)),
        InMapConfigV::Embedder { file_name } => pf_req_str(tbase("Embedder"@), "file_name"@, file_name),
    }
}

pub open spec fn dec_in_listener(m: Map<Seq<char>, SpecValue>) -> Result<InMapConfigV, ErrV> {
    let r_listen_addr = d_req_str(m, "listen_addr"@);
    let r_ext = d_opt_ext(m, "ext"@);
    if r_listen_addr is Err {
        Err(r_listen_addr->Err_0)
    } else if r_ext is Err {
        Err(r_ext->Err_0)
    } else {
        Ok(InMapConfigV::Listener { listen_addr: r_listen_addr->Ok_0, ext: r_ext->Ok_0 })
    }
}

pub open spec fn dec_in_tcpoptlistener(m: Map<Seq<char>, SpecValue>) -> Result<InMapConfigV, ErrV> {
    let r_listen_addr = d_req_str(m, "listen_addr"@);
    let r_sockopt = d_req_sockopt(m, "sockopt"@);
    let r_ext = d_opt_ext(m, "ext"@);
    if r_listen_addr is Err {
        Err(r_listen_addr->Err_0)
    } else if r_sockopt is Err {
        Err(r_sockopt->Err_0)
    } else if r_ext is Err {
        Err(r_ext->Err_0)
    } else {
        Ok(InMapConfigV::TcpOptListener { listen_addr: r_listen_addr->Ok_0, sockopt: r_sockopt->Ok_0, ext: r_ext->Ok_0 })
    }
}

pub open spec fn dec_in_tproxyudplistener(m: Map<Seq<char>, SpecValue>) -> Result<InMapConfigV, ErrV> {
    let r_listen_addr = d_req_str(m, "listen_addr"@);
    let r_sockopt = d_req_sockopt(m, "sockopt"@);
    let r_ext = d_opt_ext(m, "ext"@);
    if r_listen_addr is Err {
        Err(r_listen_addr->Err_0)
    } else if r_sockopt is Err {
        Err(r_sockopt->Err_0)
    } else if r_ext is Err {
        Err(r_ext->Err_0)
    } else {
        Ok(InMapConfigV::TproxyUdpListener { listen_addr: r_listen_addr->Ok_0, sockopt: r_sockopt->Ok_0, ext: r_ext->Ok_0 })
    }
}

pub open spec fn dec_in_adder(m: Map<Seq<char>, SpecValue>) -> Result<InMapConfigV, ErrV> {
    let r_value = d_req_i8(m, "value"@);
    if r_value is Err {
        Err(r_value->Err_0)
    } else {
        Ok(InMapConfigV::Adder { value: r_value->Ok_0 })
    }
}

pub open spec fn dec_in_h2(m: Map<Seq<char>, SpecValue>) -> Result<InMapConfigV, ErrV> {
    let r_is_grpc = d_bool(m, "is_grpc"@);
    let r_http_config = d_opt_common(m, "http_config"@);
    if r_is_grpc is Err {
        Err(r_is_grpc->Err_0)
    } else if r_http_config is Err {
        Err(r_http_config->Err_0)
    } else {
        Ok(InMapConfigV::H2 { is_grpc: r_is_grpc->Ok_0, http_config: r_http_config->Ok_0 })
    }
}

pub open spec fn dec_in_httpfilter(m: Map<Seq<char>, SpecValue>) -> Result<InMapConfigV, ErrV> {
    let r_http_config = d_opt_common(m, "http_config"@);
    if r_http_config is Err {
        Err(r_http_config->Err_0)
    } else {
        Ok(InMapConfigV::HttpFilter { http_config: r_http_config->Ok_0 })
    }
}

pub open spec fn dec_in_websocket(m: Map<Seq<char>, SpecValue>) -> Result<InMapConfigV, ErrV> {
    let r_http_config = d_opt_common(m, "http_config"@);
    if r_http_config is Err {
        Err(r_http_config->Err_0)
    } else {
        Ok(InMapConfigV::WebSocket { http_config: r_http_config->Ok_0 })
    }
}

pub open spec fn dec_in_spe1(m: Map<Seq<char>, SpecValue>) -> Result<InMapConfigV, ErrV> {
    let r_qa = d_pair_list(m, "qa"@);
    if r_qa is Err {
        Err(r_qa->Err_0)
    } else {
        Ok(InMapConfigV::SPE1 { qa: r_qa->Ok_0 })
    }
}

pub open spec fn dec_in_lua(m: Map<Seq<char>, SpecValue>) -> Result<InMapConfigV, ErrV> {
    let r_file_name = d_req_str(m, "file_name"@);
    let r_handshake_function = d_req_str(m, "handshake_function"@);
    if r_file_name is Err {
        Err(r_file_name->Err_0)
    } else if r_handshake_function is Err {
        Err(r_handshake_function->Err_0)
    } else {
        Ok(InMapConfigV::Lua { file_name: r_file_name->Ok_0, handshake_function: r_handshake_function->Ok_0 })
    }
}

pub open spec fn dec_in_embedder(m: Map<Seq<char>, SpecValue>) -> Result<InMapConfigV, ErrV> {
    let r_file_name = d_req_str(m, "file_name"@);
    if r_file_name is Err {
        Err(r_file_name->Err_0)
    } else {
        Ok(InMapConfigV::Embedder { file_name: r_file_name->Ok_0 })
    }
}

pub open spec fn dec_in(m: Map<Seq<char>, SpecValue>) -> Result<InMapConfigV, ErrV> {
    let rt = d_req_str(m, "type"@);
    if rt is Err {
        Err(rt->Err_0)
    } else {
        let t = rt->Ok_0;
        if t == "Echo"@ {
            Ok(InMapConfigV::Echo)
        } else if t == "Stdio"@ {
            match dec_stdio(m) {
                Ok(c) => Ok(InMapConfigV::Stdio(c)),
                Err(e) => Err(e),
            }
        } else if t == "Fileio"@ {
            match dec_file(m) {
                Ok(c) => Ok(InMapConfigV::Fileio(c)),
                Err(e) => Err(e),
            }
        } else if t == "BindDialer"@ {
            match dec_bind_dialer(m) {
                Ok(c) => Ok(InMapConfigV::BindDialer(c)),
                Err(e) => Err(e),
            }
        } else if t == "Listener"@ {
            dec_in_listener(m)
        } else if t == "TcpOptListener"@ {
            dec_in_tcpoptlistener(m)
        } else if t == "TproxyUdpListener"@ {
            dec_in_tproxyudplistener(m)
        } else if t == "TproxyTcpResolver"@ {
            match dec_tproxy(m) {
                Ok(c) => Ok(InMapConfigV::TproxyTcpResolver(c)),
                Err(e) => Err(e),
            }
        } else if t == "Adder"@ {
            dec_in_adder(m)
        } else if t == "Counter"@ {
            Ok(InMapConfigV::Counter)
        } else if t == "Recorder"@ {
            match dec_recorder(m) {
                Ok(c) => Ok(InMapConfigV::Recorder(c)),
                Err(e) => Err(e),
            }
        } else if t == "TLS"@ {
            match dec_tls_server(m) {
                Ok(c) => Ok(InMapConfigV::TLS(c)),
                Err(e) => Err(e),
            }
        } else if t == "NativeTLS"@ {
            match dec_tls_server(m) {
                Ok(c) => Ok(InMapConfigV::NativeTLS(c)),
                Err(e) => Err(e),
            }
        } else if t == "H2"@ {
            dec_in_h2(m)
        } else if t == "Http"@ {
            match dec_plain_text(m) {
                Ok(c) => Ok(InMapConfigV::Http(c)),
                Err(e) => Err(e),
            }
        } else if t == "Socks5"@ {
            match dec_plain_text(m) {
                Ok(c) => Ok(InMapConfigV::Socks5(c)),
                Err(e) => Err(e),
            }
        } else if t == "Socks5Http"@ {
            match dec_plain_text(m) {
                Ok(c) => Ok(InMapConfigV::Socks5Http(c)),
                Err(e) => Err(e),
            }
        } else if t == "Trojan"@ {
            match dec_trojan(m) {
                Ok(c) => Ok(InMapConfigV::Trojan(c)),
                Err(e) => Err(e),
            }
        } else if t == "HttpFilter"@ {
            dec_in_httpfilter(m)
        } else if t == "WebSocket"@ {
            dec_in_websocket(m)
        } else if t == "Quic"@ {
            match dec_quic_server(m) {
                Ok(c) => Ok(InMapConfigV::Quic(c)),
                Err(e) => Err(e),
            }
        } else if t == "Stack"@ {
            Ok(InMapConfigV::Stack)
        } else if t == "StackLwip"@ {
            Ok(InMapConfigV::StackLwip)
        } else if t == "SPE1"@ {
            dec_in_spe1(m)
        } else if t == "Lua"@ {
            dec_in_lua(m)
        } else if t == "MITM"@ {
            match dec_tls_server(m) {
                Ok(c) => Ok(InMapConfigV::MITM(c)),
                Err(e) => Err(e),
            }
        } else if t == "Embedder"@ {
            dec_in_embedder(m)
        } else {
            Err(unknown(t))
        }
    }
}

/// Meaning of decoding a whole stage value: it must be an object.
pub open spec fn dec_in_val(v: SpecValue) -> Result<InMapConfigV, ErrV> {
    match v {
        SpecValue::Obj(m) => dec_in(m),
        _ => Err(mism("stage"@)),
    }
}

/// Encodes one stage descriptor as a tagged object: the `"type"` field
/// holds the variant name and the remaining fields hold its parameters,
/// with fields at their defaults left out.
pub fn encode_in(c: &InMapConfig) -> (v: Value)
    ensures
        val_view(v) == SpecValue::Obj(enc_in(c.deep_view())),
{
    let mut out: Vec<(String, Value)> = Vec::new();
    proof {
        assert(obj_view(out@) == Map::<Seq<char>, SpecValue>::empty());
    }
    match c {
        InMapConfig::Echo => {
            put_lit_str(&mut out, "type", "Echo");
        },
        InMapConfig::Stdio(p) => {
            put_lit_str(&mut out, "type", "Stdio");
            encode_stdio_into(&mut out, p);
        },
        InMapConfig::Fileio(p) => {
            put_lit_str(&mut out, "type", "Fileio");
            encode_file_into(&mut out, p);
        },
        InMapConfig::BindDialer(p) => {
            put_lit_str(&mut out, "type", "BindDialer");
            encode_bind_dialer_into(&mut out, p);
        },
        InMapConfig::Listener { listen_addr, ext } => {
            put_lit_str(&mut out, "type", "Listener");
            put_req_str(&mut out, "listen_addr", listen_addr);
            put_opt_ext(&mut out, "ext", ext);
        },
        InMapConfig::TcpOptListener { listen_addr, sockopt, ext } => {
            put_lit_str(&mut out, "type", "TcpOptListener");
            put_req_str(&mut out, "listen_addr", listen_addr);
            put_req_sockopt(&mut out, "sockopt", sockopt);
            put_opt_ext(&mut out, "ext", ext);
        },
        InMapConfig::TproxyUdpListener { listen_addr, sockopt, ext } => {
            put_lit_str(&mut out, "type", "TproxyUdpListener");
            put_req_str(&mut out, "listen_addr", listen_addr);
            put_req_sockopt(&mut out, "sockopt", sockopt);
            put_opt_ext(&mut out, "ext", ext);
        },
        InMapConfig::TproxyTcpResolver(p) => {
            put_lit_str(&mut out, "type", "TproxyTcpResolver");
            encode_tproxy_into(&mut out, p);
        },
        InMapConfig::Adder { value } => {
            put_lit_str(&mut out, "type", "Adder");
            put_int(&mut out, "value", *value as i128);
        },
        InMapConfig::Counter => {
            put_lit_str(&mut out, "type", "Counter");
        },
        InMapConfig::Recorder(p) => {
            put_lit_str(&mut out, "type", "Recorder");
            encode_recorder_into(&mut out, p);
        },
        InMapConfig::TLS(p) => {
            put_lit_str(&mut out, "type", "TLS");
            encode_tls_server_into(&mut out, p);
        },
        InMapConfig::NativeTLS(p) => {
            put_lit_str(&mut out, "type", "NativeTLS");
            encode_tls_server_into(&mut out, p);
        },
        InMapConfig::H2 { is_grpc, http_config } => {
            put_lit_str(&mut out, "type", "H2");
            put_bool(&mut out, "is_grpc", *is_grpc);
            put_opt_common(&mut out, "http_config", http_config);
        },
        InMapConfig::Http(p) => {
            put_lit_str(&mut out, "type", "Http");
            encode_plain_text_into(&mut out, p);
        },
        InMapConfig::Socks5(p) => {
            put_lit_str(&mut out, "type", "Socks5");
            encode_plain_text_into(&mut out, p);
        },
        InMapConfig::Socks5Http(p) => {
            put_lit_str(&mut out, "type", "Socks5Http");
            encode_plain_text_into(&mut out, p);
        },
        InMapConfig::Trojan(p) => {
            put_lit_str(&mut out, "type", "Trojan");
            encode_trojan_into(&mut out, p);
        },
        InMapConfig::HttpFilter { http_config } => {
            put_lit_str(&mut out, "type", "HttpFilter");
            put_opt_common(&mut out, "http_config", http_config);
        },
        InMapConfig::WebSocket { http_config } => {
            put_lit_str(&mut out, "type", "WebSocket");
            put_opt_common(&mut out, "http_config", http_config);
        },
        InMapConfig::Quic(p) => {
            put_lit_str(&mut out, "type", "Quic");
            encode_quic_server_into(&mut out, p);
        },
        InMapConfig::Stack => {
            put_lit_str(&mut out, "type", "Stack");
        },
        InMapConfig::StackLwip => {
            put_lit_str(&mut out, "type", "StackLwip");
        },
        InMapConfig::SPE1 { qa } => {
            put_lit_str(&mut out, "type", "SPE1");
            put_pair_list(&mut out, "qa", qa);
        },
        InMapConfig::Lua { file_name, handshake_function } => {
            put_lit_str(&mut out, "type", "Lua");
            put_req_str(&mut out, "file_name", file_name);
            put_req_str(&mut out, "handshake_function", handshake_function);
        },
        InMapConfig::MITM(p) => {
            put_lit_str(&mut out, "type", "MITM");
            encode_tls_server_into(&mut out, p);
        },
        InMapConfig::Embedder { file_name } => {
            put_lit_str(&mut out, "type", "Embedder");
            put_req_str(&mut out, "file_name", file_name);
        },
    }
    Value::Obj(out)
}

/// Decodes one stage descriptor from the fields of a tagged object.
#[verifier::rlimit(100)]
#[verifier::spinoff_prover]
pub fn decode_in_obj(f: &Vec<(String, Value)>) -> (r: Result<InMapConfig, DecodeErr>)
    ensures
        dres(r) == dec_in(obj_view(f@)),
{
    let t = match d_req_str_x(f, "type") {
        Ok(v) => v,
        Err(e) => return Err(e),
    };
    if str_is(&t, "Echo") {
            Ok(InMapConfig::Echo)
        } else if str_is(&t, "Stdio") {
            match decode_stdio(f) {
                Ok(c) => Ok(InMapConfig::Stdio(c)),
                Err(e) => Err(e),
            }
        } else if str_is(&t, "Fileio") {
            match decode_file(f) {
                Ok(c) => Ok(InMapConfig::Fileio(c)),
                Err(e) => Err(e),
            }
        } else if str_is(&t, "BindDialer") {
            match decode_bind_dialer(f) {
                Ok(c) => Ok(InMapConfig::BindDialer(Box::new(c))),
                Err(e) => Err(e),
            }
        } else if str_is(&t, "Listener") {
            let x_listen_addr = match d_req_str_x(f, "listen_addr") {
                Ok(v) => v,
                Err(e) => return Err(e),
            };
            let x_ext = match d_opt_ext_x(f, "ext") {
                Ok(v) => v,
                Err(e) => return Err(e),
            };
            Ok(InMapConfig::Listener { listen_addr: x_listen_addr, ext: x_ext })
        } else if str_is(&t, "TcpOptListener") {
            let x_listen_addr = match d_req_str_x(f, "listen_addr") {
                Ok(v) => v,
                Err(e) => return Err(e),
            };
            let x_sockopt = match d_req_sockopt_x(f, "sockopt") {
                Ok(v) => v,
                Err(e) => return Err(e),
            };
            let x_ext = match d_opt_ext_x(f, "ext") {
                Ok(v) => v,
                Err(e) => return Err(e),
            };
            Ok(InMapConfig::TcpOptListener { listen_addr: x_listen_addr, sockopt: x_sockopt, ext: x_ext })
        } else if str_is(&t, "TproxyUdpListener") {
            let x_listen_addr = match d_req_str_x(f, "listen_addr") {
                Ok(v) => v,
                Err(e) => return Err(e),
            };
            let x_sockopt = match d_req_sockopt_x(f, "sockopt") {
                Ok(v) => v,
                Err(e) => return Err(e),
            };
            let x_ext = match d_opt_ext_x(f, "ext") {
                Ok(v) => v,
                Err(e) => return Err(e),
            };
            Ok(InMapConfig::TproxyUdpListener { listen_addr: x_listen_addr, sockopt: x_sockopt, ext: x_ext })
        } else if str_is(&t, "TproxyTcpResolver") {
            match decode_tproxy(f) {
                Ok(c) => Ok(InMapConfig::TproxyTcpResolver(c)),
                Err(e) => Err(e),
            }
        } else if str_is(&t, "Adder") {
            let x_value = match d_i8_x(f, "value") {
                Ok(v) => v,
                Err(e) => return Err(e),
            };
            Ok(InMapConfig::Adder { value: x_value })
        } else if str_is(&t, "Counter") {
            Ok(InMapConfig::Counter)
        } else if str_is(&t, "Recorder") {
            match decode_recorder(f) {
                Ok(c) => Ok(InMapConfig::Recorder(c)),
                Err(e) => Err(e),
            }
        } else if str_is(&t, "TLS") {
            match decode_tls_server(f) {
                Ok(c) => Ok(InMapConfig::TLS(c)),
                Err(e) => Err(e),
            }
        } else if str_is(&t, "NativeTLS") {
            match decode_tls_server(f) {
                Ok(c) => Ok(InMapConfig::NativeTLS(c)),
                Err(e) => Err(e),
            }
        } else if str_is(&t, "H2") {
            let x_is_grpc = match d_bool_x(f, "is_grpc") {
                Ok(v) => v,
                Err(e) => return Err(e),
            };
            let x_http_config = match d_opt_common_x(f, "http_config") {
                Ok(v) => v,
                Err(e) => return Err(e),
            };
            Ok(InMapConfig::H2 { is_grpc: x_is_grpc, http_config: x_http_config })
        } else if str_is(&t, "Http") {
            match decode_plain_text(f) {
                Ok(c) => Ok(InMapConfig::Http(c)),
                Err(e) => Err(e),
            }
        } else if str_is(&t, "Socks5") {
            match decode_plain_text(f) {
                Ok(c) => Ok(InMapConfig::Socks5(c)),
                Err(e) => Err(e),
            }
        } else if str_is(&t, "Socks5Http") {
            match decode_plain_text(f) {
                Ok(c) => Ok(InMapConfig::Socks5Http(c)),
                Err(e) => Err(e),
            }
        } else if str_is(&t, "Trojan") {
            match decode_trojan(f) {
                Ok(c) => Ok(InMapConfig::Trojan(c)),
                Err(e) => Err(e),
            }
        } else if str_is(&t, "HttpFilter") {
            let x_http_config = match d_opt_common_x(f, "http_config") {
                Ok(v) => v,
                Err(e) => return Err(e),
            };
            Ok(InMapConfig::HttpFilter { http_config: x_http_config })
        } else if str_is(&t, "WebSocket") {
            let x_http_config = match d_opt_common_x(f, "http_config") {
                Ok(v) => v,
                Err(e) => return Err(e),
            };
            Ok(InMapConfig::WebSocket { http_config: x_http_config })
        } else if str_is(&t, "Quic") {
            match decode_quic_server(f) {
                Ok(c) => Ok(InMapConfig::Quic(c)),
                Err(e) => Err(e),
            }
        } else if str_is(&t, "Stack") {
            Ok(InMapConfig::Stack)
        } else if str_is(&t, "StackLwip") {
            Ok(InMapConfig::StackLwip)
        } else if str_is(&t, "SPE1") {
            let x_qa = match d_pair_list_x(f, "qa") {
                Ok(v) => v,
                Err(e) => return Err(e),
            };
            Ok(InMapConfig::SPE1 { qa: x_qa })
        } else if str_is(&t, "Lua") {
            let x_file_name = match d_req_str_x(f, "file_name") {
                Ok(v) => v,
                Err(e) => return Err(e),
            };
            let x_handshake_function = match d_req_str_x(f, "handshake_function") {
                Ok(v) => v,
                Err(e) => return Err(e),
            };
            Ok(InMapConfig::Lua { file_name: x_file_name, handshake_function: x_handshake_function })
        } else if str_is(&t, "MITM") {
            match decode_tls_server(f) {
                Ok(c) => Ok(InMapConfig::MITM(c)),
                Err(e) => Err(e),
            }
        } else if str_is(&t, "Embedder") {
            let x_file_name = match d_req_str_x(f, "file_name") {
                Ok(v) => v,
                Err(e) => return Err(e),
            };
            Ok(InMapConfig::Embedder { file_name: x_file_name })
        } else {
            Err(unknown_at(&t))
        }
}

/// Decodes one stage descriptor from a document value.
pub fn decode_in(v: &Value) -> (r: Result<InMapConfig, DecodeErr>)
    ensures
        dres(r) == dec_in_val(val_view(*v)),
{
    match v {
        Value::Obj(f) => decode_in_obj(f),
        _ => Err(mism_at("stage")),
    }
}

/// The round-trip law: decoding an encoded stage descriptor yields the
/// descriptor itself, for every declared variant.
#[verifier::rlimit(80)]
pub proof fn lemma_rt_in(m: InMapConfigV)
    ensures
        dec_in(enc_in(m)) == Ok::<_, ErrV>(m),
{
    reveal_strlit("type");
    reveal_strlit("Echo");
    reveal_strlit("Stdio");
    reveal_strlit("Fileio");
    reveal_strlit("BindDialer");
    reveal_strlit("Listener");
    reveal_strlit("TcpOptListener");
    reveal_strlit("TproxyUdpListener");
    reveal_strlit("TproxyTcpResolver");
    reveal_strlit("Adder");
    reveal_strlit("Counter");
    reveal_strlit("Recorder");
    reveal_strlit("TLS");
    reveal_strlit("NativeTLS");
    reveal_strlit("H2");
    reveal_strlit("Http");
    reveal_strlit("Socks5");
    reveal_strlit("Socks5Http");
    reveal_strlit("Trojan");
    reveal_strlit("HttpFilter");
    reveal_strlit("WebSocket");
    reveal_strlit("Quic");
    reveal_strlit("Stack");
    reveal_strlit("StackLwip");
    reveal_strlit("SPE1");
    reveal_strlit("Lua");
    reveal_strlit("MITM");
    reveal_strlit("Embedder");
    reveal_strlit("listen_addr");
    reveal_strlit("ext");
    reveal_strlit("sockopt");
    reveal_strlit("value");
    reveal_strlit("is_grpc");
    reveal_strlit("http_config");
    reveal_strlit("qa");
    reveal_strlit("file_name");
    reveal_strlit("handshake_function");
    assert(("type"@).len() == 4);
    assert(("Echo"@).len() == 4);
    assert(("Stdio"@).len() == 5);
    assert(("Fileio"@).len() == 6);
    assert(("BindDialer"@).len() == 10);
    assert(("Listener"@).len() == 8);
    assert(("TcpOptListener"@).len() == 14);
    assert(("TproxyUdpListener"@).len() == 17);
    assert(("TproxyTcpResolver"@).len() == 17);
    assert(("Adder"@).len() == 5);
    assert(("Counter"@).len() == 7);
    assert(("Recorder"@).len() == 8);
    assert(("TLS"@).len() == 3);
    assert(("NativeTLS"@).len() == 9);
    assert(("H2"@).len() == 2);
    assert(("Http"@).len() == 4);
    assert(("Socks5"@).len() == 6);
    assert(("Socks5Http"@).len() == 10);
    assert(("Trojan"@).len() == 6);
    assert(("HttpFilter"@).len() == 10);
    assert(("WebSocket"@).len() == 9);
    assert(("Quic"@).len() == 4);
    assert(("Stack"@).len() == 5);
    assert(("StackLwip"@).len() == 9);
    assert(("SPE1"@).len() == 4);
    assert(("Lua"@).len() == 3);
    assert(("MITM"@).len() == 4);
    assert(("Embedder"@).len() == 8);
    assert(("listen_addr"@).len() == 11);
    assert(("ext"@).len() == 3);
    assert(("sockopt"@).len() == 7);
    assert(("value"@).len() == 5);
    assert(("is_grpc"@).len() == 7);
    assert(("http_config"@).len() == 11);
    assert(("qa"@).len() == 2);
    assert(("file_name"@).len() == 9);
    assert(("handshake_function"@).len() == 18);
    assert(("type"@)[0] == 't');
    assert(("Echo"@)[0] == 'E');
    assert(("Http"@)[0] == 'H');
    assert(("Quic"@)[0] == 'Q');
    assert(("SPE1"@)[0] == 'S');
    assert(("MITM"@)[0] == 'M');
    assert(("Stdio"@)[0] == 'S');
    assert(("Adder"@)[0] == 'A');
    assert(("Stdio"@)[2] == 'd');
    assert(("Stack"@)[2] == 'a');
    assert(("value"@)[0] == 'v');
    assert(("Fileio"@)[0] == 'F');
    assert(("Socks5"@)[0] == 'S');
    assert(("Trojan"@)[0] == 'T');
    assert(("BindDialer"@)[0] == 'B');
    assert(("Socks5Http"@)[0] == 'S');
    assert(("HttpFilter"@)[0] == 'H');
    assert(("Listener"@)[0] == 'L');
    assert(("Recorder"@)[0] == 'R');
    assert(("Embedder"@)[0] == 'E');
    assert(("TproxyUdpListener"@)[6] == 'U');
    assert(("TproxyTcpResolver"@)[6] == 'T');
    assert(("Stack"@)[0] == 'S');
    assert(("Counter"@)[0] == 'C');
    assert(("sockopt"@)[0] == 's');
    assert(("is_grpc"@)[0] == 'i');
    assert(("TLS"@)[0] == 'T');
    assert(("Lua"@)[0] == 'L');
    assert(("ext"@)[0] == 'e');
    assert(("NativeTLS"@)[0] == 'N');
    assert(("WebSocket"@)[0] == 'W');
    assert(("StackLwip"@)[0] == 'S');
    assert(("file_name"@)[0] == 'f');
    assert(("H2"@)[0] == 'H');
    assert(("qa"@)[0] == 'q');
    assert(("listen_addr"@)[0] == 'l');
    assert(("http_config"@)[0] == 'h');
    match m {
        InMapConfigV::Echo => {},
        InMapConfigV::Stdio(c) => {
            lemma_rt_stdio(c, tbase("Stdio"@));
        },
        InMapConfigV::Fileio(c) => {
            lemma_rt_file(c, tbase("Fileio"@));
        },
        InMapConfigV::BindDialer(c) => {
            lemma_rt_bind_dialer(c, tbase("BindDialer"@));
        },
        InMapConfigV::Listener { listen_addr, ext } => {
            match ext {
                Some(e) => lemma_rt_ext(e, Map::empty()),
                None => (),
            }
        },
        InMapConfigV::TcpOptListener { listen_addr, sockopt, ext } => {
            lemma_rt_sockopt(sockopt, Map::empty());
            match ext {
                Some(e) => lemma_rt_ext(e, Map::empty()),
                None => (),
            }
        },
        InMapConfigV::TproxyUdpListener { listen_addr, sockopt, ext } => {
            lemma_rt_sockopt(sockopt, Map::empty());
            match ext {
                Some(e) => lemma_rt_ext(e, Map::empty()),
                None => (),
            }
        },
        InMapConfigV::TproxyTcpResolver(c) => {
            lemma_rt_tproxy(c, tbase("TproxyTcpResolver"@));
        },
        InMapConfigV::Adder { value } => {
        
        },
        InMapConfigV::Counter => {},
        InMapConfigV::Recorder(c) => {
            lemma_rt_recorder(c, tbase("Recorder"@));
        },
        InMapConfigV::TLS(c) => {
            lemma_rt_tls_server(c, tbase("TLS"@));
        },
        InMapConfigV::NativeTLS(c) => {
            lemma_rt_tls_server(c, tbase("NativeTLS"@));
        },
        InMapConfigV::H2 { is_grpc, http_config } => {
            match http_config {
                Some(e) => lemma_rt_common(e, Map::empty()),
                None => (),
            }
        },
        InMapConfigV::Http(c) => {
            lemma_rt_plain_text(c, tbase("Http"@));
        },
        InMapConfigV::Socks5(c) => {
            lemma_rt_plain_text(c, tbase("Socks5"@));
        },
        InMapConfigV::Socks5Http(c) => {
            lemma_rt_plain_text(c, tbase("Socks5Http"@));
        },
        InMapConfigV::Trojan(c) => {
            lemma_rt_trojan(c, tbase("Trojan"@));
        },
        InMapConfigV::HttpFilter { http_config } => {
            match http_config {
                Some(e) => lemma_rt_common(e, Map::empty()),
                None => (),
            }
        },
        InMapConfigV::WebSocket { http_config } => {
            match http_config {
                Some(e) => lemma_rt_common(e, Map::empty()),
                None => (),
            }
        },
        InMapConfigV::Quic(c) => {
            lemma_rt_quic_server(c, tbase("Quic"@));
        },
        InMapConfigV::Stack => {},
        InMapConfigV::StackLwip => {},
        InMapConfigV::SPE1 { qa } => {
            lemma_pairs_rt(qa);
                if qa.len() == 0 {
                    assert(qa =~= Seq::<(Seq<char>, Seq<char>)>::empty());
                }
        },
        InMapConfigV::Lua { file_name, handshake_function } => {
        
        },
        InMapConfigV::MITM(c) => {
            lemma_rt_tls_server(c, tbase("MITM"@));
        },
        InMapConfigV::Embedder { file_name } => {
        
        },
    }
}

/// The declared variant names, in declaration order.
pub open spec fn in_variant_names() -> Seq<Seq<char>> {
    seq!["Echo"@, "Stdio"@, "Fileio"@, "BindDialer"@, "Listener"@, "TcpOptListener"@, "TproxyUdpListener"@, "TproxyTcpResolver"@, "Adder"@, "Counter"@, "Recorder"@, "TLS"@, "NativeTLS"@, "H2"@, "Http"@, "Socks5"@, "Socks5Http"@, "Trojan"@, "HttpFilter"@, "WebSocket"@, "Quic"@, "Stack"@, "StackLwip"@, "SPE1"@, "Lua"@, "MITM"@, "Embedder"@]
}

/// The variant catalog: every declared variant name, in stable
/// declaration order.
pub fn in_map_variant_names() -> (r: Vec<String>)
    ensures
        r.deep_view() == in_variant_names(),
{
    let mut v: Vec<String> = Vec::new();
    v.push(String::from_str("Echo"));
    v.push(String::from_str("Stdio"));
    v.push(String::from_str("Fileio"));
    v.push(String::from_str("BindDialer"));
    v.push(String::from_str("Listener"));
    v.push(String::from_str("TcpOptListener"));
    v.push(String::from_str("TproxyUdpListener"));
    v.push(String::from_str("TproxyTcpResolver"));
    v.push(String::from_str("Adder"));
    v.push(String::from_str("Counter"));
    v.push(String::from_str("Recorder"));
    v.push(String::from_str("TLS"));
    v.push(String::from_str("NativeTLS"));
    v.push(String::from_str("H2"));
    v.push(String::from_str("Http"));
    v.push(String::from_str("Socks5"));
    v.push(String::from_str("Socks5Http"));
    v.push(String::from_str("Trojan"));
    v.push(String::from_str("HttpFilter"));
    v.push(String::from_str("WebSocket"));
    v.push(String::from_str("Quic"));
    v.push(String::from_str("Stack"));
    v.push(String::from_str("StackLwip"));
    v.push(String::from_str("SPE1"));
    v.push(String::from_str("Lua"));
    v.push(String::from_str("MITM"));
    v.push(String::from_str("Embedder"));
    proof {
        assert(v.deep_view() =~= in_variant_names());
    }
    v
}

/// The discriminant spelling of one descriptor.
pub open spec fn in_name_of(m: InMapConfigV) -> Seq<char> {
    match m {
        InMapConfigV::Echo => "Echo"@,
        InMapConfigV::Stdio(_) => "Stdio"@,
        InMapConfigV::Fileio(_) => "Fileio"@,
        InMapConfigV::BindDialer(_) => "BindDialer"@,
        InMapConfigV::Listener { .. } => "Listener"@,
        InMapConfigV::TcpOptListener { .. } => "TcpOptListener"@,
        InMapConfigV::TproxyUdpListener { .. } => "TproxyUdpListener"@,
        InMapConfigV::TproxyTcpResolver(_) => "TproxyTcpResolver"@,
        InMapConfigV::Adder { .. } => "Adder"@,
        InMapConfigV::Counter => "Counter"@,
        InMapConfigV::Recorder(_) => "Recorder"@,
        InMapConfigV::TLS(_) => "TLS"@,
        InMapConfigV::NativeTLS(_) => "NativeTLS"@,
        InMapConfigV::H2 { .. } => "H2"@,
        InMapConfigV::Http(_) => "Http"@,
        InMapConfigV::Socks5(_) => "Socks5"@,
        InMapConfigV::Socks5Http(_) => "Socks5Http"@,
        InMapConfigV::Trojan(_) => "Trojan"@,
        InMapConfigV::HttpFilter { .. } => "HttpFilter"@,
        InMapConfigV::WebSocket { .. } => "WebSocket"@,
        InMapConfigV::Quic(_) => "Quic"@,
        InMapConfigV::Stack => "Stack"@,
        InMapConfigV::StackLwip => "StackLwip"@,
        InMapConfigV::SPE1 { .. } => "SPE1"@,
        InMapConfigV::Lua { .. } => "Lua"@,
        InMapConfigV::MITM(_) => "MITM"@,
        InMapConfigV::Embedder { .. } => "Embedder"@,
    }
}

/// Every descriptor's discriminant is in the catalog.
pub proof fn lemma_in_name_in_catalog(m: InMapConfigV)
    ensures
        in_variant_names().contains(in_name_of(m)),
{
    match m {
        InMapConfigV::Echo => {
            assert(in_variant_names()[0] == in_name_of(m));
        },
        InMapConfigV::Stdio(_) => {
            assert(in_variant_names()[1] == in_name_of(m));
        },
        InMapConfigV::Fileio(_) => {
            assert(in_variant_names()[2] == in_name_of(m));
        },
        InMapConfigV::BindDialer(_) => {
            assert(in_variant_names()[3] == in_name_of(m));
        },
        InMapConfigV::Listener { .. } => {
            assert(in_variant_names()[4] == in_name_of(m));
        },
        InMapConfigV::TcpOptListener { .. } => {
            assert(in_variant_names()[5] == in_name_of(m));
        },
        InMapConfigV::TproxyUdpListener { .. } => {
            assert(in_variant_names()[6] == in_name_of(m));
        },
        InMapConfigV::TproxyTcpResolver(_) => {
            assert(in_variant_names()[7] == in_name_of(m));
        },
        InMapConfigV::Adder { .. } => {
            assert(in_variant_names()[8] == in_name_of(m));
        },
        InMapConfigV::Counter => {
            assert(in_variant_names()[9] == in_name_of(m));
        },
        InMapConfigV::Recorder(_) => {
            assert(in_variant_names()[10] == in_name_of(m));
        },
        InMapConfigV::TLS(_) => {
            assert(in_variant_names()[11] == in_name_of(m));
        },
        InMapConfigV::NativeTLS(_) => {
            assert(in_variant_names()[12] == in_name_of(m));
        },
        InMapConfigV::H2 { .. } => {
            assert(in_variant_names()[13] == in_name_of(m));
        },
        InMapConfigV::Http(_) => {
            assert(in_variant_names()[14] == in_name_of(m));
        },
        InMapConfigV::Socks5(_) => {
            assert(in_variant_names()[15] == in_name_of(m));
        },
        InMapConfigV::Socks5Http(_) => {
            assert(in_variant_names()[16] == in_name_of(m));
        },
        InMapConfigV::Trojan(_) => {
            assert(in_variant_names()[17] == in_name_of(m));
        },
        InMapConfigV::HttpFilter { .. } => {
            assert(in_variant_names()[18] == in_name_of(m));
        },
        InMapConfigV::WebSocket { .. } => {
            assert(in_variant_names()[19] == in_name_of(m));
        },
        InMapConfigV::Quic(_) => {
            assert(in_variant_names()[20] == in_name_of(m));
        },
        InMapConfigV::Stack => {
            assert(in_variant_names()[21] == in_name_of(m));
        },
        InMapConfigV::StackLwip => {
            assert(in_variant_names()[22] == in_name_of(m));
        },
        InMapConfigV::SPE1 { .. } => {
            assert(in_variant_names()[23] == in_name_of(m));
        },
        InMapConfigV::Lua { .. } => {
            assert(in_variant_names()[24] == in_name_of(m));
        },
        InMapConfigV::MITM(_) => {
            assert(in_variant_names()[25] == in_name_of(m));
        },
        InMapConfigV::Embedder { .. } => {
            assert(in_variant_names()[26] == in_name_of(m));
        },
    }
}

/// The catalog holds no duplicate names.
#[verifier::rlimit(80)]
pub proof fn lemma_in_names_distinct()
    ensures
        in_variant_names().no_duplicates(),
{
    reveal_strlit("Echo");
    reveal_strlit("Stdio");
    reveal_strlit("Fileio");
    reveal_strlit("BindDialer");
    reveal_strlit("Listener");
    reveal_strlit("TcpOptListener");
    reveal_strlit("TproxyUdpListener");
    reveal_strlit("TproxyTcpResolver");
    reveal_strlit("Adder");
    reveal_strlit("Counter");
    reveal_strlit("Recorder");
    reveal_strlit("TLS");
    reveal_strlit("NativeTLS");
    reveal_strlit("H2");
    reveal_strlit("Http");
    reveal_strlit("Socks5");
    reveal_strlit("Socks5Http");
    reveal_strlit("Trojan");
    reveal_strlit("HttpFilter");
    reveal_strlit("WebSocket");
    reveal_strlit("Quic");
    reveal_strlit("Stack");
    reveal_strlit("StackLwip");
    reveal_strlit("SPE1");
    reveal_strlit("Lua");
    reveal_strlit("MITM");
    reveal_strlit("Embedder");
    assert(("Echo"@).len() == 4);
    assert(("Stdio"@).len() == 5);
    assert(("Fileio"@).len() == 6);
    assert(("BindDialer"@).len() == 10);
    assert(("Listener"@).len() == 8);
    assert(("TcpOptListener"@).len() == 14);
    assert(("TproxyUdpListener"@).len() == 17);
    assert(("TproxyTcpResolver"@).len() == 17);
    assert(("Adder"@).len() == 5);
    assert(("Counter"@).len() == 7);
    assert(("Recorder"@).len() == 8);
    assert(("TLS"@).len() == 3);
    assert(("NativeTLS"@).len() == 9);
    assert(("H2"@).len() == 2);
    assert(("Http"@).len() == 4);
    assert(("Socks5"@).len() == 6);
    assert(("Socks5Http"@).len() == 10);
    assert(("Trojan"@).len() == 6);
    assert(("HttpFilter"@).len() == 10);
    assert(("WebSocket"@).len() == 9);
    assert(("Quic"@).len() == 4);
    assert(("Stack"@).len() == 5);
    assert(("StackLwip"@).len() == 9);
    assert(("SPE1"@).len() == 4);
    assert(("Lua"@).len() == 3);
    assert(("MITM"@).len() == 4);
    assert(("Embedder"@).len() == 8);
    assert(("Echo"@)[0] == 'E');
    assert(("Http"@)[0] == 'H');
    assert(("Quic"@)[0] == 'Q');
    assert(("SPE1"@)[0] == 'S');
    assert(("MITM"@)[0] == 'M');
    assert(("Stdio"@)[0] == 'S');
    assert(("Adder"@)[0] == 'A');
    assert(("Stdio"@)[2] == 'd');
    assert(("Stack"@)[2] == 'a');
    assert(("Fileio"@)[0] == 'F');
    assert(("Socks5"@)[0] == 'S');
    assert(("Trojan"@)[0] == 'T');
    assert(("BindDialer"@)[0] == 'B');
    assert(("Socks5Http"@)[0] == 'S');
    assert(("HttpFilter"@)[0] == 'H');
    assert(("Listener"@)[0] == 'L');
    assert(("Recorder"@)[0] == 'R');
    assert(("Embedder"@)[0] == 'E');
    assert(("TproxyUdpListener"@)[6] == 'U');
    assert(("TproxyTcpResolver"@)[6] == 'T');
    assert(("Stack"@)[0] == 'S');
    assert(("TLS"@)[0] == 'T');
    assert(("Lua"@)[0] == 'L');
    assert(("NativeTLS"@)[0] == 'N');
    assert(("WebSocket"@)[0] == 'W');
    assert(("StackLwip"@)[0] == 'S');
    assert(in_variant_names().no_duplicates());
}

/// Whether an inbound descriptor is a source-category stage: one that
/// creates a connection or datagram source, as opposed to wrapping an
/// existing one.
pub open spec fn spec_is_source_stage(m: InMapConfigV) -> bool {
    match m {
        InMapConfigV::Echo => false,
        InMapConfigV::Stdio(_) => true,
        InMapConfigV::Fileio(_) => true,
        InMapConfigV::BindDialer(_) => true,
        InMapConfigV::Listener { .. } => true,
        InMapConfigV::TcpOptListener { .. } => true,
        InMapConfigV::TproxyUdpListener { .. } => true,
        InMapConfigV::TproxyTcpResolver(_) => true,
        InMapConfigV::Adder { .. } => false,
        InMapConfigV::Counter => false,
        InMapConfigV::Recorder(_) => false,
        InMapConfigV::TLS(_) => false,
        InMapConfigV::NativeTLS(_) => false,
        InMapConfigV::H2 { .. } => false,
        InMapConfigV::Http(_) => false,
        InMapConfigV::Socks5(_) => false,
        InMapConfigV::Socks5Http(_) => false,
        InMapConfigV::Trojan(_) => false,
        InMapConfigV::HttpFilter { .. } => false,
        InMapConfigV::WebSocket { .. } => false,
        InMapConfigV::Quic(_) => false,
        InMapConfigV::Stack => true,
        InMapConfigV::StackLwip => true,
        InMapConfigV::SPE1 { .. } => false,
        InMapConfigV::Lua { .. } => false,
        InMapConfigV::MITM(_) => false,
        InMapConfigV::Embedder { .. } => false,
    }
}

pub fn is_source_stage(c: &InMapConfig) -> (r: bool)
    ensures
        r == spec_is_source_stage(c.deep_view()),
{
    match c {
        InMapConfig::Echo => false,
        InMapConfig::Stdio(_) => true,
        InMapConfig::Fileio(_) => true,
        InMapConfig::BindDialer(_) => true,
        InMapConfig::Listener { .. } => true,
        InMapConfig::TcpOptListener { .. } => true,
        InMapConfig::TproxyUdpListener { .. } => true,
        InMapConfig::TproxyTcpResolver(_) => true,
        InMapConfig::Adder { .. } => false,
        InMapConfig::Counter => false,
        InMapConfig::Recorder(_) => false,
        InMapConfig::TLS(_) => false,
        InMapConfig::NativeTLS(_) => false,
        InMapConfig::H2 { .. } => false,
        InMapConfig::Http(_) => false,
        InMapConfig::Socks5(_) => false,
        InMapConfig::Socks5Http(_) => false,
        InMapConfig::Trojan(_) => false,
        InMapConfig::HttpFilter { .. } => false,
        InMapConfig::WebSocket { .. } => false,
        InMapConfig::Quic(_) => false,
        InMapConfig::Stack => true,
        InMapConfig::StackLwip => true,
        InMapConfig::SPE1 { .. } => false,
        InMapConfig::Lua { .. } => false,
        InMapConfig::MITM(_) => false,
        InMapConfig::Embedder { .. } => false,
    }
}

/// The round-trip law at the document-value level: an encoded inbound
/// descriptor decodes back to itself.
pub proof fn lemma_rt_in_val(m: InMapConfigV)
    ensures
        dec_in_val(SpecValue::Obj(enc_in(m))) == Ok::<_, ErrV>(m),
{
    lemma_rt_in(m);
}

/// Encoding is injective: two inbound descriptors with the same document
/// are the same descriptor.
pub proof fn lemma_enc_in_injective(a: InMapConfigV, b: InMapConfigV)
    requires
        enc_in(a) == enc_in(b),
    ensures
        a == b,
{
    lemma_rt_in(a);
    lemma_rt_in(b);
}

} // verus!
