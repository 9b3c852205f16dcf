//! The outbound mapper descriptor: one variant per outbound stage behavior.
//!
//! The two HTTP/2 client variants stay distinct: `H2Single` opens one
//! underlying connection per logical stream, `H2Mux` multiplexes many
//! logical streams over one connection.

use vstd::prelude::*;

use crate::doc::{obj_view, val_view, SpecValue, Value};
use crate::fields::{
    dres, mism, unknown, mism_at, unknown_at, d_req_str, d_bool, d_req_i8, d_pair_list,
    pf_req_str, pf_bool, pf_int, pf_pair_list, put_req_str, put_bool, put_int,
    put_pair_list, put_lit_str, str_is, d_req_str_x, d_bool_x, d_i8_x, d_pair_list_x,
    DecodeErr, ErrV,
};
use crate::codec::{
    lemma_pairs_rt, enc_direct, dec_direct, encode_direct_into, decode_direct,
    lemma_rt_direct, enc_stdio, dec_stdio, encode_stdio_into, decode_stdio,
    lemma_rt_stdio, enc_file, dec_file, encode_file_into, decode_file, lemma_rt_file,
    enc_bind_dialer, dec_bind_dialer, encode_bind_dialer_into, decode_bind_dialer,
    lemma_rt_bind_dialer, enc_recorder, dec_recorder, encode_recorder_into,
    decode_recorder, lemma_rt_recorder, enc_tls_client, dec_tls_client,
    encode_tls_client_into, decode_tls_client, lemma_rt_tls_client, enc_opt_dialer,
    dec_opt_dialer, encode_opt_dialer_into, decode_opt_dialer, lemma_rt_opt_dialer,
    enc_socks5_out, dec_socks5_out, encode_socks5_out_into, decode_socks5_out,
    lemma_rt_socks5_out, enc_trojan_client, dec_trojan_client, encode_trojan_client_into,
    decode_trojan_client, lemma_rt_trojan_client, enc_common, dec_common,
    encode_common_into, decode_common, lemma_rt_common, enc_quic_client, dec_quic_client,
    encode_quic_client_into, decode_quic_client, lemma_rt_quic_client, d_opt_common,
    pf_opt_common, put_opt_common, d_opt_common_x, d_opt_dns, pf_opt_dns, put_opt_dns,
    d_opt_dns_x, lemma_rt_dns, d_req_sockopt, pf_req_sockopt, put_req_sockopt,
    d_req_sockopt_x, lemma_rt_sockopt,
};
use crate::types::{
    CommonConfig, CommonConfigV, SockOpt, SockOptV, DnsClientConfig, DnsClientConfigV,
    DirectConfig, DirectConfigV, StdioConfig, StdioConfigV, FileConfig, FileConfigV,
    BindDialerConfig, BindDialerConfigV, RecorderConfig, RecorderConfigV,
    TlsClientOptions, TlsClientOptionsV, OptDialerOption, OptDialerOptionV, Socks5Out,
    Socks5OutV, TrojanClientConfig, TrojanClientConfigV, QuicClientConfig,
    QuicClientConfigV,
};

verus! {

#[derive(Debug, Clone, PartialEq)]
pub enum OutMapConfig {
    Blackhole,
    Direct(DirectConfig),
    Stdio(StdioConfig),
    Fileio(FileConfig),
    BindDialer(Box<BindDialerConfig>),
    Adder { value: i8 },
    Counter,
    Recorder(RecorderConfig),
    TLS(TlsClientOptions),
    OptDirect { sockopt: SockOpt, more_num_of_files: bool, dns_client: Option<DnsClientConfig> },
    OptDialer(OptDialerOption),
    NativeTLS(TlsClientOptions),
    Http,
    Socks5(Socks5Out),
    Trojan(TrojanClientConfig),
    WebSocket(CommonConfig),
    H2Single { is_grpc: bool, http_config: Option<CommonConfig> },
    H2Mux { is_grpc: bool, http_config: Option<CommonConfig> },
    Quic(QuicClientConfig),
    SPE1 { qa: Vec<(String, String)> },
    Lua { file_name: String, handshake_function: String },
    Embedder { file_name: String },
}

pub enum OutMapConfigV {
    Blackhole,
    Direct(DirectConfigV),
    Stdio(StdioConfigV),
    Fileio(FileConfigV),
    BindDialer(BindDialerConfigV),
    Adder { value: i8 },
    Counter,
    Recorder(RecorderConfigV),
    TLS(TlsClientOptionsV),
    OptDirect { sockopt: SockOptV, more_num_of_files: bool, dns_client: Option<DnsClientConfigV> },
    OptDialer(OptDialerOptionV),
    NativeTLS(TlsClientOptionsV),
    Http,
    Socks5(Socks5OutV),
    Trojan(TrojanClientConfigV),
    WebSocket(CommonConfigV),
    H2Single { is_grpc: bool, http_config: Option<CommonConfigV> },
    H2Mux { is_grpc: bool, http_config: Option<CommonConfigV> },
    Quic(QuicClientConfigV),
    SPE1 { qa: Seq<(Seq<char>, Seq<char>)> },
    Lua { file_name: Seq<char>, handshake_function: Seq<char> },
    Embedder { file_name: Seq<char> },
}

impl DeepView for OutMapConfig {
    type V = OutMapConfigV;

    open spec fn deep_view(&self) -> OutMapConfigV {
        match self {
                OutMapConfig::Blackhole => OutMapConfigV::Blackhole,
                OutMapConfig::Direct(c) => OutMapConfigV::Direct(c.deep_view()),
                OutMapConfig::Stdio(c) => OutMapConfigV::Stdio(c.deep_view()),
                OutMapConfig::Fileio(c) => OutMapConfigV::Fileio(c.deep_view()),
                OutMapConfig::BindDialer(c) => OutMapConfigV::BindDialer(c.deep_view()),
                OutMapConfig::Adder { value } => OutMapConfigV::Adder { value: *value },
                OutMapConfig::Counter => OutMapConfigV::Counter,
                OutMapConfig::Recorder(c) => OutMapConfigV::Recorder(c.deep_view()),
                OutMapConfig::TLS(c) => OutMapConfigV::TLS(c.deep_view()),
                OutMapConfig::OptDirect { sockopt, more_num_of_files, dns_client } => OutMapConfigV::OptDirect { sockopt: sockopt.deep_view(), more_num_of_files: *more_num_of_files, dns_client: dns_client.deep_view() },
                OutMapConfig::OptDialer(c) => OutMapConfigV::OptDialer(c.deep_view()),
                OutMapConfig::NativeTLS(c) => OutMapConfigV::NativeTLS(c.deep_view()),
                OutMapConfig::Http => OutMapConfigV::Http,
                OutMapConfig::Socks5(c) => OutMapConfigV::Socks5(c.deep_view()),
                OutMapConfig::Trojan(c) => OutMapConfigV::Trojan(c.deep_view()),
                OutMapConfig::WebSocket(c) => OutMapConfigV::WebSocket(c.deep_view()),
                OutMapConfig::H2Single { is_grpc, http_config } => OutMapConfigV::H2Single { is_grpc: *is_grpc, http_config: http_config.deep_view() },
                OutMapConfig::H2Mux { is_grpc, http_config } => OutMapConfigV::H2Mux { is_grpc: *is_grpc, http_config: http_config.deep_view() },
                OutMapConfig::Quic(c) => OutMapConfigV::Quic(c.deep_view()),
                OutMapConfig::SPE1 { qa } => OutMapConfigV::SPE1 { qa: qa.deep_view() },
                OutMapConfig::Lua { file_name, handshake_function } => OutMapConfigV::Lua { file_name: file_name.deep_view(), handshake_function: handshake_function.deep_view() },
                OutMapConfig::Embedder { file_name } => OutMapConfigV::Embedder { file_name: file_name.deep_view() },
        }
    }
}

pub open spec fn enc_out(m: OutMapConfigV) -> Map<Seq<char>, SpecValue> {
    match m {
        OutMapConfigV::Blackhole => crate::inbound::tbase("Blackhole"@),
        OutMapConfigV::Direct(c) => enc_direct(c, crate::inbound::tbase("Direct"@)),
        OutMapConfigV::Stdio(c) => enc_stdio(c, crate::inbound::tbase("Stdio"@)),
        OutMapConfigV::Fileio(c) => enc_file(c, crate::inbound::tbase("Fileio"@)),
        OutMapConfigV::BindDialer(c) => enc_bind_dialer(c, crate::inbound::tbase("BindDialer"@)),
        OutMapConfigV::Adder { value } => pf_int(crate::inbound::tbase("Adder"@), "value"@, value as i128),
        OutMapConfigV::Counter => crate::inbound::tbase("Counter"@),
        OutMapConfigV::Recorder(c) => enc_recorder(c, crate::inbound::tbase("Recorder"@)),
        OutMapConfigV::TLS(c) => enc_tls_client(c, crate::inbound::tbase("TLS"@)),
        OutMapConfigV::OptDirect { sockopt, more_num_of_files, dns_client } => pf_opt_dns(pf_bool(pf_req_sockopt(crate::inbound::tbase("OptDirect"@), "sockopt"@, sockopt), "more_num_of_files"@, more_num_of_files), "dns_client"@, dns_client),
        OutMapConfigV::OptDialer(c) => enc_opt_dialer(c, crate::inbound::tbase("OptDialer"@)),
        OutMapConfigV::NativeTLS(c) => enc_tls_client(c, crate::inbound::tbase("NativeTLS"@)),
        OutMapConfigV::Http => crate::inbound::tbase("Http"@),
        OutMapConfigV::Socks5(c) => enc_socks5_out(c, crate::inbound::tbase("Socks5"@)),
        OutMapConfigV::Trojan(c) => enc_trojan_client(c, crate::inbound::tbase("Trojan"@)),
        OutMapConfigV::WebSocket(c) => enc_common(c, crate::inbound::tbase("WebSocket"@)),
        OutMapConfigV::H2Single { is_grpc, http_config } => pf_opt_common(pf_bool(crate::inbound::tbase("H2Single"@), "is_grpc"@, is_grpc), "http_config"@, http_config),
        OutMapConfigV::H2Mux { is_grpc, http_config } => pf_opt_common(pf_bool(crate::inbound::tbase("H2Mux"@), "is_grpc"@, is_grpc), "http_config"@, http_config),
        OutMapConfigV::Quic(c) => enc_quic_client(c, crate::inbound::tbase("Quic"@)),
        OutMapConfigV::SPE1 { qa } => pf_pair_list(crate::inbound::tbase("SPE1"@), "qa"@, qa),
        OutMapConfigV::Lua { file_name, handshake_function } => pf_req_str(pf_req_str(crate::inbound::tbase("Lua"@), "file_name"@, file_name), "handshake_function"@, handshake_function),
        OutMapConfigV::Embedder { file_name } => pf_req_str(crate::inbound::tbase("Embedder"@), "file_name"@, file_name),
    }
}

pub open spec fn dec_out_adder(m: Map<Seq<char>, SpecValue>) -> Result<OutMapConfigV, ErrV> {
    let r_value = d_req_i8(m, "value"@);
    if r_value is Err {
        Err(r_value->Err_0)
    } else {
        Ok(OutMapConfigV::Adder { value: r_value->Ok_0 })
    }
}

pub open spec fn dec_out_optdirect(m: Map<Seq<char>, SpecValue>) -> Result<OutMapConfigV, ErrV> {
    let r_sockopt = d_req_sockopt(m, "sockopt"@);
    let r_more_num_of_files = d_bool(m, "more_num_of_files"@);
    let r_dns_client = d_opt_dns(m, "dns_client"@);
    if r_sockopt is Err {
        Err(r_sockopt->Err_0)
    } else if r_more_num_of_files is Err {
        Err(r_more_num_of_files->Err_0)
    } else if r_dns_client is Err {
        Err(r_dns_client->Err_0)
    } else {
        Ok(OutMapConfigV::OptDirect { sockopt: r_sockopt->Ok_0, more_num_of_files: r_more_num_of_files->Ok_0, dns_client: r_dns_client->Ok_0 })
    }
}

pub open spec fn dec_out_h2single(m: Map<Seq<char>, SpecValue>) -> Result<OutMapConfigV, ErrV> {
    let r_is_grpc = d_bool(m, "is_grpc"@);
    let r_http_config = d_opt_common(m, "http_config"@);
    if r_is_grpc is Err {
        Err(r_is_grpc->Err_0)
    } else if r_http_config is Err {
        Err(r_http_config->Err_0)
    } else {
        Ok(OutMapConfigV::H2Single { is_grpc: r_is_grpc->Ok_0, http_config: r_http_config->Ok_0 })
    }
}

pub open spec fn dec_out_h2mux(m: Map<Seq<char>, SpecValue>) -> Result<OutMapConfigV, ErrV> {
    let r_is_grpc = d_bool(m, "is_grpc"@);
    let r_http_config = d_opt_common(m, "http_config"@);
    if r_is_grpc is Err {
        Err(r_is_grpc->Err_0)
    } else if r_http_config is Err {
        Err(r_http_config->Err_0)
    } else {
        Ok(OutMapConfigV::H2Mux { is_grpc: r_is_grpc->Ok_0, http_config: r_http_config->Ok_0 })
    }
}

pub open spec fn dec_out_spe1(m: Map<Seq<char>, SpecValue>) -> Result<OutMapConfigV, ErrV> {
    let r_qa = d_pair_list(m, "qa"@);
    if r_qa is Err {
        Err(r_qa->Err_0)
    } else {
        Ok(OutMapConfigV::SPE1 { qa: r_qa->Ok_0 })
    }
}

pub open spec fn dec_out_lua(m: Map<Seq<char>, SpecValue>) -> Result<OutMapConfigV, ErrV> {
    let r_file_name = d_req_str(m, "file_name"@);
    let r_handshake_function = d_req_str(m, "handshake_function"@);
    if r_file_name is Err {
        Err(r_file_name->Err_0)
    } else if r_handshake_function is Err {
        Err(r_handshake_function->Err_0)
    } else {
        Ok(OutMapConfigV::Lua { file_name: r_file_name->Ok_0, handshake_function: r_handshake_function->Ok_0 })
    }
}

pub open spec fn dec_out_embedder(m: Map<Seq<char>, SpecValue>) -> Result<OutMapConfigV, ErrV> {
    let r_file_name = d_req_str(m, "file_name"@);
    if r_file_name is Err {
        Err(r_file_name->Err_0)
    } else {
        Ok(OutMapConfigV::Embedder { file_name: r_file_name->Ok_0 })
    }
}

pub open spec fn dec_out(m: Map<Seq<char>, SpecValue>) -> Result<OutMapConfigV, ErrV> {
    let rt = d_req_str(m, "type"@);
    if rt is Err {
        Err(rt->Err_0)
    } else {
        let t = rt->Ok_0;
        if t == "Blackhole"@ {
            Ok(OutMapConfigV::Blackhole)
        } else if t == "Direct"@ {
            match dec_direct(m) {
                Ok(c) => Ok(OutMapConfigV::Direct(c)),
                Err(e) => Err(e),
            }
        } else if t == "Stdio"@ {
            match dec_stdio(m) {
                Ok(c) => Ok(OutMapConfigV::Stdio(c)),
                Err(e) => Err(e),
            }
        } else if t == "Fileio"@ {
            match dec_file(m) {
                Ok(c) => Ok(OutMapConfigV::Fileio(c)),
                Err(e) => Err(e),
            }
        } else if t == "BindDialer"@ {
            match dec_bind_dialer(m) {
                Ok(c) => Ok(OutMapConfigV::BindDialer(c)),
                Err(e) => Err(e),
            }
        } else if t == "Adder"@ {
            dec_out_adder(m)
        } else if t == "Counter"@ {
            Ok(OutMapConfigV::Counter)
        } else if t == "Recorder"@ {
            match dec_recorder(m) {
                Ok(c) => Ok(OutMapConfigV::Recorder(c)),
                Err(e) => Err(e),
            }
        } else if t == "TLS"@ {
            match dec_tls_client(m) {
                Ok(c) => Ok(OutMapConfigV::TLS(c)),
                Err(e) => Err(e),
            }
        } else if t == "OptDirect"@ {
            dec_out_optdirect(m)
        } else if t == "OptDialer"@ {
            match dec_opt_dialer(m) {
                Ok(c) => Ok(OutMapConfigV::OptDialer(c)),
                Err(e) => Err(e),
            }
        } else if t == "NativeTLS"@ {
            match dec_tls_client(m) {
                Ok(c) => Ok(OutMapConfigV::NativeTLS(c)),
                Err(e) => Err(e),
            }
        } else if t == "Http"@ {
            Ok(OutMapConfigV::Http)
        } else if t == "Socks5"@ {
            match dec_socks5_out(m) {
                Ok(c) => Ok(OutMapConfigV::Socks5(c)),
                Err(e) => Err(e),
            }
        } else if t == "Trojan"@ {
            match dec_trojan_client(m) {
                Ok(c) => Ok(OutMapConfigV::Trojan(c)),
                Err(e) => Err(e),
            }
        } else if t == "WebSocket"@ {
            match dec_common(m) {
                Ok(c) => Ok(OutMapConfigV::WebSocket(c)),
                Err(e) => Err(e),
            }
        } else if t == "H2Single"@ {
            dec_out_h2single(m)
        } else if t == "H2Mux"@ {
            dec_out_h2mux(m)
        } else if t == "Quic"@ {
            match dec_quic_client(m) {
                Ok(c) => Ok(OutMapConfigV::Quic(c)),
                Err(e) => Err(e),
            }
        } else if t == "SPE1"@ {
            dec_out_spe1(m)
        } else if t == "Lua"@ {
            dec_out_lua(m)
        } else if t == "Embedder"@ {
            dec_out_embedder(m)
        } else {
            Err(unknown(t))
        }
    }
}

/// Meaning of decoding a whole stage value: it must be an object.
pub open spec fn dec_out_val(v: SpecValue) -> Result<OutMapConfigV, ErrV> {
    match v {
        SpecValue::Obj(m) => dec_out(m),
        _ => Err(mism("stage"@)),
    }
}

/// Encodes one stage descriptor as a tagged object: the `"type"` field
/// holds the variant name and the remaining fields hold its parameters,
/// with fields at their defaults left out.
pub fn encode_out(c: &OutMapConfig) -> (v: Value)
    ensures
        val_view(v) == SpecValue::Obj(enc_out(c.deep_view())),
{
    let mut out: Vec<(String, Value)> = Vec::new();
    proof {
        assert(obj_view(out@) == Map::<Seq<char>, SpecValue>::empty());
    }
    match c {
        OutMapConfig::Blackhole => {
            put_lit_str(&mut out, "type", "Blackhole");
        },
        OutMapConfig::Direct(p) => {
            put_lit_str(&mut out, "type", "Direct");
            encode_direct_into(&mut out, p);
        },
        OutMapConfig::Stdio(p) => {
            put_lit_str(&mut out, "type", "Stdio");
            encode_stdio_into(&mut out, p);
        },
        OutMapConfig::Fileio(p) => {
            put_lit_str(&mut out, "type", "Fileio");
            encode_file_into(&mut out, p);
        },
        OutMapConfig::BindDialer(p) => {
            put_lit_str(&mut out, "type", "BindDialer");
            encode_bind_dialer_into(&mut out, p);
        },
        OutMapConfig::Adder { value } => {
            put_lit_str(&mut out, "type", "Adder");
            put_int(&mut out, "value", *value as i128);
        },
        OutMapConfig::Counter => {
            put_lit_str(&mut out, "type", "Counter");
        },
        OutMapConfig::Recorder(p) => {
            put_lit_str(&mut out, "type", "Recorder");
            encode_recorder_into(&mut out, p);
        },
        OutMapConfig::TLS(p) => {
            put_lit_str(&mut out, "type", "TLS");
            encode_tls_client_into(&mut out, p);
        },
        OutMapConfig::OptDirect { sockopt, more_num_of_files, dns_client } => {
            put_lit_str(&mut out, "type", "OptDirect");
            put_req_sockopt(&mut out, "sockopt", sockopt);
            put_bool(&mut out, "more_num_of_files", *more_num_of_files);
            put_opt_dns(&mut out, "dns_client", dns_client);
        },
        OutMapConfig::OptDialer(p) => {
            put_lit_str(&mut out, "type", "OptDialer");
            encode_opt_dialer_into(&mut out, p);
        },
        OutMapConfig::NativeTLS(p) => {
            put_lit_str(&mut out, "type", "NativeTLS");
            encode_tls_client_into(&mut out, p);
        },
        OutMapConfig::Http => {
            put_lit_str(&mut out, "type", "Http");
        },
        OutMapConfig::Socks5(p) => {
            put_lit_str(&mut out, "type", "Socks5");
            encode_socks5_out_into(&mut out, p);
        },
        OutMapConfig::Trojan(p) => {
            put_lit_str(&mut out, "type", "Trojan");
            encode_trojan_client_into(&mut out, p);
        },
        OutMapConfig::WebSocket(p) => {
            put_lit_str(&mut out, "type", "WebSocket");
            encode_common_into(&mut out, p);
        },
        OutMapConfig::H2Single { is_grpc, http_config } => {
            put_lit_str(&mut out, "type", "H2Single");
            put_bool(&mut out, "is_grpc", *is_grpc);
            put_opt_common(&mut out, "http_config", http_config);
        },
        OutMapConfig::H2Mux { is_grpc, http_config } => {
            put_lit_str(&mut out, "type", "H2Mux");
            put_bool(&mut out, "is_grpc", *is_grpc);
            put_opt_common(&mut out, "http_config", http_config);
        },
        OutMapConfig::Quic(p) => {
            put_lit_str(&mut out, "type", "Quic");
            encode_quic_client_into(&mut out, p);
        },
        OutMapConfig::SPE1 { qa } => {
            put_lit_str(&mut out, "type", "SPE1");
            put_pair_list(&mut out, "qa", qa);
        },
        OutMapConfig::Lua { file_name, handshake_function } => {
            put_lit_str(&mut out, "type", "Lua");
            put_req_str(&mut out, "file_name", file_name);
            put_req_str(&mut out, "handshake_function", handshake_function);
        },
        OutMapConfig::Embedder { file_name } => {
            put_lit_str(&mut out, "type", "Embedder");
            put_req_str(&mut out, "file_name", file_name);
        },
    }
    Value::Obj(out)
}

/// Decodes one stage descriptor from the fields of a tagged object.
#[verifier::rlimit(100)]
#[verifier::spinoff_prover]
fn decode_out_adder(f: &Vec<(String, Value)>) -> (r: Result<OutMapConfig, DecodeErr>)
    ensures
        dres(r) == dec_out_adder(obj_view(f@)),
{
    let x_value = match d_i8_x(f, "value") {
        Ok(v) => v,
        Err(e) => return Err(e),
    };
    Ok(OutMapConfig::Adder { value: x_value })
}

fn decode_out_optdirect(f: &Vec<(String, Value)>) -> (r: Result<OutMapConfig, DecodeErr>)
    ensures
        dres(r) == dec_out_optdirect(obj_view(f@)),
{
    let x_sockopt = match d_req_sockopt_x(f, "sockopt") {
        Ok(v) => v,
        Err(e) => return Err(e),
    };
    let x_more_num_of_files = match d_bool_x(f, "more_num_of_files") {
        Ok(v) => v,
        Err(e) => return Err(e),
    };
    let x_dns_client = match d_opt_dns_x(f, "dns_client") {
        Ok(v) => v,
        Err(e) => return Err(e),
    };
    Ok(OutMapConfig::OptDirect { sockopt: x_sockopt, more_num_of_files: x_more_num_of_files, dns_client: x_dns_client })
}

fn decode_out_h2single(f: &Vec<(String, Value)>) -> (r: Result<OutMapConfig, DecodeErr>)
    ensures
        dres(r) == dec_out_h2single(obj_view(f@)),
{
    let x_is_grpc = match d_bool_x(f, "is_grpc") {
        Ok(v) => v,
        Err(e) => return Err(e),
    };
    let x_http_config = match d_opt_common_x(f, "http_config") {
        Ok(v) => v,
        Err(e) => return Err(e),
    };
    Ok(OutMapConfig::H2Single { is_grpc: x_is_grpc, http_config: x_http_config })
}

fn decode_out_h2mux(f: &Vec<(String, Value)>) -> (r: Result<OutMapConfig, DecodeErr>)
    ensures
        dres(r) == dec_out_h2mux(obj_view(f@)),
{
    let x_is_grpc = match d_bool_x(f, "is_grpc") {
        Ok(v) => v,
        Err(e) => return Err(e),
    };
    let x_http_config = match d_opt_common_x(f, "http_config") {
        Ok(v) => v,
        Err(e) => return Err(e),
    };
    Ok(OutMapConfig::H2Mux { is_grpc: x_is_grpc, http_config: x_http_config })
}

fn decode_out_spe1(f: &Vec<(String, Value)>) -> (r: Result<OutMapConfig, DecodeErr>)
    ensures
        dres(r) == dec_out_spe1(obj_view(f@)),
{
    let x_qa = match d_pair_list_x(f, "qa") {
        Ok(v) => v,
        Err(e) => return Err(e),
    };
    Ok(OutMapConfig::SPE1 { qa: x_qa })
}

fn decode_out_lua(f: &Vec<(String, Value)>) -> (r: Result<OutMapConfig, DecodeErr>)
    ensures
        dres(r) == dec_out_lua(obj_view(f@)),
{
    let x_file_name = match d_req_str_x(f, "file_name") {
        Ok(v) => v,
        Err(e) => return Err(e),
    };
    let x_handshake_function = match d_req_str_x(f, "handshake_function") {
        Ok(v) => v,
        Err(e) => return Err(e),
    };
    Ok(OutMapConfig::Lua { file_name: x_file_name, handshake_function: x_handshake_function })
}

fn decode_out_embedder(f: &Vec<(String, Value)>) -> (r: Result<OutMapConfig, DecodeErr>)
    ensures
        dres(r) == dec_out_embedder(obj_view(f@)),
{
    let x_file_name = match d_req_str_x(f, "file_name") {
        Ok(v) => v,
        Err(e) => return Err(e),
    };
    Ok(OutMapConfig::Embedder { file_name: x_file_name })
}

pub fn decode_out_obj(f: &Vec<(String, Value)>) -> (r: Result<OutMapConfig, DecodeErr>)
    ensures
        dres(r) == dec_out(obj_view(f@)),
{
    let t = match d_req_str_x(f, "type") {
        Ok(v) => v,
        Err(e) => return Err(e),
    };
    if str_is(&t, "Blackhole") {
            Ok(OutMapConfig::Blackhole)
        } else if str_is(&t, "Direct") {
            match decode_direct(f) {
                Ok(c) => Ok(OutMapConfig::Direct(c)),
                Err(e) => Err(e),
            }
        } else if str_is(&t, "Stdio") {
            match decode_stdio(f) {
                Ok(c) => Ok(OutMapConfig::Stdio(c)),
                Err(e) => Err(e),
            }
        } else if str_is(&t, "Fileio") {
            match decode_file(f) {
                Ok(c) => Ok(OutMapConfig::Fileio(c)),
                Err(e) => Err(e),
            }
        } else if str_is(&t, "BindDialer") {
            match decode_bind_dialer(f) {
                Ok(c) => Ok(OutMapConfig::BindDialer(Box::new(c))),
                Err(e) => Err(e),
            }
        } else if str_is(&t, "Adder") {
            decode_out_adder(f)
        } else if str_is(&t, "Counter") {
            Ok(OutMapConfig::Counter)
        } else if str_is(&t, "Recorder") {
            match decode_recorder(f) {
                Ok(c) => Ok(OutMapConfig::Recorder(c)),
                Err(e) => Err(e),
            }
        } else if str_is(&t, "TLS") {
            match decode_tls_client(f) {
                Ok(c) => Ok(OutMapConfig::TLS(c)),
                Err(e) => Err(e),
            }
        } else if str_is(&t, "OptDirect") {
            decode_out_optdirect(f)
        } else if str_is(&t, "OptDialer") {
            match decode_opt_dialer(f) {
                Ok(c) => Ok(OutMapConfig::OptDialer(c)),
                Err(e) => Err(e),
            }
        } else if str_is(&t, "NativeTLS") {
            match decode_tls_client(f) {
                Ok(c) => Ok(OutMapConfig::NativeTLS(c)),
                Err(e) => Err(e),
            }
        } else if str_is(&t, "Http") {
            Ok(OutMapConfig::Http)
        } else if str_is(&t, "Socks5") {
            match decode_socks5_out(f) {
                Ok(c) => Ok(OutMapConfig::Socks5(c)),
                Err(e) => Err(e),
            }
        } else if str_is(&t, "Trojan") {
            match decode_trojan_client(f) {
                Ok(c) => Ok(OutMapConfig::Trojan(c)),
                Err(e) => Err(e),
            }
        } else if str_is(&t, "WebSocket") {
            match decode_common(f) {
                Ok(c) => Ok(OutMapConfig::WebSocket(c)),
                Err(e) => Err(e),
            }
        } else if str_is(&t, "H2Single") {
            decode_out_h2single(f)
        } else if str_is(&t, "H2Mux") {
            decode_out_h2mux(f)
        } else if str_is(&t, "Quic") {
            match decode_quic_client(f) {
                Ok(c) => Ok(OutMapConfig::Quic(c)),
                Err(e) => Err(e),
            }
        } else if str_is(&t, "SPE1") {
            decode_out_spe1(f)
        } else if str_is(&t, "Lua") {
            decode_out_lua(f)
        } else if str_is(&t, "Embedder") {
            decode_out_embedder(f)
        } else {
            Err(unknown_at(&t))
        }
}

/// Decodes one stage descriptor from a document value.
pub fn decode_out(v: &Value) -> (r: Result<OutMapConfig, DecodeErr>)
    ensures
        dres(r) == dec_out_val(val_view(*v)),
{
    match v {
        Value::Obj(f) => decode_out_obj(f),
        _ => Err(mism_at("stage")),
    }
}

/// The round-trip law: decoding an encoded stage descriptor yields the
/// descriptor itself, for every declared variant.
#[verifier::rlimit(80)]
pub proof fn lemma_rt_out(m: OutMapConfigV)
    ensures
        dec_out(enc_out(m)) == Ok::<_, ErrV>(m),
{
    reveal_strlit("type");
    reveal_strlit("Blackhole");
    reveal_strlit("Direct");
    reveal_strlit("Stdio");
    reveal_strlit("Fileio");
    reveal_strlit("BindDialer");
    reveal_strlit("Adder");
    reveal_strlit("Counter");
    reveal_strlit("Recorder");
    reveal_strlit("TLS");
    reveal_strlit("OptDirect");
    reveal_strlit("OptDialer");
    reveal_strlit("NativeTLS");
    reveal_strlit("Http");
    reveal_strlit("Socks5");
    reveal_strlit("Trojan");
    reveal_strlit("WebSocket");
    reveal_strlit("H2Single");
    reveal_strlit("H2Mux");
    reveal_strlit("Quic");
    reveal_strlit("SPE1");
    reveal_strlit("Lua");
    reveal_strlit("Embedder");
    reveal_strlit("value");
    reveal_strlit("sockopt");
    reveal_strlit("more_num_of_files");
    reveal_strlit("dns_client");
    reveal_strlit("is_grpc");
    reveal_strlit("http_config");
    reveal_strlit("qa");
    reveal_strlit("file_name");
    reveal_strlit("handshake_function");
    assert(("type"@).len() == 4);
    assert(("Blackhole"@).len() == 9);
    assert(("Direct"@).len() == 6);
    assert(("Stdio"@).len() == 5);
    assert(("Fileio"@).len() == 6);
    assert(("BindDialer"@).len() == 10);
    assert(("Adder"@).len() == 5);
    assert(("Counter"@).len() == 7);
    assert(("Recorder"@).len() == 8);
    assert(("TLS"@).len() == 3);
    assert(("OptDirect"@).len() == 9);
    assert(("OptDialer"@).len() == 9);
    assert(("NativeTLS"@).len() == 9);
    assert(("Http"@).len() == 4);
    assert(("Socks5"@).len() == 6);
    assert(("Trojan"@).len() == 6);
    assert(("WebSocket"@).len() == 9);
    assert(("H2Single"@).len() == 8);
    assert(("H2Mux"@).len() == 5);
    assert(("Quic"@).len() == 4);
    assert(("SPE1"@).len() == 4);
    assert(("Lua"@).len() == 3);
    assert(("Embedder"@).len() == 8);
    assert(("value"@).len() == 5);
    assert(("sockopt"@).len() == 7);
    assert(("more_num_of_files"@).len() == 17);
    assert(("dns_client"@).len() == 10);
    assert(("is_grpc"@).len() == 7);
    assert(("http_config"@).len() == 11);
    assert(("qa"@).len() == 2);
    assert(("file_name"@).len() == 9);
    assert(("handshake_function"@).len() == 18);
    assert(("type"@)[0] == 't');
    assert(("Http"@)[0] == 'H');
    assert(("Quic"@)[0] == 'Q');
    assert(("SPE1"@)[0] == 'S');
    assert(("Blackhole"@)[0] == 'B');
    assert(("OptDirect"@)[0] == 'O');
    assert(("OptDialer"@)[0] == 'O');
    assert(("NativeTLS"@)[0] == 'N');
    assert(("WebSocket"@)[0] == 'W');
    assert(("file_name"@)[0] == 'f');
    assert(("Direct"@)[0] == 'D');
    assert(("Fileio"@)[0] == 'F');
    assert(("Socks5"@)[0] == 'S');
    assert(("Trojan"@)[0] == 'T');
    assert(("Stdio"@)[0] == 'S');
    assert(("Adder"@)[0] == 'A');
    assert(("H2Mux"@)[0] == 'H');
    assert(("value"@)[0] == 'v');
    assert(("BindDialer"@)[0] == 'B');
    assert(("dns_client"@)[0] == 'd');
    assert(("Counter"@)[0] == 'C');
    assert(("sockopt"@)[0] == 's');
    assert(("is_grpc"@)[0] == 'i');
    assert(("Recorder"@)[0] == 'R');
    assert(("H2Single"@)[0] == 'H');
    assert(("Embedder"@)[0] == 'E');
    assert(("TLS"@)[0] == 'T');
    assert(("Lua"@)[0] == 'L');
    assert(("OptDirect"@)[5] == 'r');
    assert(("OptDialer"@)[5] == 'a');
    match m {
        OutMapConfigV::Blackhole => {},
        OutMapConfigV::Direct(c) => {
            lemma_rt_direct(c, crate::inbound::tbase("Direct"@));
        },
        OutMapConfigV::Stdio(c) => {
            lemma_rt_stdio(c, crate::inbound::tbase("Stdio"@));
        },
        OutMapConfigV::Fileio(c) => {
            lemma_rt_file(c, crate::inbound::tbase("Fileio"@));
        },
        OutMapConfigV::BindDialer(c) => {
            lemma_rt_bind_dialer(c, crate::inbound::tbase("BindDialer"@));
        },
        OutMapConfigV::Adder { value } => {
        
        },
        OutMapConfigV::Counter => {},
        OutMapConfigV::Recorder(c) => {
            lemma_rt_recorder(c, crate::inbound::tbase("Recorder"@));
        },
        OutMapConfigV::TLS(c) => {
            lemma_rt_tls_client(c, crate::inbound::tbase("TLS"@));
        },
        OutMapConfigV::OptDirect { sockopt, more_num_of_files, dns_client } => {
            lemma_rt_sockopt(sockopt, Map::empty());
            match dns_client {
                Some(e) => lemma_rt_dns(e, Map::empty()),
                None => (),
            }
        },
        OutMapConfigV::OptDialer(c) => {
            lemma_rt_opt_dialer(c, crate::inbound::tbase("OptDialer"@));
        },
        OutMapConfigV::NativeTLS(c) => {
            lemma_rt_tls_client(c, crate::inbound::tbase("NativeTLS"@));
        },
        OutMapConfigV::Http => {},
        OutMapConfigV::Socks5(c) => {
            lemma_rt_socks5_out(c, crate::inbound::tbase("Socks5"@));
        },
        OutMapConfigV::Trojan(c) => {
            lemma_rt_trojan_client(c, crate::inbound::tbase("Trojan"@));
        },
        OutMapConfigV::WebSocket(c) => {
            lemma_rt_common(c, crate::inbound::tbase("WebSocket"@));
        },
        OutMapConfigV::H2Single { is_grpc, http_config } => {
            match http_config {
                Some(e) => lemma_rt_common(e, Map::empty()),
                None => (),
            }
        },
        OutMapConfigV::H2Mux { is_grpc, http_config } => {
            match http_config {
                Some(e) => lemma_rt_common(e, Map::empty()),
                None => (),
            }
        },
        OutMapConfigV::Quic(c) => {
            lemma_rt_quic_client(c, crate::inbound::tbase("Quic"@));
        },
        OutMapConfigV::SPE1 { qa } => {
            lemma_pairs_rt(qa);
                if qa.len() == 0 {
                    assert(qa =~= Seq::<(Seq<char>, Seq<char>)>::empty());
                }
        },
        OutMapConfigV::Lua { file_name, handshake_function } => {
        
        },
        OutMapConfigV::Embedder { file_name } => {
        
        },
    }
}

/// The declared variant names, in declaration order.
pub open spec fn out_variant_names() -> Seq<Seq<char>> {
    seq!["Blackhole"@, "Direct"@, "Stdio"@, "Fileio"@, "BindDialer"@, "Adder"@, "Counter"@, "Recorder"@, "TLS"@, "OptDirect"@, "OptDialer"@, "NativeTLS"@, "Http"@, "Socks5"@, "Trojan"@, "WebSocket"@, "H2Single"@, "H2Mux"@, "Quic"@, "SPE1"@, "Lua"@, "Embedder"@]
}

/// The variant catalog: every declared variant name, in stable
/// declaration order.
pub fn out_map_variant_names() -> (r: Vec<String>)
    ensures
        r.deep_view() == out_variant_names(),
{
    let mut v: Vec<String> = Vec::new();
    v.push(String::from_str("Blackhole"));
    v.push(String::from_str("Direct"));
    v.push(String::from_str("Stdio"));
    v.push(String::from_str("Fileio"));
    v.push(String::from_str("BindDialer"));
    v.push(String::from_str("Adder"));
    v.push(String::from_str("Counter"));
    v.push(String::from_str("Recorder"));
    v.push(String::from_str("TLS"));
    v.push(String::from_str("OptDirect"));
    v.push(String::from_str("OptDialer"));
    v.push(String::from_str("NativeTLS"));
    v.push(String::from_str("Http"));
    v.push(String::from_str("Socks5"));
    v.push(String::from_str("Trojan"));
    v.push(String::from_str("WebSocket"));
    v.push(String::from_str("H2Single"));
    v.push(String::from_str("H2Mux"));
    v.push(String::from_str("Quic"));
    v.push(String::from_str("SPE1"));
    v.push(String::from_str("Lua"));
    v.push(String::from_str("Embedder"));
    proof {
        assert(v.deep_view() =~= out_variant_names());
    }
    v
}

/// The discriminant spelling of one descriptor.
pub open spec fn out_name_of(m: OutMapConfigV) -> Seq<char> {
    match m {
        OutMapConfigV::Blackhole => "Blackhole"@,
        OutMapConfigV::Direct(_) => "Direct"@,
        OutMapConfigV::Stdio(_) => "Stdio"@,
        OutMapConfigV::Fileio(_) => "Fileio"@,
        OutMapConfigV::BindDialer(_) => "BindDialer"@,
        OutMapConfigV::Adder { .. } => "Adder"@,
        OutMapConfigV::Counter => "Counter"@,
        OutMapConfigV::Recorder(_) => "Recorder"@,
        OutMapConfigV::TLS(_) => "TLS"@,
        OutMapConfigV::OptDirect { .. } => "OptDirect"@,
        OutMapConfigV::OptDialer(_) => "OptDialer"@,
        OutMapConfigV::NativeTLS(_) => "NativeTLS"@,
        OutMapConfigV::Http => "Http"@,
        OutMapConfigV::Socks5(_) => "Socks5"@,
        OutMapConfigV::Trojan(_) => "Trojan"@,
        OutMapConfigV::WebSocket(_) => "WebSocket"@,
        OutMapConfigV::H2Single { .. } => "H2Single"@,
        OutMapConfigV::H2Mux { .. } => "H2Mux"@,
        OutMapConfigV::Quic(_) => "Quic"@,
        OutMapConfigV::SPE1 { .. } => "SPE1"@,
        OutMapConfigV::Lua { .. } => "Lua"@,
        OutMapConfigV::Embedder { .. } => "Embedder"@,
    }
}

/// Every descriptor's discriminant is in the catalog.
pub proof fn lemma_out_name_in_catalog(m: OutMapConfigV)
    ensures
        out_variant_names().contains(out_name_of(m)),
{
    match m {
        OutMapConfigV::Blackhole => {
            assert(out_variant_names()[0] == out_name_of(m));
        },
        OutMapConfigV::Direct(_) => {
            assert(out_variant_names()[1] == out_name_of(m));
        },
        OutMapConfigV::Stdio(_) => {
            assert(out_variant_names()[2] == out_name_of(m));
        },
        OutMapConfigV::Fileio(_) => {
            assert(out_variant_names()[3] == out_name_of(m));
        },
        OutMapConfigV::BindDialer(_) => {
            assert(out_variant_names()[4] == out_name_of(m));
        },
        OutMapConfigV::Adder { .. } => {
            assert(out_variant_names()[5] == out_name_of(m));
        },
        OutMapConfigV::Counter => {
            assert(out_variant_names()[6] == out_name_of(m));
        },
        OutMapConfigV::Recorder(_) => {
            assert(out_variant_names()[7] == out_name_of(m));
        },
        OutMapConfigV::TLS(_) => {
            assert(out_variant_names()[8] == out_name_of(m));
        },
        OutMapConfigV::OptDirect { .. } => {
            assert(out_variant_names()[9] == out_name_of(m));
        },
        OutMapConfigV::OptDialer(_) => {
            assert(out_variant_names()[10] == out_name_of(m));
        },
        OutMapConfigV::NativeTLS(_) => {
            assert(out_variant_names()[11] == out_name_of(m));
        },
        OutMapConfigV::Http => {
            assert(out_variant_names()[12] == out_name_of(m));
        },
        OutMapConfigV::Socks5(_) => {
            assert(out_variant_names()[13] == out_name_of(m));
        },
        OutMapConfigV::Trojan(_) => {
            assert(out_variant_names()[14] == out_name_of(m));
        },
        OutMapConfigV::WebSocket(_) => {
            assert(out_variant_names()[15] == out_name_of(m));
        },
        OutMapConfigV::H2Single { .. } => {
            assert(out_variant_names()[16] == out_name_of(m));
        },
        OutMapConfigV::H2Mux { .. } => {
            assert(out_variant_names()[17] == out_name_of(m));
        },
        OutMapConfigV::Quic(_) => {
            assert(out_variant_names()[18] == out_name_of(m));
        },
        OutMapConfigV::SPE1 { .. } => {
            assert(out_variant_names()[19] == out_name_of(m));
        },
        OutMapConfigV::Lua { .. } => {
            assert(out_variant_names()[20] == out_name_of(m));
        },
        OutMapConfigV::Embedder { .. } => {
            assert(out_variant_names()[21] == out_name_of(m));
        },
    }
}

/// The catalog holds no duplicate names.
#[verifier::rlimit(80)]
pub proof fn lemma_out_names_distinct()
    ensures
        out_variant_names().no_duplicates(),
{
    reveal_strlit("Blackhole");
    reveal_strlit("Direct");
    reveal_strlit("Stdio");
    reveal_strlit("Fileio");
    reveal_strlit("BindDialer");
    reveal_strlit("Adder");
    reveal_strlit("Counter");
    reveal_strlit("Recorder");
    reveal_strlit("TLS");
    reveal_strlit("OptDirect");
    reveal_strlit("OptDialer");
    reveal_strlit("NativeTLS");
    reveal_strlit("Http");
    reveal_strlit("Socks5");
    reveal_strlit("Trojan");
    reveal_strlit("WebSocket");
    reveal_strlit("H2Single");
    reveal_strlit("H2Mux");
    reveal_strlit("Quic");
    reveal_strlit("SPE1");
    reveal_strlit("Lua");
    reveal_strlit("Embedder");
    assert(("Blackhole"@).len() == 9);
    assert(("Direct"@).len() == 6);
    assert(("Stdio"@).len() == 5);
    assert(("Fileio"@).len() == 6);
    assert(("BindDialer"@).len() == 10);
    assert(("Adder"@).len() == 5);
    assert(("Counter"@).len() == 7);
    assert(("Recorder"@).len() == 8);
    assert(("TLS"@).len() == 3);
    assert(("OptDirect"@).len() == 9);
    assert(("OptDialer"@).len() == 9);
    assert(("NativeTLS"@).len() == 9);
    assert(("Http"@).len() == 4);
    assert(("Socks5"@).len() == 6);
    assert(("Trojan"@).len() == 6);
    assert(("WebSocket"@).len() == 9);
    assert(("H2Single"@).len() == 8);
    assert(("H2Mux"@).len() == 5);
    assert(("Quic"@).len() == 4);
    assert(("SPE1"@).len() == 4);
    assert(("Lua"@).len() == 3);
    assert(("Embedder"@).len() == 8);
    assert(("Blackhole"@)[0] == 'B');
    assert(("OptDirect"@)[0] == 'O');
    assert(("OptDialer"@)[0] == 'O');
    assert(("NativeTLS"@)[0] == 'N');
    assert(("WebSocket"@)[0] == 'W');
    assert(("Direct"@)[0] == 'D');
    assert(("Fileio"@)[0] == 'F');
    assert(("Socks5"@)[0] == 'S');
    assert(("Trojan"@)[0] == 'T');
    assert(("Stdio"@)[0] == 'S');
    assert(("Adder"@)[0] == 'A');
    assert(("H2Mux"@)[0] == 'H');
    assert(("Recorder"@)[0] == 'R');
    assert(("H2Single"@)[0] == 'H');
    assert(("Embedder"@)[0] == 'E');
    assert(("TLS"@)[0] == 'T');
    assert(("Lua"@)[0] == 'L');
    assert(("OptDirect"@)[5] == 'r');
    assert(("OptDialer"@)[5] == 'a');
    assert(("Http"@)[0] == 'H');
    assert(("Quic"@)[0] == 'Q');
    assert(("SPE1"@)[0] == 'S');
    assert(out_variant_names().no_duplicates());
}

/// Whether an outbound descriptor is a terminal stage: a discard sink or
/// a dial toward the real destination (including the standard-I/O and
/// file conduits), as opposed to a protocol client wrapping toward it.
pub open spec fn spec_is_terminal_stage(m: OutMapConfigV) -> bool {
    match m {
        OutMapConfigV::Blackhole => true,
        OutMapConfigV::Direct(_) => true,
        OutMapConfigV::Stdio(_) => true,
        OutMapConfigV::Fileio(_) => true,
        OutMapConfigV::BindDialer(_) => true,
        OutMapConfigV::Adder { .. } => false,
        OutMapConfigV::Counter => false,
        OutMapConfigV::Recorder(_) => false,
        OutMapConfigV::TLS(_) => false,
        OutMapConfigV::OptDirect { .. } => true,
        OutMapConfigV::OptDialer(_) => true,
        OutMapConfigV::NativeTLS(_) => false,
        OutMapConfigV::Http => false,
        OutMapConfigV::Socks5(_) => false,
        OutMapConfigV::Trojan(_) => false,
        OutMapConfigV::WebSocket(_) => false,
        OutMapConfigV::H2Single { .. } => false,
        OutMapConfigV::H2Mux { .. } => false,
        OutMapConfigV::Quic(_) => false,
        OutMapConfigV::SPE1 { .. } => false,
        OutMapConfigV::Lua { .. } => false,
        OutMapConfigV::Embedder { .. } => false,
    }
}

pub fn is_terminal_stage(c: &OutMapConfig) -> (r: bool)
    ensures
        r == spec_is_terminal_stage(c.deep_view()),
{
    match c {
        OutMapConfig::Blackhole => true,
        OutMapConfig::Direct(_) => true,
        OutMapConfig::Stdio(_) => true,
        OutMapConfig::Fileio(_) => true,
        OutMapConfig::BindDialer(_) => true,
        OutMapConfig::Adder { .. } => false,
        OutMapConfig::Counter => false,
        OutMapConfig::Recorder(_) => false,
        OutMapConfig::TLS(_) => false,
        OutMapConfig::OptDirect { .. } => true,
        OutMapConfig::OptDialer(_) => true,
        OutMapConfig::NativeTLS(_) => false,
        OutMapConfig::Http => false,
        OutMapConfig::Socks5(_) => false,
        OutMapConfig::Trojan(_) => false,
        OutMapConfig::WebSocket(_) => false,
        OutMapConfig::H2Single { .. } => false,
        OutMapConfig::H2Mux { .. } => false,
        OutMapConfig::Quic(_) => false,
        OutMapConfig::SPE1 { .. } => false,
        OutMapConfig::Lua { .. } => false,
        OutMapConfig::Embedder { .. } => false,
    }
}

/// The round-trip law at the document-value level: an encoded outbound
/// descriptor decodes back to itself.
pub proof fn lemma_rt_out_val(m: OutMapConfigV)
    ensures
        dec_out_val(SpecValue::Obj(enc_out(m))) == Ok::<_, ErrV>(m),
{
    lemma_rt_out(m);
}

/// Encoding is injective: in particular the two HTTP/2 client variants,
/// one connection per stream and multiplexed, stay distinguishable in the
/// document format.
pub proof fn lemma_enc_out_injective(a: OutMapConfigV, b: OutMapConfigV)
    requires
        enc_out(a) == enc_out(b),
    ensures
        a == b,
{
    lemma_rt_out(a);
    lemma_rt_out(b);
}

} // verus!
