//! Codec between the parameter groups and the document model.
//!
//! Each group has a spec-level encoder `enc_*` (building an object meaning
//! on top of a base map, so a discriminant field can sit beside the group's
//! fields), a spec-level decoder `dec_*`, executable counterparts proved
//! against them, and a round-trip law: decoding an encoded group gives the
//! group back, whatever the base held under `"type"`.

use vstd::prelude::*;

use crate::doc::{obj_view, get_of, get_field, SpecValue, Value};
use crate::fields::{
    dres, mism, missing, range_err, unknown, mism_at, missing_at, range_at, unknown_at,
    d_opt_str, d_req_str, d_bool, d_opt_u64, d_opt_u16, d_opt_u8, d_opt_usize,
    d_str_list, d_pair_list, is_str_pair, str_vals, pair_vals, strs_of, pairs_of,
    all_str, all_str_pairs,
    pf_opt_str, pf_req_str, pf_bool, pf_opt_u64, pf_opt_u16, pf_opt_u8, pf_opt_usize,
    pf_str_list, pf_pair_list, pf_val, pf_int,
    put_opt_str, put_req_str, put_bool, put_opt_u64, put_opt_u16, put_opt_u8,
    put_opt_usize, put_str_list, put_pair_list, put_val, put_int, put_lit_str, str_is,
    d_opt_str_x, d_req_str_x, d_bool_x, d_opt_u64_x, d_opt_u16_x, d_opt_u8_x,
    d_opt_usize_x, d_str_list_x, d_pair_list_x,
    DecodeErr, ErrV,
};
use crate::types::{
    Ext, ExtV, OutAutoRouteParams, OutAutoRouteParamsV, InAutoRouteParams, InAutoRouteParamsV,
    FileConfig, FileConfigV, PlainTextPassSet, PlainTextPassSetV, Socks5Out, Socks5OutV,
    TrojanPassSet, TrojanPassSetV, TrojanClientConfig, TrojanClientConfigV, StdioConfig,
    StdioConfigV, WriteMode, DirectConfig, DirectConfigV, DnsClientConfig, DnsClientConfigV,
    Protocol, LookupIpStrategy, SockOpt, SockOptV, OptDialerOption, OptDialerOptionV,
    TproxyOptions, TproxyOptionsV, RecorderConfig, RecorderConfigV, OutputFileExtension,
    OutputFormat, RecordMode, PieceTruncateOption, SessionTruncateOption, CommonConfig,
    CommonConfigV, TlsServerOptions, TlsServerOptionsV, TlsClientOptions, TlsClientOptionsV,
    TrojanConfig, TrojanConfigV, QuicServerConfig, QuicServerConfigV, QuicClientConfig,
    QuicClientConfigV, BindDialerConfig, BindDialerConfigV,
};

verus! {

// ---------------------------------------------------------------------------
// Spellings of the closed enums.
// ---------------------------------------------------------------------------

pub open spec fn wm_name(w: WriteMode) -> Seq<char> {
    match w {
        WriteMode::UTF8 => "UTF8"@,
        WriteMode::Bytes => "Bytes"@,
    }
}

pub open spec fn pf_write_mode(m: Map<Seq<char>, SpecValue>, n: Seq<char>, w: WriteMode) -> Map<
    Seq<char>,
    SpecValue,
> {
    if w == WriteMode::UTF8 {
        m
    } else {
        m.insert(n, SpecValue::Str(wm_name(w)))
    }
}

pub open spec fn d_write_mode(m: Map<Seq<char>, SpecValue>, n: Seq<char>) -> Result<
    WriteMode,
    ErrV,
> {
    match get_of(m, n) {
        None => Ok(WriteMode::UTF8),
        Some(SpecValue::Str(s)) => if s == "UTF8"@ {
            Ok(WriteMode::UTF8)
        } else if s == "Bytes"@ {
            Ok(WriteMode::Bytes)
        } else {
            Err(unknown(s))
        },
        Some(_) => Err(mism(n)),
    }
}

pub fn put_write_mode(out: &mut Vec<(String, Value)>, name: &str, w: WriteMode)
    ensures
        obj_view(final(out)@) == pf_write_mode(obj_view(old(out)@), name@, w),
{
    match w {
        WriteMode::UTF8 => (),
        WriteMode::Bytes => put_lit_str(out, name, "Bytes"),
    }
}

pub fn d_write_mode_x(f: &Vec<(String, Value)>, name: &str) -> (r: Result<WriteMode, DecodeErr>)
    ensures
        dres(r) == d_write_mode(obj_view(f@), name@),
{
    match get_field(f, name) {
        None => Ok(WriteMode::UTF8),
        Some(Value::Str(s)) => if str_is(s, "UTF8") {
            Ok(WriteMode::UTF8)
        } else if str_is(s, "Bytes") {
            Ok(WriteMode::Bytes)
        } else {
            Err(unknown_at(s))
        },
        Some(_) => Err(mism_at(name)),
    }
}

pub open spec fn file_ext_name(w: OutputFileExtension) -> Seq<char> {
    match w {
        OutputFileExtension::Json => "json"@,
        OutputFileExtension::Cbor => "cbor"@,
    }
}

pub open spec fn pf_file_ext(
    m: Map<Seq<char>, SpecValue>,
    n: Seq<char>,
    w: OutputFileExtension,
) -> Map<Seq<char>, SpecValue> {
    if w == OutputFileExtension::Json {
        m
    } else {
        m.insert(n, SpecValue::Str(file_ext_name(w)))
    }
}

pub open spec fn d_file_ext(m: Map<Seq<char>, SpecValue>, n: Seq<char>) -> Result<
    OutputFileExtension,
    ErrV,
> {
    match get_of(m, n) {
        None => Ok(OutputFileExtension::Json),
        Some(SpecValue::Str(s)) => if s == "json"@ {
            Ok(OutputFileExtension::Json)
        } else if s == "cbor"@ {
            Ok(OutputFileExtension::Cbor)
        } else {
            Err(unknown(s))
        },
        Some(_) => Err(mism(n)),
    }
}

pub fn put_file_ext(out: &mut Vec<(String, Value)>, name: &str, w: OutputFileExtension)
    ensures
        obj_view(final(out)@) == pf_file_ext(obj_view(old(out)@), name@, w),
{
    match w {
        OutputFileExtension::Json => (),
        OutputFileExtension::Cbor => put_lit_str(out, name, "cbor"),
    }
}

pub fn d_file_ext_x(f: &Vec<(String, Value)>, name: &str) -> (r: Result<
    OutputFileExtension,
    DecodeErr,
>)
    ensures
        dres(r) == d_file_ext(obj_view(f@), name@),
{
    match get_field(f, name) {
        None => Ok(OutputFileExtension::Json),
        Some(Value::Str(s)) => if str_is(s, "json") {
            Ok(OutputFileExtension::Json)
        } else if str_is(s, "cbor") {
            Ok(OutputFileExtension::Cbor)
        } else {
            Err(unknown_at(s))
        },
        Some(_) => Err(mism_at(name)),
    }
}

pub open spec fn out_format_name(w: OutputFormat) -> Seq<char> {
    match w {
        OutputFormat::Ruci => "ruci"@,
        OutputFormat::Har => "har"@,
    }
}

pub open spec fn pf_out_format(m: Map<Seq<char>, SpecValue>, n: Seq<char>, w: OutputFormat)
    -> Map<Seq<char>, SpecValue> {
    if w == OutputFormat::Ruci {
        m
    } else {
        m.insert(n, SpecValue::Str(out_format_name(w)))
    }
}

pub open spec fn d_out_format(m: Map<Seq<char>, SpecValue>, n: Seq<char>) -> Result<
    OutputFormat,
    ErrV,
> {
    match get_of(m, n) {
        None => Ok(OutputFormat::Ruci),
        Some(SpecValue::Str(s)) => if s == "ruci"@ {
            Ok(OutputFormat::Ruci)
        } else if s == "har"@ {
            Ok(OutputFormat::Har)
        } else {
            Err(unknown(s))
        },
        Some(_) => Err(mism(n)),
    }
}

pub fn put_out_format(out: &mut Vec<(String, Value)>, name: &str, w: OutputFormat)
    ensures
        obj_view(final(out)@) == pf_out_format(obj_view(old(out)@), name@, w),
{
    match w {
        OutputFormat::Ruci => (),
        OutputFormat::Har => put_lit_str(out, name, "har"),
    }
}

pub fn d_out_format_x(f: &Vec<(String, Value)>, name: &str) -> (r: Result<OutputFormat, DecodeErr>)
    ensures
        dres(r) == d_out_format(obj_view(f@), name@),
{
    match get_field(f, name) {
        None => Ok(OutputFormat::Ruci),
        Some(Value::Str(s)) => if str_is(s, "ruci") {
            Ok(OutputFormat::Ruci)
        } else if str_is(s, "har") {
            Ok(OutputFormat::Har)
        } else {
            Err(unknown_at(s))
        },
        Some(_) => Err(mism_at(name)),
    }
}

pub open spec fn record_mode_name(w: RecordMode) -> Seq<char> {
    match w {
        RecordMode::Full => "full"@,
        RecordMode::Simplified => "simplified"@,
        RecordMode::Info => "info"@,
    }
}

pub open spec fn pf_record_mode(m: Map<Seq<char>, SpecValue>, n: Seq<char>, w: RecordMode)
    -> Map<Seq<char>, SpecValue> {
    if w == RecordMode::Full {
        m
    } else {
        m.insert(n, SpecValue::Str(record_mode_name(w)))
    }
}

pub open spec fn d_record_mode(m: Map<Seq<char>, SpecValue>, n: Seq<char>) -> Result<
    RecordMode,
    ErrV,
> {
    match get_of(m, n) {
        None => Ok(RecordMode::Full),
        Some(SpecValue::Str(s)) => if s == "full"@ {
            Ok(RecordMode::Full)
        } else if s == "simplified"@ {
            Ok(RecordMode::Simplified)
        } else if s == "info"@ {
            Ok(RecordMode::Info)
        } else {
            Err(unknown(s))
        },
        Some(_) => Err(mism(n)),
    }
}

pub fn put_record_mode(out: &mut Vec<(String, Value)>, name: &str, w: RecordMode)
    ensures
        obj_view(final(out)@) == pf_record_mode(obj_view(old(out)@), name@, w),
{
    match w {
        RecordMode::Full => (),
        RecordMode::Simplified => put_lit_str(out, name, "simplified"),
        RecordMode::Info => put_lit_str(out, name, "info"),
    }
}

pub fn d_record_mode_x(f: &Vec<(String, Value)>, name: &str) -> (r: Result<RecordMode, DecodeErr>)
    ensures
        dres(r) == d_record_mode(obj_view(f@), name@),
{
    match get_field(f, name) {
        None => Ok(RecordMode::Full),
        Some(Value::Str(s)) => if str_is(s, "full") {
            Ok(RecordMode::Full)
        } else if str_is(s, "simplified") {
            Ok(RecordMode::Simplified)
        } else if str_is(s, "info") {
            Ok(RecordMode::Info)
        } else {
            Err(unknown_at(s))
        },
        Some(_) => Err(mism_at(name)),
    }
}

pub open spec fn strategy_name(w: LookupIpStrategy) -> Seq<char> {
    match w {
        LookupIpStrategy::Ipv4Only => "Ipv4Only"@,
        LookupIpStrategy::Ipv6Only => "Ipv6Only"@,
        LookupIpStrategy::Ipv4AndIpv6 => "Ipv4AndIpv6"@,
        LookupIpStrategy::Ipv6thenIpv4 => "Ipv6thenIpv4"@,
        LookupIpStrategy::Ipv4thenIpv6 => "Ipv4thenIpv6"@,
    }
}

pub open spec fn pf_opt_strategy(
    m: Map<Seq<char>, SpecValue>,
    n: Seq<char>,
    w: Option<LookupIpStrategy>,
) -> Map<Seq<char>, SpecValue> {
    match w {
        None => m,
        Some(st) => m.insert(n, SpecValue::Str(strategy_name(st))),
    }
}

pub open spec fn d_opt_strategy(m: Map<Seq<char>, SpecValue>, n: Seq<char>) -> Result<
    Option<LookupIpStrategy>,
    ErrV,
> {
    match get_of(m, n) {
        None => Ok(None),
        Some(SpecValue::Str(s)) => if s == "Ipv4Only"@ {
            Ok(Some(LookupIpStrategy::Ipv4Only))
        } else if s == "Ipv6Only"@ {
            Ok(Some(LookupIpStrategy::Ipv6Only))
        } else if s == "Ipv4AndIpv6"@ {
            Ok(Some(LookupIpStrategy::Ipv4AndIpv6))
        } else if s == "Ipv6thenIpv4"@ {
            Ok(Some(LookupIpStrategy::Ipv6thenIpv4))
        } else if s == "Ipv4thenIpv6"@ {
            Ok(Some(LookupIpStrategy::Ipv4thenIpv6))
        } else {
            Err(unknown(s))
        },
        Some(_) => Err(mism(n)),
    }
}

pub fn put_opt_strategy(out: &mut Vec<(String, Value)>, name: &str, w: &Option<LookupIpStrategy>)
    ensures
        obj_view(final(out)@) == pf_opt_strategy(obj_view(old(out)@), name@, *w),
{
    match w {
        None => (),
        Some(LookupIpStrategy::Ipv4Only) => put_lit_str(out, name, "Ipv4Only"),
        Some(LookupIpStrategy::Ipv6Only) => put_lit_str(out, name, "Ipv6Only"),
        Some(LookupIpStrategy::Ipv4AndIpv6) => put_lit_str(out, name, "Ipv4AndIpv6"),
        Some(LookupIpStrategy::Ipv6thenIpv4) => put_lit_str(out, name, "Ipv6thenIpv4"),
        Some(LookupIpStrategy::Ipv4thenIpv6) => put_lit_str(out, name, "Ipv4thenIpv6"),
    }
}

pub fn d_opt_strategy_x(f: &Vec<(String, Value)>, name: &str) -> (r: Result<
    Option<LookupIpStrategy>,
    DecodeErr,
>)
    ensures
        dres(r) == d_opt_strategy(obj_view(f@), name@),
{
    match get_field(f, name) {
        None => Ok(None),
        Some(Value::Str(s)) => if str_is(s, "Ipv4Only") {
            Ok(Some(LookupIpStrategy::Ipv4Only))
        } else if str_is(s, "Ipv6Only") {
            Ok(Some(LookupIpStrategy::Ipv6Only))
        } else if str_is(s, "Ipv4AndIpv6") {
            Ok(Some(LookupIpStrategy::Ipv4AndIpv6))
        } else if str_is(s, "Ipv6thenIpv4") {
            Ok(Some(LookupIpStrategy::Ipv6thenIpv4))
        } else if str_is(s, "Ipv4thenIpv6") {
            Ok(Some(LookupIpStrategy::Ipv4thenIpv6))
        } else {
            Err(unknown_at(s))
        },
        Some(_) => Err(mism_at(name)),
    }
}

// ---------------------------------------------------------------------------
// The two truncation policies: a tagged choice, never a bare integer, so an
// explicit zero limit stays distinct from "no truncation".
// ---------------------------------------------------------------------------

pub open spec fn pf_piece_trunc(
    m: Map<Seq<char>, SpecValue>,
    n: Seq<char>,
    t: PieceTruncateOption,
) -> Map<Seq<char>, SpecValue> {
    match t {
        PieceTruncateOption::NoTruncate => m,
        PieceTruncateOption::PieceTruncate(k) => m.insert(
            n,
            SpecValue::Obj(Map::empty().insert("piece-truncate"@, SpecValue::Int(k as i128))),
        ),
    }
}

pub open spec fn d_piece_trunc(m: Map<Seq<char>, SpecValue>, n: Seq<char>) -> Result<
    PieceTruncateOption,
    ErrV,
> {
    match get_of(m, n) {
        None => Ok(PieceTruncateOption::NoTruncate),
        Some(SpecValue::Str(s)) => if s == "no-truncate"@ {
            Ok(PieceTruncateOption::NoTruncate)
        } else {
            Err(unknown(s))
        },
        Some(SpecValue::Obj(mm)) => match get_of(mm, "piece-truncate"@) {
            Some(SpecValue::Int(i)) => if 0 <= i && i <= usize::MAX as i128 {
                Ok(PieceTruncateOption::PieceTruncate(i as usize))
            } else {
                Err(range_err("piece-truncate"@))
            },
            Some(_) => Err(mism("piece-truncate"@)),
            None => Err(missing("piece-truncate"@)),
        },
        Some(_) => Err(mism(n)),
    }
}

pub fn put_piece_trunc(out: &mut Vec<(String, Value)>, name: &str, t: PieceTruncateOption)
    ensures
        obj_view(final(out)@) == pf_piece_trunc(obj_view(old(out)@), name@, t),
{
    match t {
        PieceTruncateOption::NoTruncate => (),
        PieceTruncateOption::PieceTruncate(k) => {
            let mut inner: Vec<(String, Value)> = Vec::new();
            proof {
                assert(obj_view(inner@) == Map::<Seq<char>, SpecValue>::empty());
            }
            put_int(&mut inner, "piece-truncate", k as i128);
            put_val(out, name, Value::Obj(inner));
        },
    }
}

pub fn d_piece_trunc_x(f: &Vec<(String, Value)>, name: &str) -> (r: Result<
    PieceTruncateOption,
    DecodeErr,
>)
    ensures
        dres(r) == d_piece_trunc(obj_view(f@), name@),
{
    match get_field(f, name) {
        None => Ok(PieceTruncateOption::NoTruncate),
        Some(Value::Str(s)) => if str_is(s, "no-truncate") {
            Ok(PieceTruncateOption::NoTruncate)
        } else {
            Err(unknown_at(s))
        },
        Some(Value::Obj(ff)) => match get_field(ff, "piece-truncate") {
            Some(Value::Int(i)) => if 0 <= *i && *i <= usize::MAX as i128 {
                Ok(PieceTruncateOption::PieceTruncate(*i as usize))
            } else {
                Err(range_at("piece-truncate"))
            },
            Some(_) => Err(mism_at("piece-truncate")),
            None => Err(missing_at("piece-truncate")),
        },
        Some(_) => Err(mism_at(name)),
    }
}

pub open spec fn pf_session_trunc(
    m: Map<Seq<char>, SpecValue>,
    n: Seq<char>,
    t: SessionTruncateOption,
) -> Map<Seq<char>, SpecValue> {
    match t {
        SessionTruncateOption::NoTruncate => m,
        SessionTruncateOption::SessionTruncate(k) => m.insert(
            n,
            SpecValue::Obj(Map::empty().insert("session-truncate"@, SpecValue::Int(k as i128))),
        ),
    }
}

pub open spec fn d_session_trunc(m: Map<Seq<char>, SpecValue>, n: Seq<char>) -> Result<
    SessionTruncateOption,
    ErrV,
> {
    match get_of(m, n) {
        None => Ok(SessionTruncateOption::NoTruncate),
        Some(SpecValue::Str(s)) => if s == "no-truncate"@ {
            Ok(SessionTruncateOption::NoTruncate)
        } else {
            Err(unknown(s))
        },
        Some(SpecValue::Obj(mm)) => match get_of(mm, "session-truncate"@) {
            Some(SpecValue::Int(i)) => if 0 <= i && i <= usize::MAX as i128 {
                Ok(SessionTruncateOption::SessionTruncate(i as usize))
            } else {
                Err(range_err("session-truncate"@))
            },
            Some(_) => Err(mism("session-truncate"@)),
            None => Err(missing("session-truncate"@)),
        },
        Some(_) => Err(mism(n)),
    }
}

pub fn put_session_trunc(out: &mut Vec<(String, Value)>, name: &str, t: SessionTruncateOption)
    ensures
        obj_view(final(out)@) == pf_session_trunc(obj_view(old(out)@), name@, t),
{
    match t {
        SessionTruncateOption::NoTruncate => (),
        SessionTruncateOption::SessionTruncate(k) => {
            let mut inner: Vec<(String, Value)> = Vec::new();
            proof {
                assert(obj_view(inner@) == Map::<Seq<char>, SpecValue>::empty());
            }
            put_int(&mut inner, "session-truncate", k as i128);
            put_val(out, name, Value::Obj(inner));
        },
    }
}

pub fn d_session_trunc_x(f: &Vec<(String, Value)>, name: &str) -> (r: Result<
    SessionTruncateOption,
    DecodeErr,
>)
    ensures
        dres(r) == d_session_trunc(obj_view(f@), name@),
{
    match get_field(f, name) {
        None => Ok(SessionTruncateOption::NoTruncate),
        Some(Value::Str(s)) => if str_is(s, "no-truncate") {
            Ok(SessionTruncateOption::NoTruncate)
        } else {
            Err(unknown_at(s))
        },
        Some(Value::Obj(ff)) => match get_field(ff, "session-truncate") {
            Some(Value::Int(i)) => if 0 <= *i && *i <= usize::MAX as i128 {
                Ok(SessionTruncateOption::SessionTruncate(*i as usize))
            } else {
                Err(range_at("session-truncate"))
            },
            Some(_) => Err(mism_at("session-truncate")),
            None => Err(missing_at("session-truncate")),
        },
        Some(_) => Err(mism_at(name)),
    }
}

// ---------------------------------------------------------------------------
// The DNS server list: pairs of server address and transport.
// ---------------------------------------------------------------------------

pub open spec fn proto_name(p: Protocol) -> Seq<char> {
    match p {
        Protocol::Udp => "Udp"@,
        Protocol::Tcp => "Tcp"@,
    }
}

pub open spec fn parse_proto(s: Seq<char>) -> Option<Protocol> {
    if s == "Udp"@ {
        Some(Protocol::Udp)
    } else if s == "Tcp"@ {
        Some(Protocol::Tcp)
    } else {
        None
    }
}

pub open spec fn server_vals(s: Seq<(Seq<char>, Protocol)>) -> Seq<SpecValue> {
    Seq::new(
        s.len(),
        |i: int| SpecValue::Arr(
            seq![SpecValue::Str(s[i].0), SpecValue::Str(proto_name(s[i].1))],
        ),
    )
}

pub open spec fn pf_servers(
    m: Map<Seq<char>, SpecValue>,
    n: Seq<char>,
    v: Seq<(Seq<char>, Protocol)>,
) -> Map<Seq<char>, SpecValue> {
    if v.len() == 0 {
        m
    } else {
        m.insert(n, SpecValue::Arr(server_vals(v)))
    }
}

pub open spec fn all_servers(items: Seq<SpecValue>) -> bool {
    forall|i: int|
        0 <= i < items.len() ==> is_str_pair(#[trigger] items[i]) && parse_proto(
            items[i]->Arr_0[1]->Str_0,
        ) is Some
}

pub open spec fn servers_of(items: Seq<SpecValue>) -> Seq<(Seq<char>, Protocol)> {
    Seq::new(
        items.len(),
        |i: int| (items[i]->Arr_0[0]->Str_0, parse_proto(items[i]->Arr_0[1]->Str_0)->Some_0),
    )
}

pub open spec fn d_servers(m: Map<Seq<char>, SpecValue>, n: Seq<char>) -> Result<
    Seq<(Seq<char>, Protocol)>,
    ErrV,
> {
    match get_of(m, n) {
        None => Ok(Seq::empty()),
        Some(SpecValue::Arr(items)) => if all_servers(items) {
            Ok(servers_of(items))
        } else {
            Err(mism(n))
        },
        Some(_) => Err(mism(n)),
    }
}

pub fn put_servers(out: &mut Vec<(String, Value)>, name: &str, v: &Vec<(String, Protocol)>)
    ensures
        obj_view(final(out)@) == pf_servers(obj_view(old(out)@), name@, v.deep_view()),
{
    if v.len() > 0 {
        let mut items: Vec<Value> = Vec::new();
        let mut i: usize = 0;
        while i < v.len()
            invariant
                i <= v.len(),
                crate::doc::arr_view(items@) =~= server_vals(v.deep_view().take(i as int)),
            decreases v.len() - i,
        {
            let ghost before: Seq<Value> = items@;
            let mut pair: Vec<Value> = Vec::new();
            pair.push(Value::Str(v[i].0.clone()));
            match v[i].1 {
                Protocol::Udp => pair.push(Value::Str(String::from_str("Udp"))),
                Protocol::Tcp => pair.push(Value::Str(String::from_str("Tcp"))),
            }
            let val = Value::Arr(pair);
            let ghost gval: Value = val;
            proof {
                reveal_with_fuel(crate::doc::arr_view, 3);
                let pv = gval->Arr_0@;
                assert(pv.subrange(0, 0) =~= Seq::<Value>::empty());
                assert(pv.subrange(0, 1)[0] == pv[0]);
                assert(pv.subrange(0, 1).subrange(0, 0) =~= Seq::<Value>::empty());
                assert(crate::doc::arr_view(pv) == Seq::<SpecValue>::empty().push(
                    crate::doc::val_view(pv[0]),
                ).push(crate::doc::val_view(pv[1])));
                assert(crate::doc::val_view(pv[0]) == SpecValue::Str(v.deep_view()[i as int].0));
                assert(crate::doc::val_view(pv[1]) == SpecValue::Str(
                    proto_name(v.deep_view()[i as int].1),
                ));
                assert(crate::doc::arr_view(pv) =~= seq![
                    SpecValue::Str(v.deep_view()[i as int].0),
                    SpecValue::Str(proto_name(v.deep_view()[i as int].1)),
                ]);
                assert(crate::doc::val_view(gval) == SpecValue::Arr(seq![
                    SpecValue::Str(v.deep_view()[i as int].0),
                    SpecValue::Str(proto_name(v.deep_view()[i as int].1)),
                ]));
            }
            items.push(val);
            proof {
                assert(items@.subrange(0, items@.len() - 1) =~= before);
                assert(items@[items@.len() - 1] == gval);
                assert(crate::doc::arr_view(items@) == crate::doc::arr_view(before).push(
                    crate::doc::val_view(gval),
                ));
                assert(server_vals(v.deep_view().take(i as int + 1))[i as int]
                    == crate::doc::val_view(gval));
                assert(crate::doc::arr_view(items@) =~= server_vals(
                    v.deep_view().take(i as int + 1),
                ));
            }
            i = i + 1;
        }
        let entry = (String::from_str(name), Value::Arr(items));
        proof {
            assert(v.deep_view().take(v.len() as int) =~= v.deep_view());
            crate::fields::lemma_obj_push(out@, entry);
        }
        out.push(entry);
    }
}

pub fn d_servers_x(f: &Vec<(String, Value)>, name: &str) -> (r: Result<
    Vec<(String, Protocol)>,
    DecodeErr,
>)
    ensures
        dres(r) == d_servers(obj_view(f@), name@),
{
    match get_field(f, name) {
        None => {
            let out: Vec<(String, Protocol)> = Vec::new();
            proof {
                assert(out.deep_view() =~= Seq::<(Seq<char>, Protocol)>::empty());
            }
            Ok(out)
        },
        Some(Value::Arr(items)) => {
            let ghost iv: Seq<SpecValue> = crate::doc::arr_view(items@);
            proof {
                crate::doc::lemma_arr_view_len(items@);
            }
            let mut out: Vec<(String, Protocol)> = Vec::new();
            let mut i: usize = 0;
            while i < items.len()
                invariant
                    i <= items.len(),
                    iv == crate::doc::arr_view(items@),
                    iv.len() == items@.len(),
                    get_of(obj_view(f@), name@) == Some(SpecValue::Arr(iv)),
                    forall|j: int|
                        0 <= j < i ==> is_str_pair(#[trigger] iv[j]) && parse_proto(
                            iv[j]->Arr_0[1]->Str_0,
                        ) is Some,
                    out.deep_view() =~= servers_of(iv).take(i as int),
                decreases items.len() - i,
            {
                proof {
                    crate::doc::lemma_arr_view_index(items@, i as int);
                }
                match &items[i] {
                    Value::Arr(pair) => {
                        proof {
                            crate::doc::lemma_arr_view_len(pair@);
                        }
                        if pair.len() != 2 {
                            proof {
                                assert(!is_str_pair(iv[i as int]));
                            }
                            return Err(mism_at(name));
                        }
                        proof {
                            crate::doc::lemma_arr_view_index(pair@, 0);
                            crate::doc::lemma_arr_view_index(pair@, 1);
                        }
                        match (&pair[0], &pair[1]) {
                            (Value::Str(a), Value::Str(b)) => {
                                let p: Protocol;
                                if str_is(b, "Udp") {
                                    p = Protocol::Udp;
                                } else if str_is(b, "Tcp") {
                                    p = Protocol::Tcp;
                                } else {
                                    proof {
                                        assert(parse_proto(iv[i as int]->Arr_0[1]->Str_0) is None);
                                    }
                                    return Err(mism_at(name));
                                }
                                proof {
                                    assert(iv[i as int]->Arr_0[0] == SpecValue::Str(a@));
                                    assert(iv[i as int]->Arr_0[1] == SpecValue::Str(b@));
                                    assert(servers_of(iv)[i as int] == (a@, p));
                                }
                                let ghost outb: Seq<(Seq<char>, Protocol)> = out.deep_view();
                                out.push((a.clone(), p));
                                proof {
                                    assert(out.deep_view() =~= outb.push((a@, p)));
                                    assert(out.deep_view() =~= servers_of(iv).take(i as int + 1));
                                }
                            },
                            _ => {
                                proof {
                                    assert(!is_str_pair(iv[i as int]));
                                }
                                return Err(mism_at(name));
                            },
                        }
                    },
                    _ => {
                        proof {
                            assert(!is_str_pair(iv[i as int]));
                        }
                        return Err(mism_at(name));
                    },
                }
                i = i + 1;
            }
            proof {
                assert(all_servers(iv));
                assert(servers_of(iv).take(items@.len() as int) =~= servers_of(iv));
            }
            Ok(out)
        },
        Some(_) => Err(mism_at(name)),
    }
}

// ---------------------------------------------------------------------------
// Round-trip helpers for lists.
// ---------------------------------------------------------------------------

pub proof fn lemma_strs_rt(v: Seq<Seq<char>>)
    ensures
        all_str(str_vals(v)),
        strs_of(str_vals(v)) == v,
{
    assert forall|i: int| 0 <= i < str_vals(v).len() implies str_vals(v)[i] is Str by {}
    assert(strs_of(str_vals(v)) =~= v);
}

pub proof fn lemma_pairs_rt(v: Seq<(Seq<char>, Seq<char>)>)
    ensures
        all_str_pairs(pair_vals(v)),
        pairs_of(pair_vals(v)) == v,
{
    assert forall|i: int| 0 <= i < pair_vals(v).len() implies is_str_pair(
        #[trigger] pair_vals(v)[i],
    ) by {}
    assert forall|i: int| 0 <= i < v.len() implies pairs_of(pair_vals(v))[i] == v[i] by {}
    assert(pairs_of(pair_vals(v)) =~= v);
}

pub proof fn lemma_servers_rt(v: Seq<(Seq<char>, Protocol)>)
    ensures
        all_servers(server_vals(v)),
        servers_of(server_vals(v)) == v,
{
    reveal_strlit("Udp");
    reveal_strlit("Tcp");
    assert(("Udp"@).len() == 3);
    assert(("Tcp"@).len() == 3);
    assert(("Udp"@)[0] == 'U');
    assert(("Tcp"@)[0] == 'T');
    assert forall|i: int| 0 <= i < server_vals(v).len() implies is_str_pair(
        #[trigger] server_vals(v)[i],
    ) && parse_proto(server_vals(v)[i]->Arr_0[1]->Str_0) is Some by {
        match v[i].1 {
            Protocol::Udp => {
                assert(parse_proto(proto_name(v[i].1)) == Some(Protocol::Udp));
            },
            Protocol::Tcp => {
                assert(parse_proto(proto_name(v[i].1)) == Some(Protocol::Tcp));
            },
        }
    }
    assert forall|i: int| 0 <= i < v.len() implies servers_of(server_vals(v))[i] == v[i] by {
        match v[i].1 {
            Protocol::Udp => {
                assert(parse_proto(proto_name(v[i].1)) == Some(Protocol::Udp));
            },
            Protocol::Tcp => {
                assert(parse_proto(proto_name(v[i].1)) == Some(Protocol::Tcp));
            },
        }
    }
    assert(servers_of(server_vals(v)) =~= v);
}


pub open spec fn enc_ext(m: ExtV, base: Map<Seq<char>, SpecValue>) -> Map<
    Seq<char>,
    SpecValue,
> {
    pf_opt_str(pf_opt_str(base, "fixed_target_addr"@, m.fixed_target_addr), "pre_defined_early_data"@, m.pre_defined_early_data)
}

pub open spec fn dec_ext(m: Map<Seq<char>, SpecValue>) -> Result<ExtV, ErrV> {
    let r_fixed_target_addr = d_opt_str(m, "fixed_target_addr"@);
    let r_pre_defined_early_data = d_opt_str(m, "pre_defined_early_data"@);
    if r_fixed_target_addr is Err {
        Err(r_fixed_target_addr->Err_0)
    } else if r_pre_defined_early_data is Err {
        Err(r_pre_defined_early_data->Err_0)
    } else {
        Ok(ExtV { fixed_target_addr: r_fixed_target_addr->Ok_0, pre_defined_early_data: r_pre_defined_early_data->Ok_0 })
    }
}

pub fn encode_ext_into(out: &mut Vec<(String, Value)>, c: &Ext)
    ensures
        obj_view(final(out)@) == enc_ext(c.deep_view(), obj_view(old(out)@)),
{
    put_opt_str(out, "fixed_target_addr", &c.fixed_target_addr);
    put_opt_str(out, "pre_defined_early_data", &c.pre_defined_early_data);
}

pub fn decode_ext(f: &Vec<(String, Value)>) -> (r: Result<Ext, DecodeErr>)
    ensures
        dres(r) == dec_ext(obj_view(f@)),
{
    let x_fixed_target_addr = match d_opt_str_x(f, "fixed_target_addr") {
        Ok(v) => v,
        Err(e) => return Err(e),
    };
    let x_pre_defined_early_data = match d_opt_str_x(f, "pre_defined_early_data") {
        Ok(v) => v,
        Err(e) => return Err(e),
    };
    Ok(Ext { fixed_target_addr: x_fixed_target_addr, pre_defined_early_data: x_pre_defined_early_data })
}

pub proof fn lemma_rt_ext(m: ExtV, base: Map<Seq<char>, SpecValue>)
    requires
        forall|k: Seq<char>| base.contains_key(k) ==> k == "type"@,
    ensures
        dec_ext(enc_ext(m, base)) == Ok::<_, ErrV>(m),
        get_of(enc_ext(m, base), "type"@) == get_of(base, "type"@),
{
    reveal_strlit("type");
    reveal_strlit("fixed_target_addr");
    reveal_strlit("pre_defined_early_data");
    assert(("type"@).len() == 4);
    assert(("fixed_target_addr"@).len() == 17);
    assert(("pre_defined_early_data"@).len() == 22);
}

pub open spec fn pf_opt_ext(m: Map<Seq<char>, SpecValue>, n: Seq<char>, v: Option<ExtV>)
    -> Map<Seq<char>, SpecValue> {
    match v {
        None => m,
        Some(e) => m.insert(n, SpecValue::Obj(enc_ext(e, Map::empty()))),
    }
}

pub open spec fn d_opt_ext(m: Map<Seq<char>, SpecValue>, n: Seq<char>) -> Result<
    Option<ExtV>,
    ErrV,
> {
    match get_of(m, n) {
        None => Ok(None),
        Some(SpecValue::Obj(mm)) => match dec_ext(mm) {
            Ok(e) => Ok(Some(e)),
            Err(e) => Err(e),
        },
        Some(_) => Err(mism(n)),
    }
}

pub fn put_opt_ext(out: &mut Vec<(String, Value)>, name: &str, v: &Option<Ext>)
    ensures
        obj_view(final(out)@) == pf_opt_ext(obj_view(old(out)@), name@, v.deep_view()),
{
    match v {
        None => (),
        Some(e) => {
            let mut inner: Vec<(String, Value)> = Vec::new();
            proof {
                assert(obj_view(inner@) == Map::<Seq<char>, SpecValue>::empty());
            }
            encode_ext_into(&mut inner, e);
            put_val(out, name, Value::Obj(inner));
        },
    }
}

pub fn d_opt_ext_x(f: &Vec<(String, Value)>, name: &str) -> (r: Result<Option<Ext>, DecodeErr>)
    ensures
        dres(r) == d_opt_ext(obj_view(f@), name@),
{
    match get_field(f, name) {
        None => Ok(None),
        Some(Value::Obj(ff)) => match decode_ext(ff) {
            Ok(e) => Ok(Some(e)),
            Err(e) => Err(e),
        },
        Some(_) => Err(mism_at(name)),
    }
}

pub open spec fn enc_out_auto_route(m: OutAutoRouteParamsV, base: Map<Seq<char>, SpecValue>) -> Map<
    Seq<char>,
    SpecValue,
> {
    pf_opt_str(pf_opt_str(pf_opt_str(base, "tun_dev_name"@, m.tun_dev_name), "original_dev_name"@, m.original_dev_name), "router_ip"@, m.router_ip)
}

pub open spec fn dec_out_auto_route(m: Map<Seq<char>, SpecValue>) -> Result<OutAutoRouteParamsV, ErrV> {
    let r_tun_dev_name = d_opt_str(m, "tun_dev_name"@);
    let r_original_dev_name = d_opt_str(m, "original_dev_name"@);
    let r_router_ip = d_opt_str(m, "router_ip"@);
    if r_tun_dev_name is Err {
        Err(r_tun_dev_name->Err_0)
    } else if r_original_dev_name is Err {
        Err(r_original_dev_name->Err_0)
    } else if r_router_ip is Err {
        Err(r_router_ip->Err_0)
    } else {
        Ok(OutAutoRouteParamsV { tun_dev_name: r_tun_dev_name->Ok_0, original_dev_name: r_original_dev_name->Ok_0, router_ip: r_router_ip->Ok_0 })
    }
}

pub fn encode_out_auto_route_into(out: &mut Vec<(String, Value)>, c: &OutAutoRouteParams)
    ensures
        obj_view(final(out)@) == enc_out_auto_route(c.deep_view(), obj_view(old(out)@)),
{
    put_opt_str(out, "tun_dev_name", &c.tun_dev_name);
    put_opt_str(out, "original_dev_name", &c.original_dev_name);
    put_opt_str(out, "router_ip", &c.router_ip);
}

pub fn decode_out_auto_route(f: &Vec<(String, Value)>) -> (r: Result<OutAutoRouteParams, DecodeErr>)
    ensures
        dres(r) == dec_out_auto_route(obj_view(f@)),
{
    let x_tun_dev_name = match d_opt_str_x(f, "tun_dev_name") {
        Ok(v) => v,
        Err(e) => return Err(e),
    };
    let x_original_dev_name = match d_opt_str_x(f, "original_dev_name") {
        Ok(v) => v,
        Err(e) => return Err(e),
    };
    let x_router_ip = match d_opt_str_x(f, "router_ip") {
        Ok(v) => v,
        Err(e) => return Err(e),
    };
    Ok(OutAutoRouteParams { tun_dev_name: x_tun_dev_name, original_dev_name: x_original_dev_name, router_ip: x_router_ip })
}

pub proof fn lemma_rt_out_auto_route(m: OutAutoRouteParamsV, base: Map<Seq<char>, SpecValue>)
    requires
        forall|k: Seq<char>| base.contains_key(k) ==> k == "type"@,
    ensures
        dec_out_auto_route(enc_out_auto_route(m, base)) == Ok::<_, ErrV>(m),
        get_of(enc_out_auto_route(m, base), "type"@) == get_of(base, "type"@),
{
    reveal_strlit("type");
    reveal_strlit("tun_dev_name");
    reveal_strlit("original_dev_name");
    reveal_strlit("router_ip");
    assert(("type"@).len() == 4);
    assert(("tun_dev_name"@).len() == 12);
    assert(("original_dev_name"@).len() == 17);
    assert(("router_ip"@).len() == 9);
}

pub open spec fn pf_opt_out_auto_route(m: Map<Seq<char>, SpecValue>, n: Seq<char>, v: Option<OutAutoRouteParamsV>)
    -> Map<Seq<char>, SpecValue> {
    match v {
        None => m,
        Some(e) => m.insert(n, SpecValue::Obj(enc_out_auto_route(e, Map::empty()))),
    }
}

pub open spec fn d_opt_out_auto_route(m: Map<Seq<char>, SpecValue>, n: Seq<char>) -> Result<
    Option<OutAutoRouteParamsV>,
    ErrV,
> {
    match get_of(m, n) {
        None => Ok(None),
        Some(SpecValue::Obj(mm)) => match dec_out_auto_route(mm) {
            Ok(e) => Ok(Some(e)),
            Err(e) => Err(e),
        },
        Some(_) => Err(mism(n)),
    }
}

pub fn put_opt_out_auto_route(out: &mut Vec<(String, Value)>, name: &str, v: &Option<OutAutoRouteParams>)
    ensures
        obj_view(final(out)@) == pf_opt_out_auto_route(obj_view(old(out)@), name@, v.deep_view()),
{
    match v {
        None => (),
        Some(e) => {
            let mut inner: Vec<(String, Value)> = Vec::new();
            proof {
                assert(obj_view(inner@) == Map::<Seq<char>, SpecValue>::empty());
            }
            encode_out_auto_route_into(&mut inner, e);
            put_val(out, name, Value::Obj(inner));
        },
    }
}

pub fn d_opt_out_auto_route_x(f: &Vec<(String, Value)>, name: &str) -> (r: Result<Option<OutAutoRouteParams>, DecodeErr>)
    ensures
        dres(r) == d_opt_out_auto_route(obj_view(f@), name@),
{
    match get_field(f, name) {
        None => Ok(None),
        Some(Value::Obj(ff)) => match decode_out_auto_route(ff) {
            Ok(e) => Ok(Some(e)),
            Err(e) => Err(e),
        },
        Some(_) => Err(mism_at(name)),
    }
}

pub open spec fn enc_in_auto_route(m: InAutoRouteParamsV, base: Map<Seq<char>, SpecValue>) -> Map<
    Seq<char>,
    SpecValue,
> {
    pf_str_list(pf_str_list(pf_opt_str(pf_opt_str(pf_opt_str(pf_opt_str(base, "tun_dev_name"@, m.tun_dev_name), "tun_gateway"@, m.tun_gateway), "router_ip"@, m.router_ip), "original_dev_name"@, m.original_dev_name), "direct_list"@, m.direct_list), "dns_list"@, m.dns_list)
}

pub open spec fn dec_in_auto_route(m: Map<Seq<char>, SpecValue>) -> Result<InAutoRouteParamsV, ErrV> {
    let r_tun_dev_name = d_opt_str(m, "tun_dev_name"@);
    let r_tun_gateway = d_opt_str(m, "tun_gateway"@);
    let r_router_ip = d_opt_str(m, "router_ip"@);
    let r_original_dev_name = d_opt_str(m, "original_dev_name"@);
    let r_direct_list = d_str_list(m, "direct_list"@);
    let r_dns_list = d_str_list(m, "dns_list"@);
    if r_tun_dev_name is Err {
        Err(r_tun_dev_name->Err_0)
    } else if r_tun_gateway is Err {
        Err(r_tun_gateway->Err_0)
    } else if r_router_ip is Err {
        Err(r_router_ip->Err_0)
    } else if r_original_dev_name is Err {
        Err(r_original_dev_name->Err_0)
    } else if r_direct_list is Err {
        Err(r_direct_list->Err_0)
    } else if r_dns_list is Err {
        Err(r_dns_list->Err_0)
    } else {
        Ok(InAutoRouteParamsV { tun_dev_name: r_tun_dev_name->Ok_0, tun_gateway: r_tun_gateway->Ok_0, router_ip: r_router_ip->Ok_0, original_dev_name: r_original_dev_name->Ok_0, direct_list: r_direct_list->Ok_0, dns_list: r_dns_list->Ok_0 })
    }
}

pub fn encode_in_auto_route_into(out: &mut Vec<(String, Value)>, c: &InAutoRouteParams)
    ensures
        obj_view(final(out)@) == enc_in_auto_route(c.deep_view(), obj_view(old(out)@)),
{
    put_opt_str(out, "tun_dev_name", &c.tun_dev_name);
    put_opt_str(out, "tun_gateway", &c.tun_gateway);
    put_opt_str(out, "router_ip", &c.router_ip);
    put_opt_str(out, "original_dev_name", &c.original_dev_name);
    put_str_list(out, "direct_list", &c.direct_list);
    put_str_list(out, "dns_list", &c.dns_list);
}

pub fn decode_in_auto_route(f: &Vec<(String, Value)>) -> (r: Result<InAutoRouteParams, DecodeErr>)
    ensures
        dres(r) == dec_in_auto_route(obj_view(f@)),
{
    let x_tun_dev_name = match d_opt_str_x(f, "tun_dev_name") {
        Ok(v) => v,
        Err(e) => return Err(e),
    };
    let x_tun_gateway = match d_opt_str_x(f, "tun_gateway") {
        Ok(v) => v,
        Err(e) => return Err(e),
    };
    let x_router_ip = match d_opt_str_x(f, "router_ip") {
        Ok(v) => v,
        Err(e) => return Err(e),
    };
    let x_original_dev_name = match d_opt_str_x(f, "original_dev_name") {
        Ok(v) => v,
        Err(e) => return Err(e),
    };
    let x_direct_list = match d_str_list_x(f, "direct_list") {
        Ok(v) => v,
        Err(e) => return Err(e),
    };
    let x_dns_list = match d_str_list_x(f, "dns_list") {
        Ok(v) => v,
        Err(e) => return Err(e),
    };
    Ok(InAutoRouteParams { tun_dev_name: x_tun_dev_name, tun_gateway: x_tun_gateway, router_ip: x_router_ip, original_dev_name: x_original_dev_name, direct_list: x_direct_list, dns_list: x_dns_list })
}

pub proof fn lemma_rt_in_auto_route(m: InAutoRouteParamsV, base: Map<Seq<char>, SpecValue>)
    requires
        forall|k: Seq<char>| base.contains_key(k) ==> k == "type"@,
    ensures
        dec_in_auto_route(enc_in_auto_route(m, base)) == Ok::<_, ErrV>(m),
        get_of(enc_in_auto_route(m, base), "type"@) == get_of(base, "type"@),
{
    reveal_strlit("type");
    reveal_strlit("tun_dev_name");
    reveal_strlit("tun_gateway");
    reveal_strlit("router_ip");
    reveal_strlit("original_dev_name");
    reveal_strlit("direct_list");
    reveal_strlit("dns_list");
    assert(("type"@).len() == 4);
    assert(("tun_dev_name"@).len() == 12);
    assert(("tun_gateway"@).len() == 11);
    assert(("router_ip"@).len() == 9);
    assert(("original_dev_name"@).len() == 17);
    assert(("direct_list"@).len() == 11);
    assert(("dns_list"@).len() == 8);
    assert(("tun_gateway"@)[0] == 't');
    assert(("direct_list"@)[0] == 'd');
    lemma_strs_rt(m.direct_list);
        if m.direct_list.len() == 0 {
            assert(m.direct_list =~= Seq::<Seq<char>>::empty());
        }
    lemma_strs_rt(m.dns_list);
        if m.dns_list.len() == 0 {
            assert(m.dns_list =~= Seq::<Seq<char>>::empty());
        }
}

pub open spec fn pf_opt_in_auto_route(m: Map<Seq<char>, SpecValue>, n: Seq<char>, v: Option<InAutoRouteParamsV>)
    -> Map<Seq<char>, SpecValue> {
    match v {
        None => m,
        Some(e) => m.insert(n, SpecValue::Obj(enc_in_auto_route(e, Map::empty()))),
    }
}

pub open spec fn d_opt_in_auto_route(m: Map<Seq<char>, SpecValue>, n: Seq<char>) -> Result<
    Option<InAutoRouteParamsV>,
    ErrV,
> {
    match get_of(m, n) {
        None => Ok(None),
        Some(SpecValue::Obj(mm)) => match dec_in_auto_route(mm) {
            Ok(e) => Ok(Some(e)),
            Err(e) => Err(e),
        },
        Some(_) => Err(mism(n)),
    }
}

pub fn put_opt_in_auto_route(out: &mut Vec<(String, Value)>, name: &str, v: &Option<InAutoRouteParams>)
    ensures
        obj_view(final(out)@) == pf_opt_in_auto_route(obj_view(old(out)@), name@, v.deep_view()),
{
    match v {
        None => (),
        Some(e) => {
            let mut inner: Vec<(String, Value)> = Vec::new();
            proof {
                assert(obj_view(inner@) == Map::<Seq<char>, SpecValue>::empty());
            }
            encode_in_auto_route_into(&mut inner, e);
            put_val(out, name, Value::Obj(inner));
        },
    }
}

pub fn d_opt_in_auto_route_x(f: &Vec<(String, Value)>, name: &str) -> (r: Result<Option<InAutoRouteParams>, DecodeErr>)
    ensures
        dres(r) == d_opt_in_auto_route(obj_view(f@), name@),
{
    match get_field(f, name) {
        None => Ok(None),
        Some(Value::Obj(ff)) => match decode_in_auto_route(ff) {
            Ok(e) => Ok(Some(e)),
            Err(e) => Err(e),
        },
        Some(_) => Err(mism_at(name)),
    }
}

pub open spec fn enc_sockopt(m: SockOptV, base: Map<Seq<char>, SpecValue>) -> Map<
    Seq<char>,
    SpecValue,
> {
    pf_opt_str(pf_opt_u8(pf_bool(base, "tproxy"@, m.tproxy), "so_mark"@, m.so_mark), "bind_to_device"@, m.bind_to_device)
}

pub open spec fn dec_sockopt(m: Map<Seq<char>, SpecValue>) -> Result<SockOptV, ErrV> {
    let r_tproxy = d_bool(m, "tproxy"@);
    let r_so_mark = d_opt_u8(m, "so_mark"@);
    let r_bind_to_device = d_opt_str(m, "bind_to_device"@);
    if r_tproxy is Err {
        Err(r_tproxy->Err_0)
    } else if r_so_mark is Err {
        Err(r_so_mark->Err_0)
    } else if r_bind_to_device is Err {
        Err(r_bind_to_device->Err_0)
    } else {
        Ok(SockOptV { tproxy: r_tproxy->Ok_0, so_mark: r_so_mark->Ok_0, bind_to_device: r_bind_to_device->Ok_0 })
    }
}

pub fn encode_sockopt_into(out: &mut Vec<(String, Value)>, c: &SockOpt)
    ensures
        obj_view(final(out)@) == enc_sockopt(c.deep_view(), obj_view(old(out)@)),
{
    put_bool(out, "tproxy", c.tproxy);
    put_opt_u8(out, "so_mark", &c.so_mark);
    put_opt_str(out, "bind_to_device", &c.bind_to_device);
}

pub fn decode_sockopt(f: &Vec<(String, Value)>) -> (r: Result<SockOpt, DecodeErr>)
    ensures
        dres(r) == dec_sockopt(obj_view(f@)),
{
    let x_tproxy = match d_bool_x(f, "tproxy") {
        Ok(v) => v,
        Err(e) => return Err(e),
    };
    let x_so_mark = match d_opt_u8_x(f, "so_mark") {
        Ok(v) => v,
        Err(e) => return Err(e),
    };
    let x_bind_to_device = match d_opt_str_x(f, "bind_to_device") {
        Ok(v) => v,
        Err(e) => return Err(e),
    };
    Ok(SockOpt { tproxy: x_tproxy, so_mark: x_so_mark, bind_to_device: x_bind_to_device })
}

pub proof fn lemma_rt_sockopt(m: SockOptV, base: Map<Seq<char>, SpecValue>)
    requires
        forall|k: Seq<char>| base.contains_key(k) ==> k == "type"@,
    ensures
        dec_sockopt(enc_sockopt(m, base)) == Ok::<_, ErrV>(m),
        get_of(enc_sockopt(m, base), "type"@) == get_of(base, "type"@),
{
    reveal_strlit("type");
    reveal_strlit("tproxy");
    reveal_strlit("so_mark");
    reveal_strlit("bind_to_device");
    assert(("type"@).len() == 4);
    assert(("tproxy"@).len() == 6);
    assert(("so_mark"@).len() == 7);
    assert(("bind_to_device"@).len() == 14);
}

pub open spec fn pf_req_sockopt(m: Map<Seq<char>, SpecValue>, n: Seq<char>, v: SockOptV) -> Map<
    Seq<char>,
    SpecValue,
> {
    m.insert(n, SpecValue::Obj(enc_sockopt(v, Map::empty())))
}

pub open spec fn d_req_sockopt(m: Map<Seq<char>, SpecValue>, n: Seq<char>) -> Result<SockOptV, ErrV> {
    match get_of(m, n) {
        None => Err(missing(n)),
        Some(SpecValue::Obj(mm)) => dec_sockopt(mm),
        Some(_) => Err(mism(n)),
    }
}

pub fn put_req_sockopt(out: &mut Vec<(String, Value)>, name: &str, v: &SockOpt)
    ensures
        obj_view(final(out)@) == pf_req_sockopt(obj_view(old(out)@), name@, v.deep_view()),
{
    let mut inner: Vec<(String, Value)> = Vec::new();
    proof {
        assert(obj_view(inner@) == Map::<Seq<char>, SpecValue>::empty());
    }
    encode_sockopt_into(&mut inner, v);
    put_val(out, name, Value::Obj(inner));
}

pub fn d_req_sockopt_x(f: &Vec<(String, Value)>, name: &str) -> (r: Result<SockOpt, DecodeErr>)
    ensures
        dres(r) == d_req_sockopt(obj_view(f@), name@),
{
    match get_field(f, name) {
        None => Err(missing_at(name)),
        Some(Value::Obj(ff)) => decode_sockopt(ff),
        Some(_) => Err(mism_at(name)),
    }
}

pub open spec fn enc_dns(m: DnsClientConfigV, base: Map<Seq<char>, SpecValue>) -> Map<
    Seq<char>,
    SpecValue,
> {
    pf_pair_list(pf_opt_strategy(pf_servers(base, "dns_server_list"@, m.dns_server_list), "ip_strategy"@, m.ip_strategy), "static_pairs"@, m.static_pairs)
}

pub open spec fn dec_dns(m: Map<Seq<char>, SpecValue>) -> Result<DnsClientConfigV, ErrV> {
    let r_dns_server_list = d_servers(m, "dns_server_list"@);
    let r_ip_strategy = d_opt_strategy(m, "ip_strategy"@);
    let r_static_pairs = d_pair_list(m, "static_pairs"@);
    if r_dns_server_list is Err {
        Err(r_dns_server_list->Err_0)
    } else if r_ip_strategy is Err {
        Err(r_ip_strategy->Err_0)
    } else if r_static_pairs is Err {
        Err(r_static_pairs->Err_0)
    } else {
        Ok(DnsClientConfigV { dns_server_list: r_dns_server_list->Ok_0, ip_strategy: r_ip_strategy->Ok_0, static_pairs: r_static_pairs->Ok_0 })
    }
}

pub fn encode_dns_into(out: &mut Vec<(String, Value)>, c: &DnsClientConfig)
    ensures
        obj_view(final(out)@) == enc_dns(c.deep_view(), obj_view(old(out)@)),
{
    put_servers(out, "dns_server_list", &c.dns_server_list);
    put_opt_strategy(out, "ip_strategy", &c.ip_strategy);
    put_pair_list(out, "static_pairs", &c.static_pairs);
}

pub fn decode_dns(f: &Vec<(String, Value)>) -> (r: Result<DnsClientConfig, DecodeErr>)
    ensures
        dres(r) == dec_dns(obj_view(f@)),
{
    let x_dns_server_list = match d_servers_x(f, "dns_server_list") {
        Ok(v) => v,
        Err(e) => return Err(e),
    };
    let x_ip_strategy = match d_opt_strategy_x(f, "ip_strategy") {
        Ok(v) => v,
        Err(e) => return Err(e),
    };
    let x_static_pairs = match d_pair_list_x(f, "static_pairs") {
        Ok(v) => v,
        Err(e) => return Err(e),
    };
    Ok(DnsClientConfig { dns_server_list: x_dns_server_list, ip_strategy: x_ip_strategy, static_pairs: x_static_pairs })
}

pub proof fn lemma_rt_dns(m: DnsClientConfigV, base: Map<Seq<char>, SpecValue>)
    requires
        forall|k: Seq<char>| base.contains_key(k) ==> k == "type"@,
    ensures
        dec_dns(enc_dns(m, base)) == Ok::<_, ErrV>(m),
        get_of(enc_dns(m, base), "type"@) == get_of(base, "type"@),
{
    reveal_strlit("type");
    reveal_strlit("dns_server_list");
    reveal_strlit("ip_strategy");
    reveal_strlit("static_pairs");
    reveal_strlit("Udp");
    reveal_strlit("Tcp");
    reveal_strlit("Ipv4Only");
    reveal_strlit("Ipv6Only");
    reveal_strlit("Ipv4AndIpv6");
    reveal_strlit("Ipv6thenIpv4");
    reveal_strlit("Ipv4thenIpv6");
    assert(("type"@).len() == 4);
    assert(("dns_server_list"@).len() == 15);
    assert(("ip_strategy"@).len() == 11);
    assert(("static_pairs"@).len() == 12);
    assert(("Udp"@).len() == 3);
    assert(("Tcp"@).len() == 3);
    assert(("Ipv4Only"@).len() == 8);
    assert(("Ipv6Only"@).len() == 8);
    assert(("Ipv4AndIpv6"@).len() == 11);
    assert(("Ipv6thenIpv4"@).len() == 12);
    assert(("Ipv4thenIpv6"@).len() == 12);
    assert(("ip_strategy"@)[0] == 'i');
    assert(("Ipv4AndIpv6"@)[0] == 'I');
    assert(("static_pairs"@)[0] == 's');
    assert(("Ipv6thenIpv4"@)[0] == 'I');
    assert(("Ipv4thenIpv6"@)[0] == 'I');
    assert(("Udp"@)[0] == 'U');
    assert(("Tcp"@)[0] == 'T');
    assert(("Ipv4Only"@)[3] == '4');
    assert(("Ipv6Only"@)[3] == '6');
    assert(("Ipv6thenIpv4"@)[3] == '6');
    assert(("Ipv4thenIpv6"@)[3] == '4');
    lemma_servers_rt(m.dns_server_list);
        if m.dns_server_list.len() == 0 {
            assert(m.dns_server_list =~= Seq::<(Seq<char>, Protocol)>::empty());
        }
    lemma_pairs_rt(m.static_pairs);
        if m.static_pairs.len() == 0 {
            assert(m.static_pairs =~= Seq::<(Seq<char>, Seq<char>)>::empty());
        }
}

pub open spec fn pf_opt_dns(m: Map<Seq<char>, SpecValue>, n: Seq<char>, v: Option<DnsClientConfigV>)
    -> Map<Seq<char>, SpecValue> {
    match v {
        None => m,
        Some(e) => m.insert(n, SpecValue::Obj(enc_dns(e, Map::empty()))),
    }
}

pub open spec fn d_opt_dns(m: Map<Seq<char>, SpecValue>, n: Seq<char>) -> Result<
    Option<DnsClientConfigV>,
    ErrV,
> {
    match get_of(m, n) {
        None => Ok(None),
        Some(SpecValue::Obj(mm)) => match dec_dns(mm) {
            Ok(e) => Ok(Some(e)),
            Err(e) => Err(e),
        },
        Some(_) => Err(mism(n)),
    }
}

pub fn put_opt_dns(out: &mut Vec<(String, Value)>, name: &str, v: &Option<DnsClientConfig>)
    ensures
        obj_view(final(out)@) == pf_opt_dns(obj_view(old(out)@), name@, v.deep_view()),
{
    match v {
        None => (),
        Some(e) => {
            let mut inner: Vec<(String, Value)> = Vec::new();
            proof {
                assert(obj_view(inner@) == Map::<Seq<char>, SpecValue>::empty());
            }
            encode_dns_into(&mut inner, e);
            put_val(out, name, Value::Obj(inner));
        },
    }
}

pub fn d_opt_dns_x(f: &Vec<(String, Value)>, name: &str) -> (r: Result<Option<DnsClientConfig>, DecodeErr>)
    ensures
        dres(r) == d_opt_dns(obj_view(f@), name@),
{
    match get_field(f, name) {
        None => Ok(None),
        Some(Value::Obj(ff)) => match decode_dns(ff) {
            Ok(e) => Ok(Some(e)),
            Err(e) => Err(e),
        },
        Some(_) => Err(mism_at(name)),
    }
}

pub open spec fn enc_tproxy(m: TproxyOptionsV, base: Map<Seq<char>, SpecValue>) -> Map<
    Seq<char>,
    SpecValue,
> {
    pf_bool(pf_bool(pf_opt_str(pf_bool(pf_bool(pf_opt_u16(base, "port"@, m.port), "route_ipv6"@, m.route_ipv6), "proxy_local_udp_53"@, m.proxy_local_udp_53), "local_net4"@, m.local_net4), "auto_route"@, m.auto_route), "auto_route_tcp"@, m.auto_route_tcp)
}

pub open spec fn dec_tproxy(m: Map<Seq<char>, SpecValue>) -> Result<TproxyOptionsV, ErrV> {
    let r_port = d_opt_u16(m, "port"@);
    let r_route_ipv6 = d_bool(m, "route_ipv6"@);
    let r_proxy_local_udp_53 = d_bool(m, "proxy_local_udp_53"@);
    let r_local_net4 = d_opt_str(m, "local_net4"@);
    let r_auto_route = d_bool(m, "auto_route"@);
    let r_auto_route_tcp = d_bool(m, "auto_route_tcp"@);
    if r_port is Err {
        Err(r_port->Err_0)
    } else if r_route_ipv6 is Err {
        Err(r_route_ipv6->Err_0)
    } else if r_proxy_local_udp_53 is Err {
        Err(r_proxy_local_udp_53->Err_0)
    } else if r_local_net4 is Err {
        Err(r_local_net4->Err_0)
    } else if r_auto_route is Err {
        Err(r_auto_route->Err_0)
    } else if r_auto_route_tcp is Err {
        Err(r_auto_route_tcp->Err_0)
    } else {
        Ok(TproxyOptionsV { port: r_port->Ok_0, route_ipv6: r_route_ipv6->Ok_0, proxy_local_udp_53: r_proxy_local_udp_53->Ok_0, local_net4: r_local_net4->Ok_0, auto_route: r_auto_route->Ok_0, auto_route_tcp: r_auto_route_tcp->Ok_0 })
    }
}

pub fn encode_tproxy_into(out: &mut Vec<(String, Value)>, c: &TproxyOptions)
    ensures
        obj_view(final(out)@) == enc_tproxy(c.deep_view(), obj_view(old(out)@)),
{
    put_opt_u16(out, "port", &c.port);
    put_bool(out, "route_ipv6", c.route_ipv6);
    put_bool(out, "proxy_local_udp_53", c.proxy_local_udp_53);
    put_opt_str(out, "local_net4", &c.local_net4);
    put_bool(out, "auto_route", c.auto_route);
    put_bool(out, "auto_route_tcp", c.auto_route_tcp);
}

pub fn decode_tproxy(f: &Vec<(String, Value)>) -> (r: Result<TproxyOptions, DecodeErr>)
    ensures
        dres(r) == dec_tproxy(obj_view(f@)),
{
    let x_port = match d_opt_u16_x(f, "port") {
        Ok(v) => v,
        Err(e) => return Err(e),
    };
    let x_route_ipv6 = match d_bool_x(f, "route_ipv6") {
        Ok(v) => v,
        Err(e) => return Err(e),
    };
    let x_proxy_local_udp_53 = match d_bool_x(f, "proxy_local_udp_53") {
        Ok(v) => v,
        Err(e) => return Err(e),
    };
    let x_local_net4 = match d_opt_str_x(f, "local_net4") {
        Ok(v) => v,
        Err(e) => return Err(e),
    };
    let x_auto_route = match d_bool_x(f, "auto_route") {
        Ok(v) => v,
        Err(e) => return Err(e),
    };
    let x_auto_route_tcp = match d_bool_x(f, "auto_route_tcp") {
        Ok(v) => v,
        Err(e) => return Err(e),
    };
    Ok(TproxyOptions { port: x_port, route_ipv6: x_route_ipv6, proxy_local_udp_53: x_proxy_local_udp_53, local_net4: x_local_net4, auto_route: x_auto_route, auto_route_tcp: x_auto_route_tcp })
}

pub proof fn lemma_rt_tproxy(m: TproxyOptionsV, base: Map<Seq<char>, SpecValue>)
    requires
        forall|k: Seq<char>| base.contains_key(k) ==> k == "type"@,
    ensures
        dec_tproxy(enc_tproxy(m, base)) == Ok::<_, ErrV>(m),
        get_of(enc_tproxy(m, base), "type"@) == get_of(base, "type"@),
{
    reveal_strlit("type");
    reveal_strlit("port");
    reveal_strlit("route_ipv6");
    reveal_strlit("proxy_local_udp_53");
    reveal_strlit("local_net4");
    reveal_strlit("auto_route");
    reveal_strlit("auto_route_tcp");
    assert(("type"@).len() == 4);
    assert(("port"@).len() == 4);
    assert(("route_ipv6"@).len() == 10);
    assert(("proxy_local_udp_53"@).len() == 18);
    assert(("local_net4"@).len() == 10);
    assert(("auto_route"@).len() == 10);
    assert(("auto_route_tcp"@).len() == 14);
    assert(("type"@)[0] == 't');
    assert(("port"@)[0] == 'p');
    assert(("route_ipv6"@)[0] == 'r');
    assert(("local_net4"@)[0] == 'l');
    assert(("auto_route"@)[0] == 'a');
}

pub open spec fn enc_recorder(m: RecorderConfigV, base: Map<Seq<char>, SpecValue>) -> Map<
    Seq<char>,
    SpecValue,
> {
    pf_session_trunc(pf_piece_trunc(pf_bool(pf_record_mode(pf_out_format(pf_file_ext(pf_opt_str(pf_opt_str(base, "label"@, m.label), "output_dir"@, m.output_dir), "output_file_extension"@, m.output_file_extension), "output_format"@, m.output_format), "record_mode"@, m.record_mode), "prettify"@, m.prettify), "piece_truncate_option"@, m.piece_truncate_option), "session_truncate_option"@, m.session_truncate_option)
}

pub open spec fn dec_recorder(m: Map<Seq<char>, SpecValue>) -> Result<RecorderConfigV, ErrV> {
    let r_label = d_opt_str(m, "label"@);
    let r_output_dir = d_opt_str(m, "output_dir"@);
    let r_output_file_extension = d_file_ext(m, "output_file_extension"@);
    let r_output_format = d_out_format(m, "output_format"@);
    let r_record_mode = d_record_mode(m, "record_mode"@);
    let r_prettify = d_bool(m, "prettify"@);
    let r_piece_truncate_option = d_piece_trunc(m, "piece_truncate_option"@);
    let r_session_truncate_option = d_session_trunc(m, "session_truncate_option"@);
    if r_label is Err {
        Err(r_label->Err_0)
    } else if r_output_dir is Err {
        Err(r_output_dir->Err_0)
    } else if r_output_file_extension is Err {
        Err(r_output_file_extension->Err_0)
    } else if r_output_format is Err {
        Err(r_output_format->Err_0)
    } else if r_record_mode is Err {
        Err(r_record_mode->Err_0)
    } else if r_prettify is Err {
        Err(r_prettify->Err_0)
    } else if r_piece_truncate_option is Err {
        Err(r_piece_truncate_option->Err_0)
    } else if r_session_truncate_option is Err {
        Err(r_session_truncate_option->Err_0)
    } else {
        Ok(RecorderConfigV { label: r_label->Ok_0, output_dir: r_output_dir->Ok_0, output_file_extension: r_output_file_extension->Ok_0, output_format: r_output_format->Ok_0, record_mode: r_record_mode->Ok_0, prettify: r_prettify->Ok_0, piece_truncate_option: r_piece_truncate_option->Ok_0, session_truncate_option: r_session_truncate_option->Ok_0 })
    }
}

pub fn encode_recorder_into(out: &mut Vec<(String, Value)>, c: &RecorderConfig)
    ensures
        obj_view(final(out)@) == enc_recorder(c.deep_view(), obj_view(old(out)@)),
{
    put_opt_str(out, "label", &c.label);
    put_opt_str(out, "output_dir", &c.output_dir);
    put_file_ext(out, "output_file_extension", c.output_file_extension);
    put_out_format(out, "output_format", c.output_format);
    put_record_mode(out, "record_mode", c.record_mode);
    put_bool(out, "prettify", c.prettify);
    put_piece_trunc(out, "piece_truncate_option", c.piece_truncate_option);
    put_session_trunc(out, "session_truncate_option", c.session_truncate_option);
}

pub fn decode_recorder(f: &Vec<(String, Value)>) -> (r: Result<RecorderConfig, DecodeErr>)
    ensures
        dres(r) == dec_recorder(obj_view(f@)),
{
    let x_label = match d_opt_str_x(f, "label") {
        Ok(v) => v,
        Err(e) => return Err(e),
    };
    let x_output_dir = match d_opt_str_x(f, "output_dir") {
        Ok(v) => v,
        Err(e) => return Err(e),
    };
    let x_output_file_extension = match d_file_ext_x(f, "output_file_extension") {
        Ok(v) => v,
        Err(e) => return Err(e),
    };
    let x_output_format = match d_out_format_x(f, "output_format") {
        Ok(v) => v,
        Err(e) => return Err(e),
    };
    let x_record_mode = match d_record_mode_x(f, "record_mode") {
        Ok(v) => v,
        Err(e) => return Err(e),
    };
    let x_prettify = match d_bool_x(f, "prettify") {
        Ok(v) => v,
        Err(e) => return Err(e),
    };
    let x_piece_truncate_option = match d_piece_trunc_x(f, "piece_truncate_option") {
        Ok(v) => v,
        Err(e) => return Err(e),
    };
    let x_session_truncate_option = match d_session_trunc_x(f, "session_truncate_option") {
        Ok(v) => v,
        Err(e) => return Err(e),
    };
    Ok(RecorderConfig { label: x_label, output_dir: x_output_dir, output_file_extension: x_output_file_extension, output_format: x_output_format, record_mode: x_record_mode, prettify: x_prettify, piece_truncate_option: x_piece_truncate_option, session_truncate_option: x_session_truncate_option })
}

pub proof fn lemma_rt_recorder(m: RecorderConfigV, base: Map<Seq<char>, SpecValue>)
    requires
        forall|k: Seq<char>| base.contains_key(k) ==> k == "type"@,
    ensures
        dec_recorder(enc_recorder(m, base)) == Ok::<_, ErrV>(m),
        get_of(enc_recorder(m, base), "type"@) == get_of(base, "type"@),
{
    reveal_strlit("type");
    reveal_strlit("label");
    reveal_strlit("output_dir");
    reveal_strlit("output_file_extension");
    reveal_strlit("output_format");
    reveal_strlit("record_mode");
    reveal_strlit("prettify");
    reveal_strlit("piece_truncate_option");
    reveal_strlit("session_truncate_option");
    reveal_strlit("json");
    reveal_strlit("cbor");
    reveal_strlit("ruci");
    reveal_strlit("har");
    reveal_strlit("full");
    reveal_strlit("simplified");
    reveal_strlit("info");
    reveal_strlit("no-truncate");
    reveal_strlit("piece-truncate");
    reveal_strlit("session-truncate");
    assert(("type"@).len() == 4);
    assert(("label"@).len() == 5);
    assert(("output_dir"@).len() == 10);
    assert(("output_file_extension"@).len() == 21);
    assert(("output_format"@).len() == 13);
    assert(("record_mode"@).len() == 11);
    assert(("prettify"@).len() == 8);
    assert(("piece_truncate_option"@).len() == 21);
    assert(("session_truncate_option"@).len() == 23);
    assert(("json"@).len() == 4);
    assert(("cbor"@).len() == 4);
    assert(("ruci"@).len() == 4);
    assert(("har"@).len() == 3);
    assert(("full"@).len() == 4);
    assert(("simplified"@).len() == 10);
    assert(("info"@).len() == 4);
    assert(("no-truncate"@).len() == 11);
    assert(("piece-truncate"@).len() == 14);
    assert(("session-truncate"@).len() == 16);
    assert(("type"@)[0] == 't');
    assert(("json"@)[0] == 'j');
    assert(("cbor"@)[0] == 'c');
    assert(("ruci"@)[0] == 'r');
    assert(("full"@)[0] == 'f');
    assert(("info"@)[0] == 'i');
    assert(("output_dir"@)[0] == 'o');
    assert(("simplified"@)[0] == 's');
    assert(("output_file_extension"@)[0] == 'o');
    assert(("piece_truncate_option"@)[0] == 'p');
    assert(("record_mode"@)[0] == 'r');
    assert(("no-truncate"@)[0] == 'n');
}

pub open spec fn enc_common(m: CommonConfigV, base: Map<Seq<char>, SpecValue>) -> Map<
    Seq<char>,
    SpecValue,
> {
    pf_bool(pf_pair_list(pf_req_str(pf_req_str(pf_opt_str(pf_opt_str(base, "method"@, m.method), "scheme"@, m.scheme), "authority"@, m.authority), "path"@, m.path), "headers"@, m.headers), "use_early_data"@, m.use_early_data)
}

pub open spec fn dec_common(m: Map<Seq<char>, SpecValue>) -> Result<CommonConfigV, ErrV> {
    let r_method = d_opt_str(m, "method"@);
    let r_scheme = d_opt_str(m, "scheme"@);
    let r_authority = d_req_str(m, "authority"@);
    let r_path = d_req_str(m, "path"@);
    let r_headers = d_pair_list(m, "headers"@);
    let r_use_early_data = d_bool(m, "use_early_data"@);
    if r_method is Err {
        Err(r_method->Err_0)
    } else if r_scheme is Err {
        Err(r_scheme->Err_0)
    } else if r_authority is Err {
        Err(r_authority->Err_0)
    } else if r_path is Err {
        Err(r_path->Err_0)
    } else if r_headers is Err {
        Err(r_headers->Err_0)
    } else if r_use_early_data is Err {
        Err(r_use_early_data->Err_0)
    } else {
        Ok(CommonConfigV { method: r_method->Ok_0, scheme: r_scheme->Ok_0, authority: r_authority->Ok_0, path: r_path->Ok_0, headers: r_headers->Ok_0, use_early_data: r_use_early_data->Ok_0 })
    }
}

pub fn encode_common_into(out: &mut Vec<(String, Value)>, c: &CommonConfig)
    ensures
        obj_view(final(out)@) == enc_common(c.deep_view(), obj_view(old(out)@)),
{
    put_opt_str(out, "method", &c.method);
    put_opt_str(out, "scheme", &c.scheme);
    put_req_str(out, "authority", &c.authority);
    put_req_str(out, "path", &c.path);
    put_pair_list(out, "headers", &c.headers);
    put_bool(out, "use_early_data", c.use_early_data);
}

pub fn decode_common(f: &Vec<(String, Value)>) -> (r: Result<CommonConfig, DecodeErr>)
    ensures
        dres(r) == dec_common(obj_view(f@)),
{
    let x_method = match d_opt_str_x(f, "method") {
        Ok(v) => v,
        Err(e) => return Err(e),
    };
    let x_scheme = match d_opt_str_x(f, "scheme") {
        Ok(v) => v,
        Err(e) => return Err(e),
    };
    let x_authority = match d_req_str_x(f, "authority") {
        Ok(v) => v,
        Err(e) => return Err(e),
    };
    let x_path = match d_req_str_x(f, "path") {
        Ok(v) => v,
        Err(e) => return Err(e),
    };
    let x_headers = match d_pair_list_x(f, "headers") {
        Ok(v) => v,
        Err(e) => return Err(e),
    };
    let x_use_early_data = match d_bool_x(f, "use_early_data") {
        Ok(v) => v,
        Err(e) => return Err(e),
    };
    Ok(CommonConfig { method: x_method, scheme: x_scheme, authority: x_authority, path: x_path, headers: x_headers, use_early_data: x_use_early_data })
}

pub proof fn lemma_rt_common(m: CommonConfigV, base: Map<Seq<char>, SpecValue>)
    requires
        forall|k: Seq<char>| base.contains_key(k) ==> k == "type"@,
    ensures
        dec_common(enc_common(m, base)) == Ok::<_, ErrV>(m),
        get_of(enc_common(m, base), "type"@) == get_of(base, "type"@),
{
    reveal_strlit("type");
    reveal_strlit("method");
    reveal_strlit("scheme");
    reveal_strlit("authority");
    reveal_strlit("path");
    reveal_strlit("headers");
    reveal_strlit("use_early_data");
    assert(("type"@).len() == 4);
    assert(("method"@).len() == 6);
    assert(("scheme"@).len() == 6);
    assert(("authority"@).len() == 9);
    assert(("path"@).len() == 4);
    assert(("headers"@).len() == 7);
    assert(("use_early_data"@).len() == 14);
    assert(("type"@)[0] == 't');
    assert(("path"@)[0] == 'p');
    assert(("method"@)[0] == 'm');
    assert(("scheme"@)[0] == 's');
    lemma_pairs_rt(m.headers);
        if m.headers.len() == 0 {
            assert(m.headers =~= Seq::<(Seq<char>, Seq<char>)>::empty());
        }
}

pub open spec fn pf_opt_common(m: Map<Seq<char>, SpecValue>, n: Seq<char>, v: Option<CommonConfigV>)
    -> Map<Seq<char>, SpecValue> {
    match v {
        None => m,
        Some(e) => m.insert(n, SpecValue::Obj(enc_common(e, Map::empty()))),
    }
}

pub open spec fn d_opt_common(m: Map<Seq<char>, SpecValue>, n: Seq<char>) -> Result<
    Option<CommonConfigV>,
    ErrV,
> {
    match get_of(m, n) {
        None => Ok(None),
        Some(SpecValue::Obj(mm)) => match dec_common(mm) {
            Ok(e) => Ok(Some(e)),
            Err(e) => Err(e),
        },
        Some(_) => Err(mism(n)),
    }
}

pub fn put_opt_common(out: &mut Vec<(String, Value)>, name: &str, v: &Option<CommonConfig>)
    ensures
        obj_view(final(out)@) == pf_opt_common(obj_view(old(out)@), name@, v.deep_view()),
{
    match v {
        None => (),
        Some(e) => {
            let mut inner: Vec<(String, Value)> = Vec::new();
            proof {
                assert(obj_view(inner@) == Map::<Seq<char>, SpecValue>::empty());
            }
            encode_common_into(&mut inner, e);
            put_val(out, name, Value::Obj(inner));
        },
    }
}

pub fn d_opt_common_x(f: &Vec<(String, Value)>, name: &str) -> (r: Result<Option<CommonConfig>, DecodeErr>)
    ensures
        dres(r) == d_opt_common(obj_view(f@), name@),
{
    match get_field(f, name) {
        None => Ok(None),
        Some(Value::Obj(ff)) => match decode_common(ff) {
            Ok(e) => Ok(Some(e)),
            Err(e) => Err(e),
        },
        Some(_) => Err(mism_at(name)),
    }
}

pub open spec fn enc_tls_server(m: TlsServerOptionsV, base: Map<Seq<char>, SpecValue>) -> Map<
    Seq<char>,
    SpecValue,
> {
    pf_str_list(pf_req_str(pf_req_str(base, "cert"@, m.cert), "key"@, m.key), "alpn"@, m.alpn)
}

pub open spec fn dec_tls_server(m: Map<Seq<char>, SpecValue>) -> Result<TlsServerOptionsV, ErrV> {
    let r_cert = d_req_str(m, "cert"@);
    let r_key = d_req_str(m, "key"@);
    let r_alpn = d_str_list(m, "alpn"@);
    if r_cert is Err {
        Err(r_cert->Err_0)
    } else if r_key is Err {
        Err(r_key->Err_0)
    } else if r_alpn is Err {
        Err(r_alpn->Err_0)
    } else {
        Ok(TlsServerOptionsV { cert: r_cert->Ok_0, key: r_key->Ok_0, alpn: r_alpn->Ok_0 })
    }
}

pub fn encode_tls_server_into(out: &mut Vec<(String, Value)>, c: &TlsServerOptions)
    ensures
        obj_view(final(out)@) == enc_tls_server(c.deep_view(), obj_view(old(out)@)),
{
    put_req_str(out, "cert", &c.cert);
    put_req_str(out, "key", &c.key);
    put_str_list(out, "alpn", &c.alpn);
}

pub fn decode_tls_server(f: &Vec<(String, Value)>) -> (r: Result<TlsServerOptions, DecodeErr>)
    ensures
        dres(r) == dec_tls_server(obj_view(f@)),
{
    let x_cert = match d_req_str_x(f, "cert") {
        Ok(v) => v,
        Err(e) => return Err(e),
    };
    let x_key = match d_req_str_x(f, "key") {
        Ok(v) => v,
        Err(e) => return Err(e),
    };
    let x_alpn = match d_str_list_x(f, "alpn") {
        Ok(v) => v,
        Err(e) => return Err(e),
    };
    Ok(TlsServerOptions { cert: x_cert, key: x_key, alpn: x_alpn })
}

pub proof fn lemma_rt_tls_server(m: TlsServerOptionsV, base: Map<Seq<char>, SpecValue>)
    requires
        forall|k: Seq<char>| base.contains_key(k) ==> k == "type"@,
    ensures
        dec_tls_server(enc_tls_server(m, base)) == Ok::<_, ErrV>(m),
        get_of(enc_tls_server(m, base), "type"@) == get_of(base, "type"@),
{
    reveal_strlit("type");
    reveal_strlit("cert");
    reveal_strlit("key");
    reveal_strlit("alpn");
    assert(("type"@).len() == 4);
    assert(("cert"@).len() == 4);
    assert(("key"@).len() == 3);
    assert(("alpn"@).len() == 4);
    assert(("type"@)[0] == 't');
    assert(("cert"@)[0] == 'c');
    assert(("alpn"@)[0] == 'a');
    lemma_strs_rt(m.alpn);
        if m.alpn.len() == 0 {
            assert(m.alpn =~= Seq::<Seq<char>>::empty());
        }
}

pub open spec fn enc_tls_client(m: TlsClientOptionsV, base: Map<Seq<char>, SpecValue>) -> Map<
    Seq<char>,
    SpecValue,
> {
    pf_opt_str(pf_str_list(pf_bool(pf_opt_str(base, "host"@, m.host), "insecure"@, m.insecure), "alpn"@, m.alpn), "cert"@, m.cert)
}

pub open spec fn dec_tls_client(m: Map<Seq<char>, SpecValue>) -> Result<TlsClientOptionsV, ErrV> {
    let r_host = d_opt_str(m, "host"@);
    let r_insecure = d_bool(m, "insecure"@);
    let r_alpn = d_str_list(m, "alpn"@);
    let r_cert = d_opt_str(m, "cert"@);
    if r_host is Err {
        Err(r_host->Err_0)
    } else if r_insecure is Err {
        Err(r_insecure->Err_0)
    } else if r_alpn is Err {
        Err(r_alpn->Err_0)
    } else if r_cert is Err {
        Err(r_cert->Err_0)
    } else {
        Ok(TlsClientOptionsV { host: r_host->Ok_0, insecure: r_insecure->Ok_0, alpn: r_alpn->Ok_0, cert: r_cert->Ok_0 })
    }
}

pub fn encode_tls_client_into(out: &mut Vec<(String, Value)>, c: &TlsClientOptions)
    ensures
        obj_view(final(out)@) == enc_tls_client(c.deep_view(), obj_view(old(out)@)),
{
    put_opt_str(out, "host", &c.host);
    put_bool(out, "insecure", c.insecure);
    put_str_list(out, "alpn", &c.alpn);
    put_opt_str(out, "cert", &c.cert);
}

pub fn decode_tls_client(f: &Vec<(String, Value)>) -> (r: Result<TlsClientOptions, DecodeErr>)
    ensures
        dres(r) == dec_tls_client(obj_view(f@)),
{
    let x_host = match d_opt_str_x(f, "host") {
        Ok(v) => v,
        Err(e) => return Err(e),
    };
    let x_insecure = match d_bool_x(f, "insecure") {
        Ok(v) => v,
        Err(e) => return Err(e),
    };
    let x_alpn = match d_str_list_x(f, "alpn") {
        Ok(v) => v,
        Err(e) => return Err(e),
    };
    let x_cert = match d_opt_str_x(f, "cert") {
        Ok(v) => v,
        Err(e) => return Err(e),
    };
    Ok(TlsClientOptions { host: x_host, insecure: x_insecure, alpn: x_alpn, cert: x_cert })
}

pub proof fn lemma_rt_tls_client(m: TlsClientOptionsV, base: Map<Seq<char>, SpecValue>)
    requires
        forall|k: Seq<char>| base.contains_key(k) ==> k == "type"@,
    ensures
        dec_tls_client(enc_tls_client(m, base)) == Ok::<_, ErrV>(m),
        get_of(enc_tls_client(m, base), "type"@) == get_of(base, "type"@),
{
    reveal_strlit("type");
    reveal_strlit("host");
    reveal_strlit("insecure");
    reveal_strlit("alpn");
    reveal_strlit("cert");
    assert(("type"@).len() == 4);
    assert(("host"@).len() == 4);
    assert(("insecure"@).len() == 8);
    assert(("alpn"@).len() == 4);
    assert(("cert"@).len() == 4);
    assert(("type"@)[0] == 't');
    assert(("host"@)[0] == 'h');
    assert(("alpn"@)[0] == 'a');
    assert(("cert"@)[0] == 'c');
    lemma_strs_rt(m.alpn);
        if m.alpn.len() == 0 {
            assert(m.alpn =~= Seq::<Seq<char>>::empty());
        }
}

pub open spec fn enc_trojan(m: TrojanConfigV, base: Map<Seq<char>, SpecValue>) -> Map<
    Seq<char>,
    SpecValue,
> {
    pf_str_list(pf_opt_str(base, "password"@, m.password), "more"@, m.more)
}

pub open spec fn dec_trojan(m: Map<Seq<char>, SpecValue>) -> Result<TrojanConfigV, ErrV> {
    let r_password = d_opt_str(m, "password"@);
    let r_more = d_str_list(m, "more"@);
    if r_password is Err {
        Err(r_password->Err_0)
    } else if r_more is Err {
        Err(r_more->Err_0)
    } else {
        Ok(TrojanConfigV { password: r_password->Ok_0, more: r_more->Ok_0 })
    }
}

pub fn encode_trojan_into(out: &mut Vec<(String, Value)>, c: &TrojanConfig)
    ensures
        obj_view(final(out)@) == enc_trojan(c.deep_view(), obj_view(old(out)@)),
{
    put_opt_str(out, "password", &c.password);
    put_str_list(out, "more", &c.more);
}

pub fn decode_trojan(f: &Vec<(String, Value)>) -> (r: Result<TrojanConfig, DecodeErr>)
    ensures
        dres(r) == dec_trojan(obj_view(f@)),
{
    let x_password = match d_opt_str_x(f, "password") {
        Ok(v) => v,
        Err(e) => return Err(e),
    };
    let x_more = match d_str_list_x(f, "more") {
        Ok(v) => v,
        Err(e) => return Err(e),
    };
    Ok(TrojanConfig { password: x_password, more: x_more })
}

pub proof fn lemma_rt_trojan(m: TrojanConfigV, base: Map<Seq<char>, SpecValue>)
    requires
        forall|k: Seq<char>| base.contains_key(k) ==> k == "type"@,
    ensures
        dec_trojan(enc_trojan(m, base)) == Ok::<_, ErrV>(m),
        get_of(enc_trojan(m, base), "type"@) == get_of(base, "type"@),
{
    reveal_strlit("type");
    reveal_strlit("password");
    reveal_strlit("more");
    assert(("type"@).len() == 4);
    assert(("password"@).len() == 8);
    assert(("more"@).len() == 4);
    assert(("type"@)[0] == 't');
    assert(("more"@)[0] == 'm');
    lemma_strs_rt(m.more);
        if m.more.len() == 0 {
            assert(m.more =~= Seq::<Seq<char>>::empty());
        }
}

pub open spec fn enc_trojan_pass(m: TrojanPassSetV, base: Map<Seq<char>, SpecValue>) -> Map<
    Seq<char>,
    SpecValue,
> {
    pf_str_list(pf_opt_str(base, "password"@, m.password), "more"@, m.more)
}

pub open spec fn dec_trojan_pass(m: Map<Seq<char>, SpecValue>) -> Result<TrojanPassSetV, ErrV> {
    let r_password = d_opt_str(m, "password"@);
    let r_more = d_str_list(m, "more"@);
    if r_password is Err {
        Err(r_password->Err_0)
    } else if r_more is Err {
        Err(r_more->Err_0)
    } else {
        Ok(TrojanPassSetV { password: r_password->Ok_0, more: r_more->Ok_0 })
    }
}

pub fn encode_trojan_pass_into(out: &mut Vec<(String, Value)>, c: &TrojanPassSet)
    ensures
        obj_view(final(out)@) == enc_trojan_pass(c.deep_view(), obj_view(old(out)@)),
{
    put_opt_str(out, "password", &c.password);
    put_str_list(out, "more", &c.more);
}

pub fn decode_trojan_pass(f: &Vec<(String, Value)>) -> (r: Result<TrojanPassSet, DecodeErr>)
    ensures
        dres(r) == dec_trojan_pass(obj_view(f@)),
{
    let x_password = match d_opt_str_x(f, "password") {
        Ok(v) => v,
        Err(e) => return Err(e),
    };
    let x_more = match d_str_list_x(f, "more") {
        Ok(v) => v,
        Err(e) => return Err(e),
    };
    Ok(TrojanPassSet { password: x_password, more: x_more })
}

pub proof fn lemma_rt_trojan_pass(m: TrojanPassSetV, base: Map<Seq<char>, SpecValue>)
    requires
        forall|k: Seq<char>| base.contains_key(k) ==> k == "type"@,
    ensures
        dec_trojan_pass(enc_trojan_pass(m, base)) == Ok::<_, ErrV>(m),
        get_of(enc_trojan_pass(m, base), "type"@) == get_of(base, "type"@),
{
    reveal_strlit("type");
    reveal_strlit("password");
    reveal_strlit("more");
    assert(("type"@).len() == 4);
    assert(("password"@).len() == 8);
    assert(("more"@).len() == 4);
    assert(("type"@)[0] == 't');
    assert(("more"@)[0] == 'm');
    lemma_strs_rt(m.more);
        if m.more.len() == 0 {
            assert(m.more =~= Seq::<Seq<char>>::empty());
        }
}

pub open spec fn enc_trojan_client(m: TrojanClientConfigV, base: Map<Seq<char>, SpecValue>) -> Map<
    Seq<char>,
    SpecValue,
> {
    pf_bool(pf_opt_str(base, "password"@, m.password), "do_not_use_early_data"@, m.do_not_use_early_data)
}

pub open spec fn dec_trojan_client(m: Map<Seq<char>, SpecValue>) -> Result<TrojanClientConfigV, ErrV> {
    let r_password = d_opt_str(m, "password"@);
    let r_do_not_use_early_data = d_bool(m, "do_not_use_early_data"@);
    if r_password is Err {
        Err(r_password->Err_0)
    } else if r_do_not_use_early_data is Err {
        Err(r_do_not_use_early_data->Err_0)
    } else {
        Ok(TrojanClientConfigV { password: r_password->Ok_0, do_not_use_early_data: r_do_not_use_early_data->Ok_0 })
    }
}

pub fn encode_trojan_client_into(out: &mut Vec<(String, Value)>, c: &TrojanClientConfig)
    ensures
        obj_view(final(out)@) == enc_trojan_client(c.deep_view(), obj_view(old(out)@)),
{
    put_opt_str(out, "password", &c.password);
    put_bool(out, "do_not_use_early_data", c.do_not_use_early_data);
}

pub fn decode_trojan_client(f: &Vec<(String, Value)>) -> (r: Result<TrojanClientConfig, DecodeErr>)
    ensures
        dres(r) == dec_trojan_client(obj_view(f@)),
{
    let x_password = match d_opt_str_x(f, "password") {
        Ok(v) => v,
        Err(e) => return Err(e),
    };
    let x_do_not_use_early_data = match d_bool_x(f, "do_not_use_early_data") {
        Ok(v) => v,
        Err(e) => return Err(e),
    };
    Ok(TrojanClientConfig { password: x_password, do_not_use_early_data: x_do_not_use_early_data })
}

pub proof fn lemma_rt_trojan_client(m: TrojanClientConfigV, base: Map<Seq<char>, SpecValue>)
    requires
        forall|k: Seq<char>| base.contains_key(k) ==> k == "type"@,
    ensures
        dec_trojan_client(enc_trojan_client(m, base)) == Ok::<_, ErrV>(m),
        get_of(enc_trojan_client(m, base), "type"@) == get_of(base, "type"@),
{
    reveal_strlit("type");
    reveal_strlit("password");
    reveal_strlit("do_not_use_early_data");
    assert(("type"@).len() == 4);
    assert(("password"@).len() == 8);
    assert(("do_not_use_early_data"@).len() == 21);
}

pub open spec fn enc_plain_text(m: PlainTextPassSetV, base: Map<Seq<char>, SpecValue>) -> Map<
    Seq<char>,
    SpecValue,
> {
    pf_str_list(pf_opt_str(base, "userpass"@, m.userpass), "more"@, m.more)
}

pub open spec fn dec_plain_text(m: Map<Seq<char>, SpecValue>) -> Result<PlainTextPassSetV, ErrV> {
    let r_userpass = d_opt_str(m, "userpass"@);
    let r_more = d_str_list(m, "more"@);
    if r_userpass is Err {
        Err(r_userpass->Err_0)
    } else if r_more is Err {
        Err(r_more->Err_0)
    } else {
        Ok(PlainTextPassSetV { userpass: r_userpass->Ok_0, more: r_more->Ok_0 })
    }
}

pub fn encode_plain_text_into(out: &mut Vec<(String, Value)>, c: &PlainTextPassSet)
    ensures
        obj_view(final(out)@) == enc_plain_text(c.deep_view(), obj_view(old(out)@)),
{
    put_opt_str(out, "userpass", &c.userpass);
    put_str_list(out, "more", &c.more);
}

pub fn decode_plain_text(f: &Vec<(String, Value)>) -> (r: Result<PlainTextPassSet, DecodeErr>)
    ensures
        dres(r) == dec_plain_text(obj_view(f@)),
{
    let x_userpass = match d_opt_str_x(f, "userpass") {
        Ok(v) => v,
        Err(e) => return Err(e),
    };
    let x_more = match d_str_list_x(f, "more") {
        Ok(v) => v,
        Err(e) => return Err(e),
    };
    Ok(PlainTextPassSet { userpass: x_userpass, more: x_more })
}

pub proof fn lemma_rt_plain_text(m: PlainTextPassSetV, base: Map<Seq<char>, SpecValue>)
    requires
        forall|k: Seq<char>| base.contains_key(k) ==> k == "type"@,
    ensures
        dec_plain_text(enc_plain_text(m, base)) == Ok::<_, ErrV>(m),
        get_of(enc_plain_text(m, base), "type"@) == get_of(base, "type"@),
{
    reveal_strlit("type");
    reveal_strlit("userpass");
    reveal_strlit("more");
    assert(("type"@).len() == 4);
    assert(("userpass"@).len() == 8);
    assert(("more"@).len() == 4);
    assert(("type"@)[0] == 't');
    assert(("more"@)[0] == 'm');
    lemma_strs_rt(m.more);
        if m.more.len() == 0 {
            assert(m.more =~= Seq::<Seq<char>>::empty());
        }
}

pub open spec fn enc_socks5_out(m: Socks5OutV, base: Map<Seq<char>, SpecValue>) -> Map<
    Seq<char>,
    SpecValue,
> {
    pf_opt_ext(pf_bool(pf_opt_str(base, "userpass"@, m.userpass), "early_data"@, m.early_data), "ext"@, m.ext)
}

pub open spec fn dec_socks5_out(m: Map<Seq<char>, SpecValue>) -> Result<Socks5OutV, ErrV> {
    let r_userpass = d_opt_str(m, "userpass"@);
    let r_early_data = d_bool(m, "early_data"@);
    let r_ext = d_opt_ext(m, "ext"@);
    if r_userpass is Err {
        Err(r_userpass->Err_0)
    } else if r_early_data is Err {
        Err(r_early_data->Err_0)
    } else if r_ext is Err {
        Err(r_ext->Err_0)
    } else {
        Ok(Socks5OutV { userpass: r_userpass->Ok_0, early_data: r_early_data->Ok_0, ext: r_ext->Ok_0 })
    }
}

pub fn encode_socks5_out_into(out: &mut Vec<(String, Value)>, c: &Socks5Out)
    ensures
        obj_view(final(out)@) == enc_socks5_out(c.deep_view(), obj_view(old(out)@)),
{
    put_opt_str(out, "userpass", &c.userpass);
    put_bool(out, "early_data", c.early_data);
    put_opt_ext(out, "ext", &c.ext);
}

pub fn decode_socks5_out(f: &Vec<(String, Value)>) -> (r: Result<Socks5Out, DecodeErr>)
    ensures
        dres(r) == dec_socks5_out(obj_view(f@)),
{
    let x_userpass = match d_opt_str_x(f, "userpass") {
        Ok(v) => v,
        Err(e) => return Err(e),
    };
    let x_early_data = match d_bool_x(f, "early_data") {
        Ok(v) => v,
        Err(e) => return Err(e),
    };
    let x_ext = match d_opt_ext_x(f, "ext") {
        Ok(v) => v,
        Err(e) => return Err(e),
    };
    Ok(Socks5Out { userpass: x_userpass, early_data: x_early_data, ext: x_ext })
}

pub proof fn lemma_rt_socks5_out(m: Socks5OutV, base: Map<Seq<char>, SpecValue>)
    requires
        forall|k: Seq<char>| base.contains_key(k) ==> k == "type"@,
    ensures
        dec_socks5_out(enc_socks5_out(m, base)) == Ok::<_, ErrV>(m),
        get_of(enc_socks5_out(m, base), "type"@) == get_of(base, "type"@),
{
    reveal_strlit("type");
    reveal_strlit("userpass");
    reveal_strlit("early_data");
    reveal_strlit("ext");
    assert(("type"@).len() == 4);
    assert(("userpass"@).len() == 8);
    assert(("early_data"@).len() == 10);
    assert(("ext"@).len() == 3);
    match m.ext {
        Some(e) => lemma_rt_ext(e, Map::empty()),
        None => (),
    }
}

pub open spec fn enc_stdio(m: StdioConfigV, base: Map<Seq<char>, SpecValue>) -> Map<
    Seq<char>,
    SpecValue,
> {
    pf_opt_ext(pf_write_mode(base, "write_mode"@, m.write_mode), "ext"@, m.ext)
}

pub open spec fn dec_stdio(m: Map<Seq<char>, SpecValue>) -> Result<StdioConfigV, ErrV> {
    let r_write_mode = d_write_mode(m, "write_mode"@);
    let r_ext = d_opt_ext(m, "ext"@);
    if r_write_mode is Err {
        Err(r_write_mode->Err_0)
    } else if r_ext is Err {
        Err(r_ext->Err_0)
    } else {
        Ok(StdioConfigV { write_mode: r_write_mode->Ok_0, ext: r_ext->Ok_0 })
    }
}

pub fn encode_stdio_into(out: &mut Vec<(String, Value)>, c: &StdioConfig)
    ensures
        obj_view(final(out)@) == enc_stdio(c.deep_view(), obj_view(old(out)@)),
{
    put_write_mode(out, "write_mode", c.write_mode);
    put_opt_ext(out, "ext", &c.ext);
}

pub fn decode_stdio(f: &Vec<(String, Value)>) -> (r: Result<StdioConfig, DecodeErr>)
    ensures
        dres(r) == dec_stdio(obj_view(f@)),
{
    let x_write_mode = match d_write_mode_x(f, "write_mode") {
        Ok(v) => v,
        Err(e) => return Err(e),
    };
    let x_ext = match d_opt_ext_x(f, "ext") {
        Ok(v) => v,
        Err(e) => return Err(e),
    };
    Ok(StdioConfig { write_mode: x_write_mode, ext: x_ext })
}

pub proof fn lemma_rt_stdio(m: StdioConfigV, base: Map<Seq<char>, SpecValue>)
    requires
        forall|k: Seq<char>| base.contains_key(k) ==> k == "type"@,
    ensures
        dec_stdio(enc_stdio(m, base)) == Ok::<_, ErrV>(m),
        get_of(enc_stdio(m, base), "type"@) == get_of(base, "type"@),
{
    reveal_strlit("type");
    reveal_strlit("write_mode");
    reveal_strlit("ext");
    reveal_strlit("UTF8");
    reveal_strlit("Bytes");
    assert(("type"@).len() == 4);
    assert(("write_mode"@).len() == 10);
    assert(("ext"@).len() == 3);
    assert(("UTF8"@).len() == 4);
    assert(("Bytes"@).len() == 5);
    assert(("type"@)[0] == 't');
    assert(("UTF8"@)[0] == 'U');
    match m.ext {
        Some(e) => lemma_rt_ext(e, Map::empty()),
        None => (),
    }
}

pub open spec fn enc_file(m: FileConfigV, base: Map<Seq<char>, SpecValue>) -> Map<
    Seq<char>,
    SpecValue,
> {
    pf_opt_ext(pf_opt_usize(pf_opt_u64(pf_req_str(pf_req_str(base, "i"@, m.i), "o"@, m.o), "sleep_interval"@, m.sleep_interval), "bytes_per_turn"@, m.bytes_per_turn), "ext"@, m.ext)
}

pub open spec fn dec_file(m: Map<Seq<char>, SpecValue>) -> Result<FileConfigV, ErrV> {
    let r_i = d_req_str(m, "i"@);
    let r_o = d_req_str(m, "o"@);
    let r_sleep_interval = d_opt_u64(m, "sleep_interval"@);
    let r_bytes_per_turn = d_opt_usize(m, "bytes_per_turn"@);
    let r_ext = d_opt_ext(m, "ext"@);
    if r_i is Err {
        Err(r_i->Err_0)
    } else if r_o is Err {
        Err(r_o->Err_0)
    } else if r_sleep_interval is Err {
        Err(r_sleep_interval->Err_0)
    } else if r_bytes_per_turn is Err {
        Err(r_bytes_per_turn->Err_0)
    } else if r_ext is Err {
        Err(r_ext->Err_0)
    } else {
        Ok(FileConfigV { i: r_i->Ok_0, o: r_o->Ok_0, sleep_interval: r_sleep_interval->Ok_0, bytes_per_turn: r_bytes_per_turn->Ok_0, ext: r_ext->Ok_0 })
    }
}

pub fn encode_file_into(out: &mut Vec<(String, Value)>, c: &FileConfig)
    ensures
        obj_view(final(out)@) == enc_file(c.deep_view(), obj_view(old(out)@)),
{
    put_req_str(out, "i", &c.i);
    put_req_str(out, "o", &c.o);
    put_opt_u64(out, "sleep_interval", &c.sleep_interval);
    put_opt_usize(out, "bytes_per_turn", &c.bytes_per_turn);
    put_opt_ext(out, "ext", &c.ext);
}

pub fn decode_file(f: &Vec<(String, Value)>) -> (r: Result<FileConfig, DecodeErr>)
    ensures
        dres(r) == dec_file(obj_view(f@)),
{
    let x_i = match d_req_str_x(f, "i") {
        Ok(v) => v,
        Err(e) => return Err(e),
    };
    let x_o = match d_req_str_x(f, "o") {
        Ok(v) => v,
        Err(e) => return Err(e),
    };
    let x_sleep_interval = match d_opt_u64_x(f, "sleep_interval") {
        Ok(v) => v,
        Err(e) => return Err(e),
    };
    let x_bytes_per_turn = match d_opt_usize_x(f, "bytes_per_turn") {
        Ok(v) => v,
        Err(e) => return Err(e),
    };
    let x_ext = match d_opt_ext_x(f, "ext") {
        Ok(v) => v,
        Err(e) => return Err(e),
    };
    Ok(FileConfig { i: x_i, o: x_o, sleep_interval: x_sleep_interval, bytes_per_turn: x_bytes_per_turn, ext: x_ext })
}

pub proof fn lemma_rt_file(m: FileConfigV, base: Map<Seq<char>, SpecValue>)
    requires
        forall|k: Seq<char>| base.contains_key(k) ==> k == "type"@,
    ensures
        dec_file(enc_file(m, base)) == Ok::<_, ErrV>(m),
        get_of(enc_file(m, base), "type"@) == get_of(base, "type"@),
{
    reveal_strlit("type");
    reveal_strlit("i");
    reveal_strlit("o");
    reveal_strlit("sleep_interval");
    reveal_strlit("bytes_per_turn");
    reveal_strlit("ext");
    assert(("type"@).len() == 4);
    assert(("i"@).len() == 1);
    assert(("o"@).len() == 1);
    assert(("sleep_interval"@).len() == 14);
    assert(("bytes_per_turn"@).len() == 14);
    assert(("ext"@).len() == 3);
    assert(("i"@)[0] == 'i');
    assert(("o"@)[0] == 'o');
    assert(("sleep_interval"@)[0] == 's');
    assert(("bytes_per_turn"@)[0] == 'b');
    match m.ext {
        Some(e) => lemma_rt_ext(e, Map::empty()),
        None => (),
    }
}

pub open spec fn enc_direct(m: DirectConfigV, base: Map<Seq<char>, SpecValue>) -> Map<
    Seq<char>,
    SpecValue,
> {
    pf_opt_dns(pf_bool(base, "leak_target_addr"@, m.leak_target_addr), "dns_client"@, m.dns_client)
}

pub open spec fn dec_direct(m: Map<Seq<char>, SpecValue>) -> Result<DirectConfigV, ErrV> {
    let r_leak_target_addr = d_bool(m, "leak_target_addr"@);
    let r_dns_client = d_opt_dns(m, "dns_client"@);
    if r_leak_target_addr is Err {
        Err(r_leak_target_addr->Err_0)
    } else if r_dns_client is Err {
        Err(r_dns_client->Err_0)
    } else {
        Ok(DirectConfigV { leak_target_addr: r_leak_target_addr->Ok_0, dns_client: r_dns_client->Ok_0 })
    }
}

pub fn encode_direct_into(out: &mut Vec<(String, Value)>, c: &DirectConfig)
    ensures
        obj_view(final(out)@) == enc_direct(c.deep_view(), obj_view(old(out)@)),
{
    put_bool(out, "leak_target_addr", c.leak_target_addr);
    put_opt_dns(out, "dns_client", &c.dns_client);
}

pub fn decode_direct(f: &Vec<(String, Value)>) -> (r: Result<DirectConfig, DecodeErr>)
    ensures
        dres(r) == dec_direct(obj_view(f@)),
{
    let x_leak_target_addr = match d_bool_x(f, "leak_target_addr") {
        Ok(v) => v,
        Err(e) => return Err(e),
    };
    let x_dns_client = match d_opt_dns_x(f, "dns_client") {
        Ok(v) => v,
        Err(e) => return Err(e),
    };
    Ok(DirectConfig { leak_target_addr: x_leak_target_addr, dns_client: x_dns_client })
}

pub proof fn lemma_rt_direct(m: DirectConfigV, base: Map<Seq<char>, SpecValue>)
    requires
        forall|k: Seq<char>| base.contains_key(k) ==> k == "type"@,
    ensures
        dec_direct(enc_direct(m, base)) == Ok::<_, ErrV>(m),
        get_of(enc_direct(m, base), "type"@) == get_of(base, "type"@),
{
    reveal_strlit("type");
    reveal_strlit("leak_target_addr");
    reveal_strlit("dns_client");
    assert(("type"@).len() == 4);
    assert(("leak_target_addr"@).len() == 16);
    assert(("dns_client"@).len() == 10);
    match m.dns_client {
        Some(e) => lemma_rt_dns(e, Map::empty()),
        None => (),
    }
}

pub open spec fn enc_opt_dialer(m: OptDialerOptionV, base: Map<Seq<char>, SpecValue>) -> Map<
    Seq<char>,
    SpecValue,
> {
    pf_opt_dns(pf_req_sockopt(pf_req_str(base, "dial_addr"@, m.dial_addr), "sockopt"@, m.sockopt), "dns_client"@, m.dns_client)
}

pub open spec fn dec_opt_dialer(m: Map<Seq<char>, SpecValue>) -> Result<OptDialerOptionV, ErrV> {
    let r_dial_addr = d_req_str(m, "dial_addr"@);
    let r_sockopt = d_req_sockopt(m, "sockopt"@);
    let r_dns_client = d_opt_dns(m, "dns_client"@);
    if r_dial_addr is Err {
        Err(r_dial_addr->Err_0)
    } else if r_sockopt is Err {
        Err(r_sockopt->Err_0)
    } else if r_dns_client is Err {
        Err(r_dns_client->Err_0)
    } else {
        Ok(OptDialerOptionV { dial_addr: r_dial_addr->Ok_0, sockopt: r_sockopt->Ok_0, dns_client: r_dns_client->Ok_0 })
    }
}

pub fn encode_opt_dialer_into(out: &mut Vec<(String, Value)>, c: &OptDialerOption)
    ensures
        obj_view(final(out)@) == enc_opt_dialer(c.deep_view(), obj_view(old(out)@)),
{
    put_req_str(out, "dial_addr", &c.dial_addr);
    put_req_sockopt(out, "sockopt", &c.sockopt);
    put_opt_dns(out, "dns_client", &c.dns_client);
}

pub fn decode_opt_dialer(f: &Vec<(String, Value)>) -> (r: Result<OptDialerOption, DecodeErr>)
    ensures
        dres(r) == dec_opt_dialer(obj_view(f@)),
{
    let x_dial_addr = match d_req_str_x(f, "dial_addr") {
        Ok(v) => v,
        Err(e) => return Err(e),
    };
    let x_sockopt = match d_req_sockopt_x(f, "sockopt") {
        Ok(v) => v,
        Err(e) => return Err(e),
    };
    let x_dns_client = match d_opt_dns_x(f, "dns_client") {
        Ok(v) => v,
        Err(e) => return Err(e),
    };
    Ok(OptDialerOption { dial_addr: x_dial_addr, sockopt: x_sockopt, dns_client: x_dns_client })
}

pub proof fn lemma_rt_opt_dialer(m: OptDialerOptionV, base: Map<Seq<char>, SpecValue>)
    requires
        forall|k: Seq<char>| base.contains_key(k) ==> k == "type"@,
    ensures
        dec_opt_dialer(enc_opt_dialer(m, base)) == Ok::<_, ErrV>(m),
        get_of(enc_opt_dialer(m, base), "type"@) == get_of(base, "type"@),
{
    reveal_strlit("type");
    reveal_strlit("dial_addr");
    reveal_strlit("sockopt");
    reveal_strlit("dns_client");
    assert(("type"@).len() == 4);
    assert(("dial_addr"@).len() == 9);
    assert(("sockopt"@).len() == 7);
    assert(("dns_client"@).len() == 10);
    lemma_rt_sockopt(m.sockopt, Map::empty());
    match m.dns_client {
        Some(e) => lemma_rt_dns(e, Map::empty()),
        None => (),
    }
}

pub open spec fn enc_quic_server(m: QuicServerConfigV, base: Map<Seq<char>, SpecValue>) -> Map<
    Seq<char>,
    SpecValue,
> {
    pf_str_list(pf_req_str(pf_req_str(pf_req_str(base, "key"@, m.key), "cert"@, m.cert), "listen_addr"@, m.listen_addr), "alpn"@, m.alpn)
}

pub open spec fn dec_quic_server(m: Map<Seq<char>, SpecValue>) -> Result<QuicServerConfigV, ErrV> {
    let r_key = d_req_str(m, "key"@);
    let r_cert = d_req_str(m, "cert"@);
    let r_listen_addr = d_req_str(m, "listen_addr"@);
    let r_alpn = d_str_list(m, "alpn"@);
    if r_key is Err {
        Err(r_key->Err_0)
    } else if r_cert is Err {
        Err(r_cert->Err_0)
    } else if r_listen_addr is Err {
        Err(r_listen_addr->Err_0)
    } else if r_alpn is Err {
        Err(r_alpn->Err_0)
    } else {
        Ok(QuicServerConfigV { key: r_key->Ok_0, cert: r_cert->Ok_0, listen_addr: r_listen_addr->Ok_0, alpn: r_alpn->Ok_0 })
    }
}

pub fn encode_quic_server_into(out: &mut Vec<(String, Value)>, c: &QuicServerConfig)
    ensures
        obj_view(final(out)@) == enc_quic_server(c.deep_view(), obj_view(old(out)@)),
{
    put_req_str(out, "key", &c.key);
    put_req_str(out, "cert", &c.cert);
    put_req_str(out, "listen_addr", &c.listen_addr);
    put_str_list(out, "alpn", &c.alpn);
}

pub fn decode_quic_server(f: &Vec<(String, Value)>) -> (r: Result<QuicServerConfig, DecodeErr>)
    ensures
        dres(r) == dec_quic_server(obj_view(f@)),
{
    let x_key = match d_req_str_x(f, "key") {
        Ok(v) => v,
        Err(e) => return Err(e),
    };
    let x_cert = match d_req_str_x(f, "cert") {
        Ok(v) => v,
        Err(e) => return Err(e),
    };
    let x_listen_addr = match d_req_str_x(f, "listen_addr") {
        Ok(v) => v,
        Err(e) => return Err(e),
    };
    let x_alpn = match d_str_list_x(f, "alpn") {
        Ok(v) => v,
        Err(e) => return Err(e),
    };
    Ok(QuicServerConfig { key: x_key, cert: x_cert, listen_addr: x_listen_addr, alpn: x_alpn })
}

pub proof fn lemma_rt_quic_server(m: QuicServerConfigV, base: Map<Seq<char>, SpecValue>)
    requires
        forall|k: Seq<char>| base.contains_key(k) ==> k == "type"@,
    ensures
        dec_quic_server(enc_quic_server(m, base)) == Ok::<_, ErrV>(m),
        get_of(enc_quic_server(m, base), "type"@) == get_of(base, "type"@),
{
    reveal_strlit("type");
    reveal_strlit("key");
    reveal_strlit("cert");
    reveal_strlit("listen_addr");
    reveal_strlit("alpn");
    assert(("type"@).len() == 4);
    assert(("key"@).len() == 3);
    assert(("cert"@).len() == 4);
    assert(("listen_addr"@).len() == 11);
    assert(("alpn"@).len() == 4);
    assert(("type"@)[0] == 't');
    assert(("cert"@)[0] == 'c');
    assert(("alpn"@)[0] == 'a');
    lemma_strs_rt(m.alpn);
        if m.alpn.len() == 0 {
            assert(m.alpn =~= Seq::<Seq<char>>::empty());
        }
}

pub open spec fn enc_quic_client(m: QuicClientConfigV, base: Map<Seq<char>, SpecValue>) -> Map<
    Seq<char>,
    SpecValue,
> {
    pf_bool(pf_str_list(pf_opt_str(pf_req_str(pf_req_str(base, "server_addr"@, m.server_addr), "server_name"@, m.server_name), "cert"@, m.cert), "alpn"@, m.alpn), "insecure"@, m.insecure)
}

pub open spec fn dec_quic_client(m: Map<Seq<char>, SpecValue>) -> Result<QuicClientConfigV, ErrV> {
    let r_server_addr = d_req_str(m, "server_addr"@);
    let r_server_name = d_req_str(m, "server_name"@);
    let r_cert = d_opt_str(m, "cert"@);
    let r_alpn = d_str_list(m, "alpn"@);
    let r_insecure = d_bool(m, "insecure"@);
    if r_server_addr is Err {
        Err(r_server_addr->Err_0)
    } else if r_server_name is Err {
        Err(r_server_name->Err_0)
    } else if r_cert is Err {
        Err(r_cert->Err_0)
    } else if r_alpn is Err {
        Err(r_alpn->Err_0)
    } else if r_insecure is Err {
        Err(r_insecure->Err_0)
    } else {
        Ok(QuicClientConfigV { server_addr: r_server_addr->Ok_0, server_name: r_server_name->Ok_0, cert: r_cert->Ok_0, alpn: r_alpn->Ok_0, insecure: r_insecure->Ok_0 })
    }
}

pub fn encode_quic_client_into(out: &mut Vec<(String, Value)>, c: &QuicClientConfig)
    ensures
        obj_view(final(out)@) == enc_quic_client(c.deep_view(), obj_view(old(out)@)),
{
    put_req_str(out, "server_addr", &c.server_addr);
    put_req_str(out, "server_name", &c.server_name);
    put_opt_str(out, "cert", &c.cert);
    put_str_list(out, "alpn", &c.alpn);
    put_bool(out, "insecure", c.insecure);
}

pub fn decode_quic_client(f: &Vec<(String, Value)>) -> (r: Result<QuicClientConfig, DecodeErr>)
    ensures
        dres(r) == dec_quic_client(obj_view(f@)),
{
    let x_server_addr = match d_req_str_x(f, "server_addr") {
        Ok(v) => v,
        Err(e) => return Err(e),
    };
    let x_server_name = match d_req_str_x(f, "server_name") {
        Ok(v) => v,
        Err(e) => return Err(e),
    };
    let x_cert = match d_opt_str_x(f, "cert") {
        Ok(v) => v,
        Err(e) => return Err(e),
    };
    let x_alpn = match d_str_list_x(f, "alpn") {
        Ok(v) => v,
        Err(e) => return Err(e),
    };
    let x_insecure = match d_bool_x(f, "insecure") {
        Ok(v) => v,
        Err(e) => return Err(e),
    };
    Ok(QuicClientConfig { server_addr: x_server_addr, server_name: x_server_name, cert: x_cert, alpn: x_alpn, insecure: x_insecure })
}

pub proof fn lemma_rt_quic_client(m: QuicClientConfigV, base: Map<Seq<char>, SpecValue>)
    requires
        forall|k: Seq<char>| base.contains_key(k) ==> k == "type"@,
    ensures
        dec_quic_client(enc_quic_client(m, base)) == Ok::<_, ErrV>(m),
        get_of(enc_quic_client(m, base), "type"@) == get_of(base, "type"@),
{
    reveal_strlit("type");
    reveal_strlit("server_addr");
    reveal_strlit("server_name");
    reveal_strlit("cert");
    reveal_strlit("alpn");
    reveal_strlit("insecure");
    assert(("type"@).len() == 4);
    assert(("server_addr"@).len() == 11);
    assert(("server_name"@).len() == 11);
    assert(("cert"@).len() == 4);
    assert(("alpn"@).len() == 4);
    assert(("insecure"@).len() == 8);
    assert(("type"@)[0] == 't');
    assert(("cert"@)[0] == 'c');
    assert(("alpn"@)[0] == 'a');
    assert(("server_addr"@)[7] == 'a');
    assert(("server_name"@)[7] == 'n');
    lemma_strs_rt(m.alpn);
        if m.alpn.len() == 0 {
            assert(m.alpn =~= Seq::<Seq<char>>::empty());
        }
}

pub open spec fn enc_bind_dialer(m: BindDialerConfigV, base: Map<Seq<char>, SpecValue>) -> Map<
    Seq<char>,
    SpecValue,
> {
    pf_opt_ext(pf_opt_out_auto_route(pf_opt_in_auto_route(pf_opt_dns(pf_opt_str(pf_opt_str(base, "bind_addr"@, m.bind_addr), "dial_addr"@, m.dial_addr), "dns_client"@, m.dns_client), "in_auto_route"@, m.in_auto_route), "out_auto_route"@, m.out_auto_route), "ext"@, m.ext)
}

pub open spec fn dec_bind_dialer(m: Map<Seq<char>, SpecValue>) -> Result<BindDialerConfigV, ErrV> {
    let r_bind_addr = d_opt_str(m, "bind_addr"@);
    let r_dial_addr = d_opt_str(m, "dial_addr"@);
    let r_dns_client = d_opt_dns(m, "dns_client"@);
    let r_in_auto_route = d_opt_in_auto_route(m, "in_auto_route"@);
    let r_out_auto_route = d_opt_out_auto_route(m, "out_auto_route"@);
    let r_ext = d_opt_ext(m, "ext"@);
    if r_bind_addr is Err {
        Err(r_bind_addr->Err_0)
    } else if r_dial_addr is Err {
        Err(r_dial_addr->Err_0)
    } else if r_dns_client is Err {
        Err(r_dns_client->Err_0)
    } else if r_in_auto_route is Err {
        Err(r_in_auto_route->Err_0)
    } else if r_out_auto_route is Err {
        Err(r_out_auto_route->Err_0)
    } else if r_ext is Err {
        Err(r_ext->Err_0)
    } else {
        Ok(BindDialerConfigV { bind_addr: r_bind_addr->Ok_0, dial_addr: r_dial_addr->Ok_0, dns_client: r_dns_client->Ok_0, in_auto_route: r_in_auto_route->Ok_0, out_auto_route: r_out_auto_route->Ok_0, ext: r_ext->Ok_0 })
    }
}

pub fn encode_bind_dialer_into(out: &mut Vec<(String, Value)>, c: &BindDialerConfig)
    ensures
        obj_view(final(out)@) == enc_bind_dialer(c.deep_view(), obj_view(old(out)@)),
{
    put_opt_str(out, "bind_addr", &c.bind_addr);
    put_opt_str(out, "dial_addr", &c.dial_addr);
    put_opt_dns(out, "dns_client", &c.dns_client);
    put_opt_in_auto_route(out, "in_auto_route", &c.in_auto_route);
    put_opt_out_auto_route(out, "out_auto_route", &c.out_auto_route);
    put_opt_ext(out, "ext", &c.ext);
}

pub fn decode_bind_dialer(f: &Vec<(String, Value)>) -> (r: Result<BindDialerConfig, DecodeErr>)
    ensures
        dres(r) == dec_bind_dialer(obj_view(f@)),
{
    let x_bind_addr = match d_opt_str_x(f, "bind_addr") {
        Ok(v) => v,
        Err(e) => return Err(e),
    };
    let x_dial_addr = match d_opt_str_x(f, "dial_addr") {
        Ok(v) => v,
        Err(e) => return Err(e),
    };
    let x_dns_client = match d_opt_dns_x(f, "dns_client") {
        Ok(v) => v,
        Err(e) => return Err(e),
    };
    let x_in_auto_route = match d_opt_in_auto_route_x(f, "in_auto_route") {
        Ok(v) => v,
        Err(e) => return Err(e),
    };
    let x_out_auto_route = match d_opt_out_auto_route_x(f, "out_auto_route") {
        Ok(v) => v,
        Err(e) => return Err(e),
    };
    let x_ext = match d_opt_ext_x(f, "ext") {
        Ok(v) => v,
        Err(e) => return Err(e),
    };
    Ok(BindDialerConfig { bind_addr: x_bind_addr, dial_addr: x_dial_addr, dns_client: x_dns_client, in_auto_route: x_in_auto_route, out_auto_route: x_out_auto_route, ext: x_ext })
}

pub proof fn lemma_rt_bind_dialer(m: BindDialerConfigV, base: Map<Seq<char>, SpecValue>)
    requires
        forall|k: Seq<char>| base.contains_key(k) ==> k == "type"@,
    ensures
        dec_bind_dialer(enc_bind_dialer(m, base)) == Ok::<_, ErrV>(m),
        get_of(enc_bind_dialer(m, base), "type"@) == get_of(base, "type"@),
{
    reveal_strlit("type");
    reveal_strlit("bind_addr");
    reveal_strlit("dial_addr");
    reveal_strlit("dns_client");
    reveal_strlit("in_auto_route");
    reveal_strlit("out_auto_route");
    reveal_strlit("ext");
    assert(("type"@).len() == 4);
    assert(("bind_addr"@).len() == 9);
    assert(("dial_addr"@).len() == 9);
    assert(("dns_client"@).len() == 10);
    assert(("in_auto_route"@).len() == 13);
    assert(("out_auto_route"@).len() == 14);
    assert(("ext"@).len() == 3);
    assert(("bind_addr"@)[0] == 'b');
    assert(("dial_addr"@)[0] == 'd');
    match m.dns_client {
        Some(e) => lemma_rt_dns(e, Map::empty()),
        None => (),
    }
    match m.in_auto_route {
        Some(e) => lemma_rt_in_auto_route(e, Map::empty()),
        None => (),
    }
    match m.out_auto_route {
        Some(e) => lemma_rt_out_auto_route(e, Map::empty()),
        None => (),
    }
    match m.ext {
        Some(e) => lemma_rt_ext(e, Map::empty()),
        None => (),
    }
}

} // verus!
