//! The parameter groups of the schema, with their mathematical models.
//!
//! Every value is fully resolved at construction: a field with a documented
//! default holds a concrete value, never an "unset" marker.  Fields that are
//! genuinely optional (no documented default) stay `Option`.

use vstd::prelude::*;

verus! {

// ---------------------------------------------------------------------------
// Small closed enums.  Doc comments give the serialized spelling of each
// variant; the first variant is the default where one is named.
// ---------------------------------------------------------------------------

/// How a standard-I/O stage writes: `"UTF8"` (default) or `"Bytes"`.
#[derive(Debug, Clone, Copy, PartialEq, Eq, Structural)]
pub enum WriteMode {
    UTF8,
    Bytes,
}

/// Transport for one DNS server: `"Udp"` or `"Tcp"`.
#[derive(Debug, Clone, Copy, PartialEq, Eq, Structural)]
pub enum Protocol {
    Udp,
    Tcp,
}

/// IP-family resolution strategy; spelled by its variant name.
#[derive(Debug, Clone, Copy, PartialEq, Eq, Structural)]
pub enum LookupIpStrategy {
    Ipv4Only,
    Ipv6Only,
    Ipv4AndIpv6,
    Ipv6thenIpv4,
    Ipv4thenIpv6,
}

/// Recorder file format: `"json"` (default) or `"cbor"`.
#[derive(Debug, Clone, Copy, PartialEq, Eq, Structural)]
pub enum OutputFileExtension {
    Json,
    Cbor,
}

/// Recorder record schema: `"ruci"` (native, default) or `"har"`.
#[derive(Debug, Clone, Copy, PartialEq, Eq, Structural)]
pub enum OutputFormat {
    Ruci,
    Har,
}

/// Recorder fidelity: `"full"` (default), `"simplified"` or `"info"`.
#[derive(Debug, Clone, Copy, PartialEq, Eq, Structural)]
pub enum RecordMode {
    Full,
    Simplified,
    Info,
}

/// Truncation of one captured unit: no truncation (default, spelled
/// `"no-truncate"`), or a byte limit under `"piece-truncate"`.  A limit of
/// zero is a real limit, distinct from no truncation.
#[derive(Debug, Clone, Copy, PartialEq, Eq, Structural)]
pub enum PieceTruncateOption {
    NoTruncate,
    PieceTruncate(usize),
}

/// Truncation of an aggregated session: no truncation (default, spelled
/// `"no-truncate"`), or a byte limit under `"session-truncate"`.
#[derive(Debug, Clone, Copy, PartialEq, Eq, Structural)]
pub enum SessionTruncateOption {
    NoTruncate,
    SessionTruncate(usize),
}

impl DeepView for WriteMode {
    type V = WriteMode;

    open spec fn deep_view(&self) -> WriteMode {
        *self
    }
}

impl DeepView for Protocol {
    type V = Protocol;

    open spec fn deep_view(&self) -> Protocol {
        *self
    }
}

impl DeepView for LookupIpStrategy {
    type V = LookupIpStrategy;

    open spec fn deep_view(&self) -> LookupIpStrategy {
        *self
    }
}

impl DeepView for OutputFileExtension {
    type V = OutputFileExtension;

    open spec fn deep_view(&self) -> OutputFileExtension {
        *self
    }
}

impl DeepView for OutputFormat {
    type V = OutputFormat;

    open spec fn deep_view(&self) -> OutputFormat {
        *self
    }
}

impl DeepView for RecordMode {
    type V = RecordMode;

    open spec fn deep_view(&self) -> RecordMode {
        *self
    }
}

impl DeepView for PieceTruncateOption {
    type V = PieceTruncateOption;

    open spec fn deep_view(&self) -> PieceTruncateOption {
        *self
    }
}

impl DeepView for SessionTruncateOption {
    type V = SessionTruncateOption;

    open spec fn deep_view(&self) -> SessionTruncateOption {
        *self
    }
}

// ---------------------------------------------------------------------------
// Parameter groups.
// ---------------------------------------------------------------------------

/// Per-stage escape hatch: fixed destination override and pre-shared
/// early data.
#[derive(Debug, Clone, PartialEq)]
pub struct Ext {
    pub fixed_target_addr: Option<String>,
    pub pre_defined_early_data: Option<String>,
}

pub struct ExtV {
    pub fixed_target_addr: Option<Seq<char>>,
    pub pre_defined_early_data: Option<Seq<char>>,
}

impl DeepView for Ext {
    type V = ExtV;

    open spec fn deep_view(&self) -> ExtV {
        ExtV {
            fixed_target_addr: self.fixed_target_addr.deep_view(),
            pre_defined_early_data: self.pre_defined_early_data.deep_view(),
        }
    }
}

/// Tun routing parameters of an outbound stage.
#[derive(Debug, Clone, PartialEq)]
pub struct OutAutoRouteParams {
    pub tun_dev_name: Option<String>,
    pub original_dev_name: Option<String>,
    pub router_ip: Option<String>,
}

pub struct OutAutoRouteParamsV {
    pub tun_dev_name: Option<Seq<char>>,
    pub original_dev_name: Option<Seq<char>>,
    pub router_ip: Option<Seq<char>>,
}

impl DeepView for OutAutoRouteParams {
    type V = OutAutoRouteParamsV;

    open spec fn deep_view(&self) -> OutAutoRouteParamsV {
        OutAutoRouteParamsV {
            tun_dev_name: self.tun_dev_name.deep_view(),
            original_dev_name: self.original_dev_name.deep_view(),
            router_ip: self.router_ip.deep_view(),
        }
    }
}

/// Tun routing parameters of an inbound stage; the device naming must agree
/// with the outbound instance used in the same session.
#[derive(Debug, Clone, PartialEq)]
pub struct InAutoRouteParams {
    pub tun_dev_name: Option<String>,
    pub tun_gateway: Option<String>,
    pub router_ip: Option<String>,
    pub original_dev_name: Option<String>,
    pub direct_list: Vec<String>,
    pub dns_list: Vec<String>,
}

pub struct InAutoRouteParamsV {
    pub tun_dev_name: Option<Seq<char>>,
    pub tun_gateway: Option<Seq<char>>,
    pub router_ip: Option<Seq<char>>,
    pub original_dev_name: Option<Seq<char>>,
    pub direct_list: Seq<Seq<char>>,
    pub dns_list: Seq<Seq<char>>,
}

impl DeepView for InAutoRouteParams {
    type V = InAutoRouteParamsV;

    open spec fn deep_view(&self) -> InAutoRouteParamsV {
        InAutoRouteParamsV {
            tun_dev_name: self.tun_dev_name.deep_view(),
            tun_gateway: self.tun_gateway.deep_view(),
            router_ip: self.router_ip.deep_view(),
            original_dev_name: self.original_dev_name.deep_view(),
            direct_list: self.direct_list.deep_view(),
            dns_list: self.dns_list.deep_view(),
        }
    }
}

/// File-I/O adapter: input and output paths and pacing.
#[derive(Debug, Clone, PartialEq)]
pub struct FileConfig {
    pub i: String,
    pub o: String,
    pub sleep_interval: Option<u64>,
    pub bytes_per_turn: Option<usize>,
    pub ext: Option<Ext>,
}

pub struct FileConfigV {
    pub i: Seq<char>,
    pub o: Seq<char>,
    pub sleep_interval: Option<u64>,
    pub bytes_per_turn: Option<usize>,
    pub ext: Option<ExtV>,
}

impl DeepView for FileConfig {
    type V = FileConfigV;

    open spec fn deep_view(&self) -> FileConfigV {
        FileConfigV {
            i: self.i.deep_view(),
            o: self.o.deep_view(),
            sleep_interval: self.sleep_interval,
            bytes_per_turn: self.bytes_per_turn,
            ext: self.ext.deep_view(),
        }
    }
}

/// A plain-text user/password set for HTTP and SOCKS5 unwrapping.
#[derive(Debug, Clone, PartialEq)]
pub struct PlainTextPassSet {
    pub userpass: Option<String>,
    pub more: Vec<String>,
}

pub struct PlainTextPassSetV {
    pub userpass: Option<Seq<char>>,
    pub more: Seq<Seq<char>>,
}

impl DeepView for PlainTextPassSet {
    type V = PlainTextPassSetV;

    open spec fn deep_view(&self) -> PlainTextPassSetV {
        PlainTextPassSetV { userpass: self.userpass.deep_view(), more: self.more.deep_view() }
    }
}

/// SOCKS5 client parameters.
#[derive(Debug, Clone, PartialEq)]
pub struct Socks5Out {
    pub userpass: Option<String>,
    pub early_data: bool,
    pub ext: Option<Ext>,
}

pub struct Socks5OutV {
    pub userpass: Option<Seq<char>>,
    pub early_data: bool,
    pub ext: Option<ExtV>,
}

impl DeepView for Socks5Out {
    type V = Socks5OutV;

    open spec fn deep_view(&self) -> Socks5OutV {
        Socks5OutV {
            userpass: self.userpass.deep_view(),
            early_data: self.early_data,
            ext: self.ext.deep_view(),
        }
    }
}

/// A Trojan password set for inbound unwrapping.
#[derive(Debug, Clone, PartialEq)]
pub struct TrojanPassSet {
    pub password: Option<String>,
    pub more: Vec<String>,
}

pub struct TrojanPassSetV {
    pub password: Option<Seq<char>>,
    pub more: Seq<Seq<char>>,
}

impl DeepView for TrojanPassSet {
    type V = TrojanPassSetV;

    open spec fn deep_view(&self) -> TrojanPassSetV {
        TrojanPassSetV { password: self.password.deep_view(), more: self.more.deep_view() }
    }
}

/// Trojan client parameters.
#[derive(Debug, Clone, PartialEq)]
pub struct TrojanClientConfig {
    pub password: Option<String>,
    pub do_not_use_early_data: bool,
}

pub struct TrojanClientConfigV {
    pub password: Option<Seq<char>>,
    pub do_not_use_early_data: bool,
}

impl DeepView for TrojanClientConfig {
    type V = TrojanClientConfigV;

    open spec fn deep_view(&self) -> TrojanClientConfigV {
        TrojanClientConfigV {
            password: self.password.deep_view(),
            do_not_use_early_data: self.do_not_use_early_data,
        }
    }
}

/// Standard-I/O adapter parameters.
#[derive(Debug, Clone, PartialEq)]
pub struct StdioConfig {
    pub write_mode: WriteMode,
    pub ext: Option<Ext>,
}

pub struct StdioConfigV {
    pub write_mode: WriteMode,
    pub ext: Option<ExtV>,
}

impl DeepView for StdioConfig {
    type V = StdioConfigV;

    open spec fn deep_view(&self) -> StdioConfigV {
        StdioConfigV { write_mode: self.write_mode, ext: self.ext.deep_view() }
    }
}

/// Direct-dial parameters.
#[derive(Debug, Clone, PartialEq)]
pub struct DirectConfig {
    pub leak_target_addr: bool,
    pub dns_client: Option<DnsClientConfig>,
}

pub struct DirectConfigV {
    pub leak_target_addr: bool,
    pub dns_client: Option<DnsClientConfigV>,
}

impl DeepView for DirectConfig {
    type V = DirectConfigV;

    open spec fn deep_view(&self) -> DirectConfigV {
        DirectConfigV {
            leak_target_addr: self.leak_target_addr,
            dns_client: self.dns_client.deep_view(),
        }
    }
}

/// DNS client policy: servers in order, family strategy, and fixed
/// hostname-to-IP pairs matched without regard to letter case.
#[derive(Debug, Clone, PartialEq)]
pub struct DnsClientConfig {
    pub dns_server_list: Vec<(String, Protocol)>,
    pub ip_strategy: Option<LookupIpStrategy>,
    pub static_pairs: Vec<(String, String)>,
}

pub struct DnsClientConfigV {
    pub dns_server_list: Seq<(Seq<char>, Protocol)>,
    pub ip_strategy: Option<LookupIpStrategy>,
    pub static_pairs: Seq<(Seq<char>, Seq<char>)>,
}

impl DeepView for DnsClientConfig {
    type V = DnsClientConfigV;

    open spec fn deep_view(&self) -> DnsClientConfigV {
        DnsClientConfigV {
            dns_server_list: self.dns_server_list.deep_view(),
            ip_strategy: self.ip_strategy.deep_view(),
            static_pairs: self.static_pairs.deep_view(),
        }
    }
}

/// Socket options: transparent-proxy mark flag, numeric mark (8 bits wide,
/// kept as the deployed document format has it), device binding.
#[derive(Debug, Clone, PartialEq)]
pub struct SockOpt {
    pub tproxy: bool,
    pub so_mark: Option<u8>,
    pub bind_to_device: Option<String>,
}

pub struct SockOptV {
    pub tproxy: bool,
    pub so_mark: Option<u8>,
    pub bind_to_device: Option<Seq<char>>,
}

impl DeepView for SockOpt {
    type V = SockOptV;

    open spec fn deep_view(&self) -> SockOptV {
        SockOptV {
            tproxy: self.tproxy,
            so_mark: self.so_mark,
            bind_to_device: self.bind_to_device.deep_view(),
        }
    }
}

/// A dial with explicit socket options.
#[derive(Debug, Clone, PartialEq)]
pub struct OptDialerOption {
    pub dial_addr: String,
    pub sockopt: SockOpt,
    pub dns_client: Option<DnsClientConfig>,
}

pub struct OptDialerOptionV {
    pub dial_addr: Seq<char>,
    pub sockopt: SockOptV,
    pub dns_client: Option<DnsClientConfigV>,
}

impl DeepView for OptDialerOption {
    type V = OptDialerOptionV;

    open spec fn deep_view(&self) -> OptDialerOptionV {
        OptDialerOptionV {
            dial_addr: self.dial_addr.deep_view(),
            sockopt: self.sockopt.deep_view(),
            dns_client: self.dns_client.deep_view(),
        }
    }
}

/// Transparent-proxy interception parameters.  The port has no default at
/// this layer: it stays absent until the assembler resolves it.
#[derive(Debug, Clone, PartialEq)]
pub struct TproxyOptions {
    pub port: Option<u16>,
    pub route_ipv6: bool,
    pub proxy_local_udp_53: bool,
    pub local_net4: Option<String>,
    pub auto_route: bool,
    pub auto_route_tcp: bool,
}

pub struct TproxyOptionsV {
    pub port: Option<u16>,
    pub route_ipv6: bool,
    pub proxy_local_udp_53: bool,
    pub local_net4: Option<Seq<char>>,
    pub auto_route: bool,
    pub auto_route_tcp: bool,
}

impl DeepView for TproxyOptions {
    type V = TproxyOptionsV;

    open spec fn deep_view(&self) -> TproxyOptionsV {
        TproxyOptionsV {
            port: self.port,
            route_ipv6: self.route_ipv6,
            proxy_local_udp_53: self.proxy_local_udp_53,
            local_net4: self.local_net4.deep_view(),
            auto_route: self.auto_route,
            auto_route_tcp: self.auto_route_tcp,
        }
    }
}

/// Traffic-recorder policy, fully resolved: every enum field holds its
/// documented default when the document left it out.
#[derive(Debug, Clone, PartialEq)]
pub struct RecorderConfig {
    pub label: Option<String>,
    pub output_dir: Option<String>,
    pub output_file_extension: OutputFileExtension,
    pub output_format: OutputFormat,
    pub record_mode: RecordMode,
    pub prettify: bool,
    pub piece_truncate_option: PieceTruncateOption,
    pub session_truncate_option: SessionTruncateOption,
}

pub struct RecorderConfigV {
    pub label: Option<Seq<char>>,
    pub output_dir: Option<Seq<char>>,
    pub output_file_extension: OutputFileExtension,
    pub output_format: OutputFormat,
    pub record_mode: RecordMode,
    pub prettify: bool,
    pub piece_truncate_option: PieceTruncateOption,
    pub session_truncate_option: SessionTruncateOption,
}

impl DeepView for RecorderConfig {
    type V = RecorderConfigV;

    open spec fn deep_view(&self) -> RecorderConfigV {
        RecorderConfigV {
            label: self.label.deep_view(),
            output_dir: self.output_dir.deep_view(),
            output_file_extension: self.output_file_extension,
            output_format: self.output_format,
            record_mode: self.record_mode,
            prettify: self.prettify,
            piece_truncate_option: self.piece_truncate_option,
            session_truncate_option: self.session_truncate_option,
        }
    }
}

/// The recorder policy with every field at its documented default.
pub open spec fn recorder_default_v() -> RecorderConfigV {
    RecorderConfigV {
        label: None,
        output_dir: None,
        output_file_extension: OutputFileExtension::Json,
        output_format: OutputFormat::Ruci,
        record_mode: RecordMode::Full,
        prettify: false,
        piece_truncate_option: PieceTruncateOption::NoTruncate,
        session_truncate_option: SessionTruncateOption::NoTruncate,
    }
}

impl Default for RecorderConfig {
    fn default() -> (r: RecorderConfig)
        ensures
            r.deep_view() == recorder_default_v(),
    {
        RecorderConfig {
            label: None,
            output_dir: None,
            output_file_extension: OutputFileExtension::Json,
            output_format: OutputFormat::Ruci,
            record_mode: RecordMode::Full,
            prettify: false,
            piece_truncate_option: PieceTruncateOption::NoTruncate,
            session_truncate_option: SessionTruncateOption::NoTruncate,
        }
    }
}

/// Shared HTTP-layer dressing of H2, WebSocket and HTTP-filter stages.
/// Headers are an ordered list of name/value pairs.
#[derive(Debug, Clone, PartialEq)]
pub struct CommonConfig {
    pub method: Option<String>,
    pub scheme: Option<String>,
    pub authority: String,
    pub path: String,
    pub headers: Vec<(String, String)>,
    pub use_early_data: bool,
}

pub struct CommonConfigV {
    pub method: Option<Seq<char>>,
    pub scheme: Option<Seq<char>>,
    pub authority: Seq<char>,
    pub path: Seq<char>,
    pub headers: Seq<(Seq<char>, Seq<char>)>,
    pub use_early_data: bool,
}

impl DeepView for CommonConfig {
    type V = CommonConfigV;

    open spec fn deep_view(&self) -> CommonConfigV {
        CommonConfigV {
            method: self.method.deep_view(),
            scheme: self.scheme.deep_view(),
            authority: self.authority.deep_view(),
            path: self.path.deep_view(),
            headers: self.headers.deep_view(),
            use_early_data: self.use_early_data,
        }
    }
}

/// TLS termination material for inbound stages.
#[derive(Debug, Clone, PartialEq)]
pub struct TlsServerOptions {
    pub cert: String,
    pub key: String,
    pub alpn: Vec<String>,
}

pub struct TlsServerOptionsV {
    pub cert: Seq<char>,
    pub key: Seq<char>,
    pub alpn: Seq<Seq<char>>,
}

impl DeepView for TlsServerOptions {
    type V = TlsServerOptionsV;

    open spec fn deep_view(&self) -> TlsServerOptionsV {
        TlsServerOptionsV {
            cert: self.cert.deep_view(),
            key: self.key.deep_view(),
            alpn: self.alpn.deep_view(),
        }
    }
}

/// TLS client parameters for outbound stages; `insecure` defaults to false.
#[derive(Debug, Clone, PartialEq)]
pub struct TlsClientOptions {
    pub host: Option<String>,
    pub insecure: bool,
    pub alpn: Vec<String>,
    pub cert: Option<String>,
}

pub struct TlsClientOptionsV {
    pub host: Option<Seq<char>>,
    pub insecure: bool,
    pub alpn: Seq<Seq<char>>,
    pub cert: Option<Seq<char>>,
}

impl DeepView for TlsClientOptions {
    type V = TlsClientOptionsV;

    open spec fn deep_view(&self) -> TlsClientOptionsV {
        TlsClientOptionsV {
            host: self.host.deep_view(),
            insecure: self.insecure,
            alpn: self.alpn.deep_view(),
            cert: self.cert.deep_view(),
        }
    }
}

/// Trojan termination parameters for inbound stages.
#[derive(Debug, Clone, PartialEq)]
pub struct TrojanConfig {
    pub password: Option<String>,
    pub more: Vec<String>,
}

pub struct TrojanConfigV {
    pub password: Option<Seq<char>>,
    pub more: Seq<Seq<char>>,
}

impl DeepView for TrojanConfig {
    type V = TrojanConfigV;

    open spec fn deep_view(&self) -> TrojanConfigV {
        TrojanConfigV { password: self.password.deep_view(), more: self.more.deep_view() }
    }
}

/// QUIC endpoint parameters for an inbound listener.
#[derive(Debug, Clone, PartialEq)]
pub struct QuicServerConfig {
    pub key: String,
    pub cert: String,
    pub listen_addr: String,
    pub alpn: Vec<String>,
}

pub struct QuicServerConfigV {
    pub key: Seq<char>,
    pub cert: Seq<char>,
    pub listen_addr: Seq<char>,
    pub alpn: Seq<Seq<char>>,
}

impl DeepView for QuicServerConfig {
    type V = QuicServerConfigV;

    open spec fn deep_view(&self) -> QuicServerConfigV {
        QuicServerConfigV {
            key: self.key.deep_view(),
            cert: self.cert.deep_view(),
            listen_addr: self.listen_addr.deep_view(),
            alpn: self.alpn.deep_view(),
        }
    }
}

/// QUIC endpoint parameters for an outbound dial.
#[derive(Debug, Clone, PartialEq)]
pub struct QuicClientConfig {
    pub server_addr: String,
    pub server_name: String,
    pub cert: Option<String>,
    pub alpn: Vec<String>,
    pub insecure: bool,
}

pub struct QuicClientConfigV {
    pub server_addr: Seq<char>,
    pub server_name: Seq<char>,
    pub cert: Option<Seq<char>>,
    pub alpn: Seq<Seq<char>>,
    pub insecure: bool,
}

impl DeepView for QuicClientConfig {
    type V = QuicClientConfigV;

    open spec fn deep_view(&self) -> QuicClientConfigV {
        QuicClientConfigV {
            server_addr: self.server_addr.deep_view(),
            server_name: self.server_name.deep_view(),
            cert: self.cert.deep_view(),
            alpn: self.alpn.deep_view(),
            insecure: self.insecure,
        }
    }
}

/// The general bind/dial stage shared by both directions.
#[derive(Debug, Clone, PartialEq)]
pub struct BindDialerConfig {
    pub bind_addr: Option<String>,
    pub dial_addr: Option<String>,
    pub dns_client: Option<DnsClientConfig>,
    pub in_auto_route: Option<InAutoRouteParams>,
    pub out_auto_route: Option<OutAutoRouteParams>,
    pub ext: Option<Ext>,
}

pub struct BindDialerConfigV {
    pub bind_addr: Option<Seq<char>>,
    pub dial_addr: Option<Seq<char>>,
    pub dns_client: Option<DnsClientConfigV>,
    pub in_auto_route: Option<InAutoRouteParamsV>,
    pub out_auto_route: Option<OutAutoRouteParamsV>,
    pub ext: Option<ExtV>,
}

impl DeepView for BindDialerConfig {
    type V = BindDialerConfigV;

    open spec fn deep_view(&self) -> BindDialerConfigV {
        BindDialerConfigV {
            bind_addr: self.bind_addr.deep_view(),
            dial_addr: self.dial_addr.deep_view(),
            dns_client: self.dns_client.deep_view(),
            in_auto_route: self.in_auto_route.deep_view(),
            out_auto_route: self.out_auto_route.deep_view(),
            ext: self.ext.deep_view(),
        }
    }
}

// ---------------------------------------------------------------------------
// Case-insensitive static DNS pairs.
// ---------------------------------------------------------------------------

/// One character folded to lower case, as a code point: ASCII capitals move
/// down by 32, everything else is itself.
pub open spec fn fold_char(c: char) -> u32 {
    if 65 <= c as u32 && c as u32 <= 90 {
        (c as u32 + 32) as u32
    } else {
        c as u32
    }
}

/// A hostname normalized to folded code points; two spellings of one name
/// fold to the same sequence.
pub open spec fn fold_host(s: Seq<char>) -> Seq<u32> {
    s.map_values(|c: char| fold_char(c))
}

/// The meaning of the static pair list: a map keyed by the folded hostname.
/// A later pair for the same folded name overrides an earlier one.
pub open spec fn static_map(pairs: Seq<(Seq<char>, Seq<char>)>) -> Map<Seq<u32>, Seq<char>>
    decreases pairs.len(),
{
    if pairs.len() == 0 {
        Map::empty()
    } else {
        static_map(pairs.subrange(0, pairs.len() - 1)).insert(
            fold_host(pairs[pairs.len() - 1].0),
            pairs[pairs.len() - 1].1,
        )
    }
}

fn fold_c(c: char) -> (r: u32)
    ensures
        r == fold_char(c),
{
    let cu = c as u32;
    if 65 <= cu && cu <= 90 {
        cu + 32
    } else {
        cu
    }
}

/// Whether two hostnames are the same name, compared without regard to
/// letter case.
pub fn host_eq(a: &str, b: &str) -> (r: bool)
    ensures
        r == (fold_host(a@) == fold_host(b@)),
{
    let la = a.unicode_len();
    let lb = b.unicode_len();
    if la != lb {
        proof {
            assert(fold_host(a@).len() != fold_host(b@).len());
        }
        return false;
    }
    let mut i: usize = 0;
    while i < la
        invariant
            i <= la,
            la == a@.len(),
            lb == b@.len(),
            la == lb,
            forall|j: int| 0 <= j < i ==> fold_host(a@)[j] == fold_host(b@)[j],
        decreases la - i,
    {
        let ca = a.get_char(i);
        let cb = b.get_char(i);
        if fold_c(ca) != fold_c(cb) {
            proof {
                assert(fold_host(a@)[i as int] != fold_host(b@)[i as int]);
            }
            return false;
        }
        i = i + 1;
    }
    proof {
        assert(fold_host(a@) =~= fold_host(b@));
    }
    true
}

impl DnsClientConfig {
    /// The abstract static mapping this configuration holds.
    pub open spec fn static_view(&self) -> Map<Seq<u32>, Seq<char>> {
        static_map(self.static_pairs.deep_view())
    }

    /// Records a fixed IP for a hostname.  The mapping is keyed by the
    /// case-folded name, so any spelling of the same name finds it again.
    pub fn insert_static_pair(&mut self, host: &str, ip: &str)
        ensures
            final(self).static_view() == old(self).static_view().insert(fold_host(host@), ip@),
            final(self).static_pairs.deep_view() == old(self).static_pairs.deep_view().push(
                (host@, ip@),
            ),
            final(self).dns_server_list == old(self).dns_server_list,
            final(self).ip_strategy == old(self).ip_strategy,
    {
        let ghost before: Seq<(Seq<char>, Seq<char>)> = self.static_pairs.deep_view();
        self.static_pairs.push((String::from_str(host), String::from_str(ip)));
        proof {
            assert(self.static_pairs.deep_view() =~= before.push((host@, ip@)));
            let now = self.static_pairs.deep_view();
            assert(now.subrange(0, now.len() - 1) =~= before);
            assert(static_map(now) == static_map(before).insert(fold_host(host@), ip@));
        }
    }

    /// Looks a hostname up among the static pairs, without regard to letter
    /// case; the last recorded pair for the name wins.
    pub fn lookup_static(&self, host: &str) -> (r: Option<String>)
        ensures
            match r {
                Some(ip) => self.static_view().contains_key(fold_host(host@))
                    && ip@ == self.static_view()[fold_host(host@)],
                None => !self.static_view().contains_key(fold_host(host@)),
            },
    {
        let ghost all: Seq<(Seq<char>, Seq<char>)> = self.static_pairs.deep_view();
        let ghost key: Seq<u32> = fold_host(host@);
        let mut i: usize = self.static_pairs.len();
        proof {
            assert(all.subrange(0, all.len() as int) =~= all);
        }
        while i > 0
            invariant
                i <= self.static_pairs.len(),
                all == self.static_pairs.deep_view(),
                key == fold_host(host@),
                crate::doc::get_opt(static_map(all), key) == crate::doc::get_opt(
                    static_map(all.subrange(0, i as int)),
                    key,
                ),
            decreases i,
        {
            i = i - 1;
            let ghost pre: Seq<(Seq<char>, Seq<char>)> = all.subrange(0, i as int + 1);
            proof {
                assert(pre.subrange(0, pre.len() - 1) =~= all.subrange(0, i as int));
                assert(pre[pre.len() - 1] == all[i as int]);
                assert(static_map(pre) == static_map(all.subrange(0, i as int)).insert(
                    fold_host(all[i as int].0),
                    all[i as int].1,
                ));
            }
            if host_eq(self.static_pairs[i].0.as_str(), host) {
                return Some(self.static_pairs[i].1.clone());
            }
        }
        proof {
            assert(all.subrange(0, 0) =~= Seq::<(Seq<char>, Seq<char>)>::empty());
        }
        None
    }
}

} // verus!
