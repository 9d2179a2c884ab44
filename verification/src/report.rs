//! The diagnosis report: what every stage measured. Stages only add facts here;
//! the verdict engine reads them.

use crate::addr::IpAddr;
use crate::measure::{Millis, Percent};
use vstd::prelude::*;

verus! {

/// The target of the diagnosis.
#[derive(Debug, Clone)]
pub struct TargetInfo {
    /// Host name or IP literal.
    pub host: String,
    pub port: u16,
    /// Whether a TLS handshake is made.
    pub use_tls: bool,
    /// Whether an HTTP GET is made.
    pub do_http: bool,
    /// Path of the HTTP request.
    pub path: String,
    /// The host is an IP literal, so that the DNS stage is skipped.
    pub is_ip_literal: bool,
}

/// Stage: environment.
#[derive(Debug, Clone)]
pub struct EnvReport {
    /// Name servers of `/etc/resolv.conf`.
    pub nameservers: Vec<IpAddr>,
    /// Search domains of `/etc/resolv.conf`.
    pub search_domains: Vec<String>,
    /// The address by which `/etc/hosts` overrides the target, if it does.
    pub hosts_override: Option<String>,
    /// Proxy environment variables that are set: name and value.
    pub proxies: Vec<(String, String)>,
    /// The value of `NO_PROXY` / `no_proxy`.
    pub no_proxy: Option<String>,
}

/// Whom a DNS query was sent to.
#[derive(Debug, Clone, Copy, PartialEq, Eq, Structural)]
pub enum DnsSource {
    /// The system resolver.
    System,
    /// A name server of `/etc/resolv.conf`, queried directly.
    Local(IpAddr),
    /// A public resolver.
    Public(IpAddr),
}

/// How a DNS query ended.
#[derive(Debug, PartialEq)]
pub enum DnsOutcome {
    Resolved,
    NxDomain,
    ServFail,
    Timeout,
    Error(String),
}

impl Clone for DnsOutcome {
    fn clone(&self) -> (r: Self)
        ensures
            r == *self,
    {
        match self {
            DnsOutcome::Resolved => DnsOutcome::Resolved,
            DnsOutcome::NxDomain => DnsOutcome::NxDomain,
            DnsOutcome::ServFail => DnsOutcome::ServFail,
            DnsOutcome::Timeout => DnsOutcome::Timeout,
            DnsOutcome::Error(e) => DnsOutcome::Error(e.clone()),
        }
    }
}

/// Stage: DNS, one source.
#[derive(Debug, Clone)]
pub struct DnsSourceResult {
    pub source: DnsSource,
    /// Label for display.
    pub label: String,
    pub outcome: DnsOutcome,
    pub ips: Vec<IpAddr>,
    pub latency_ms: Option<Millis>,
}

impl DnsSourceResult {
    pub open spec fn resolved(self) -> bool {
        self.outcome is Resolved
    }

    pub open spec fn local(self) -> bool {
        self.source is System || self.source is Local
    }

    pub fn is_ok(&self) -> (r: bool)
        ensures
            r == self.resolved(),
    {
        matches!(self.outcome, DnsOutcome::Resolved)
    }

    /// The source belongs to this machine's own configuration.
    pub fn is_local(&self) -> (r: bool)
        ensures
            r == self.local(),
    {
        matches!(self.source, DnsSource::System | DnsSource::Local(_))
    }

    /// The source is a public resolver.
    pub fn is_public(&self) -> (r: bool)
        ensures
            r == !self.local(),
            r == (self.source is Public),
    {
        matches!(self.source, DnsSource::Public(_))
    }
}

#[derive(Debug, Clone)]
pub struct DnsReport {
    pub sources: Vec<DnsSourceResult>,
    /// The stage was skipped, because the target is an IP literal.
    pub skipped: bool,
}

/// How the connection attempts to one address ended.
#[derive(Debug, PartialEq)]
pub enum TcpOutcome {
    Connected,
    Refused,
    Timeout,
    Error(String),
}

impl Clone for TcpOutcome {
    fn clone(&self) -> (r: Self)
        ensures
            r == *self,
    {
        match self {
            TcpOutcome::Connected => TcpOutcome::Connected,
            TcpOutcome::Refused => TcpOutcome::Refused,
            TcpOutcome::Timeout => TcpOutcome::Timeout,
            TcpOutcome::Error(e) => TcpOutcome::Error(e.clone()),
        }
    }
}

/// Stage: TCP, one address.
#[derive(Debug, Clone)]
pub struct TcpProbe {
    pub ip: IpAddr,
    pub port: u16,
    pub samples: u32,
    pub successes: u32,
    pub outcome: TcpOutcome,
    pub min_ms: Option<Millis>,
    pub avg_ms: Option<Millis>,
    pub max_ms: Option<Millis>,
}

impl TcpProbe {
    pub open spec fn connected(self) -> bool {
        self.successes > 0
    }

    /// At least one attempt connected.
    pub fn is_ok(&self) -> (r: bool)
        ensures
            r == self.connected(),
    {
        self.successes > 0
    }
}

#[derive(Debug, Clone)]
pub struct TcpReport {
    pub probes: Vec<TcpProbe>,
}

/// Stage: TLS.
#[derive(Debug, Clone)]
pub struct TlsReport {
    /// The certificate chain was verified.
    pub verified: bool,
    /// The negotiated TLS version.
    pub version: Option<String>,
    /// Days until the certificate expires; negative when it has expired.
    pub days_until_expiry: Option<i64>,
    /// The host name matches the certificate.
    pub hostname_matches: Option<bool>,
    pub cert_expired: bool,
    /// The issuer of the certificate that was presented.
    pub presented_issuer: Option<String>,
    /// The issuer looks like a middlebox.
    pub interception_suspected: bool,
    pub handshake_ms: Option<Millis>,
    pub error: Option<String>,
}

/// Stage: HTTP.
#[derive(Debug, Clone)]
pub struct HttpReport {
    pub status: Option<u16>,
    /// The redirects that were followed, such as `301 -> https://example.com/`.
    pub redirect_chain: Vec<String>,
    /// Name resolution time, as the DNS stage measured it.
    pub dns_ms: Option<Millis>,
    /// Connect time, as the TCP stage measured it.
    pub connect_ms: Option<Millis>,
    /// Handshake time, as the TLS stage measured it.
    pub tls_ms: Option<Millis>,
    /// Time to the response header of the last hop.
    pub ttfb_ms: Option<Millis>,
    /// Time until the whole body was received.
    pub total_ms: Option<Millis>,
    pub error: Option<String>,
    /// The `alt-svc` header of the last response advertises HTTP/3.
    pub h3_advertised: bool,
    /// The `alt-svc` header of the last response.
    pub alt_svc: Option<String>,
}

/// How a QUIC handshake ended.
#[derive(Debug, Clone, PartialEq)]
pub enum QuicOutcome {
    Established {
        handshake_ms: Millis,
        /// The negotiated application protocol.
        negotiated_alpn: Option<String>,
    },
    /// Nothing came back: the mark of a blocked UDP port.
    Timeout,
    /// The server answered, but the negotiation failed.
    HandshakeError(String),
    /// An error on this machine.
    LocalError(String),
}

/// Stage: QUIC/HTTP3.
#[derive(Debug, Clone)]
pub struct QuicReport {
    pub outcome: QuicOutcome,
}

/// Stage: path quality.
#[derive(Debug, Clone)]
pub struct PathReport {
    pub ip: IpAddr,
    pub port: u16,
    pub sent: u32,
    pub lost: u32,
    pub loss_pct: Percent,
    pub min_ms: Option<Millis>,
    pub avg_ms: Option<Millis>,
    pub max_ms: Option<Millis>,
    /// Jitter: the standard deviation of the round-trip times.
    pub jitter_ms: Option<Millis>,
}

/// Stage: path trace, one hop.
#[derive(Debug, Clone, Copy, PartialEq, Eq, Structural)]
pub struct TraceHop {
    /// The TTL of the probe, from 1 on.
    pub index: u8,
    /// The router that replied, if one did.
    pub addr: Option<IpAddr>,
    pub rtt_ms: Option<Millis>,
}

/// How one datagram sent with the don't-fragment flag fared.
#[derive(Debug, Clone, Copy, PartialEq, Eq, Structural)]
pub enum MtuProbeOutcome {
    /// It was sent, and neither an ICMP message nor the destination replied.
    Silent,
    /// An ICMP fragmentation-needed message came back, perhaps with an MTU.
    FragNeeded { mtu: Option<u32> },
    /// It reached the destination.
    Delivered,
    /// It could not be sent.
    LocalError,
}

/// One datagram of the MTU probe.
#[derive(Debug, Clone, Copy, PartialEq, Eq, Structural)]
pub struct MtuProbe {
    /// The size of the whole IP packet.
    pub size: u16,
    pub outcome: MtuProbeOutcome,
}

/// Stage: path trace, the measurements.
#[derive(Debug, Clone)]
pub struct TraceData {
    pub hops: Vec<TraceHop>,
    /// The destination itself replied.
    pub dest_reached: bool,
    /// The path MTU that the kernel knows.
    pub kernel_mtu: Option<u16>,
    pub mtu_probes: Vec<MtuProbe>,
}

/// Stage: path trace, the result.
#[derive(Debug, Clone)]
pub enum TraceReport {
    Ran(TraceData),
    /// The platform has no support for the trace.
    Unsupported,
    Failed(String),
}

/// The stages of a diagnosis, in the order in which they run.
#[derive(Debug, Clone, Copy, PartialEq, Eq, Structural)]
pub enum StageName {
    Env,
    Dns,
    Tcp,
    Tls,
    Http,
    Quic,
    Path,
    Trace,
}

impl StageName {
    pub open spec fn code(self) -> Seq<char> {
        match self {
            StageName::Env => "env"@,
            StageName::Dns => "dns"@,
            StageName::Tcp => "tcp"@,
            StageName::Tls => "tls"@,
            StageName::Http => "http"@,
            StageName::Quic => "quic"@,
            StageName::Path => "path"@,
            StageName::Trace => "trace"@,
        }
    }

    /// The name of the stage for machine-readable output and notices.
    pub fn as_str(&self) -> (s: &'static str)
        ensures
            s@ == self.code(),
    {
        match self {
            StageName::Env => "env",
            StageName::Dns => "dns",
            StageName::Tcp => "tcp",
            StageName::Tls => "tls",
            StageName::Http => "http",
            StageName::Quic => "quic",
            StageName::Path => "path",
            StageName::Trace => "trace",
        }
    }
}

/// Why a diagnosis was cut short.
#[derive(Debug, Clone, Copy, PartialEq, Eq, Structural)]
pub enum TruncationReason {
    /// The overall deadline passed.
    MaxTimeExceeded,
    /// The user interrupted it.
    Interrupted,
}

/// Whether the diagnosis ran to its end, and which stages did.
#[derive(Debug, Clone)]
pub struct Completeness {
    pub complete: bool,
    pub truncated_reason: Option<TruncationReason>,
    pub ran_stages: Vec<StageName>,
    /// The stages that a cut-short diagnosis did not run.
    pub skipped_stages: Vec<StageName>,
}

/// How long one stage took.
#[derive(Debug, Clone, Copy, PartialEq, Eq, Structural)]
pub struct StageDuration {
    pub stage: StageName,
    pub ms: Millis,
}

/// The results of all stages.
#[derive(Debug, Clone)]
pub struct Report {
    pub target: TargetInfo,
    pub env: EnvReport,
    pub dns: DnsReport,
    pub tcp: TcpReport,
    pub tls: Option<TlsReport>,
    pub http: Option<HttpReport>,
    pub quic: Option<QuicReport>,
    pub path: Option<PathReport>,
    pub trace: Option<TraceReport>,
    pub completeness: Completeness,
    pub stage_durations: Vec<StageDuration>,
}

impl Default for EnvReport {
    fn default() -> (r: Self)
        ensures
            r.nameservers@.len() == 0,
            r.search_domains@.len() == 0,
            r.hosts_override is None,
            r.proxies@.len() == 0,
            r.no_proxy is None,
    {
        EnvReport {
            nameservers: Vec::new(),
            search_domains: Vec::new(),
            hosts_override: None,
            proxies: Vec::new(),
            no_proxy: None,
        }
    }
}

impl Default for DnsReport {
    fn default() -> (r: Self)
        ensures
            r.sources@.len() == 0,
            !r.skipped,
    {
        DnsReport { sources: Vec::new(), skipped: false }
    }
}

impl Default for TcpReport {
    fn default() -> (r: Self)
        ensures
            r.probes@.len() == 0,
    {
        TcpReport { probes: Vec::new() }
    }
}

impl TlsReport {
    pub open spec fn blank(self) -> bool {
        self == (TlsReport {
            verified: false,
            version: None,
            days_until_expiry: None,
            hostname_matches: None,
            cert_expired: false,
            presented_issuer: None,
            interception_suspected: false,
            handshake_ms: None,
            error: None,
        })
    }
}

impl Default for TlsReport {
    fn default() -> (r: Self)
        ensures
            r.blank(),
    {
        TlsReport {
            verified: false,
            version: None,
            days_until_expiry: None,
            hostname_matches: None,
            cert_expired: false,
            presented_issuer: None,
            interception_suspected: false,
            handshake_ms: None,
            error: None,
        }
    }
}

impl Default for HttpReport {
    fn default() -> (r: Self)
        ensures
            r.status is None,
            r.redirect_chain@.len() == 0,
            r.dns_ms is None,
            r.connect_ms is None,
            r.tls_ms is None,
            r.ttfb_ms is None,
            r.total_ms is None,
            r.error is None,
            !r.h3_advertised,
            r.alt_svc is None,
    {
        HttpReport {
            status: None,
            redirect_chain: Vec::new(),
            dns_ms: None,
            connect_ms: None,
            tls_ms: None,
            ttfb_ms: None,
            total_ms: None,
            error: None,
            h3_advertised: false,
            alt_svc: None,
        }
    }
}

impl Default for TraceData {
    fn default() -> (r: Self)
        ensures
            r.hops@.len() == 0,
            !r.dest_reached,
            r.kernel_mtu is None,
            r.mtu_probes@.len() == 0,
    {
        TraceData { hops: Vec::new(), dest_reached: false, kernel_mtu: None, mtu_probes: Vec::new() }
    }
}

impl Default for Completeness {
    /// A diagnosis that nothing cut short.
    fn default() -> (r: Self)
        ensures
            r.complete,
            r.truncated_reason is None,
            r.ran_stages@.len() == 0,
            r.skipped_stages@.len() == 0,
    {
        Completeness {
            complete: true,
            truncated_reason: None,
            ran_stages: Vec::new(),
            skipped_stages: Vec::new(),
        }
    }
}

} // verus!
