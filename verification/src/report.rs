//! What the agent sends back to the server about a job.
use vstd::prelude::*;
use crate::jobs::texts;

verus! {

/// The error codes a report can carry.
#[derive(Debug, PartialEq, Eq, Structural, Clone, Copy)]
pub enum SocketIOError {
    ErrDNSLookupFailed,
    ErrPingFailed,
    ErrTCPingFailed,
    ErrMTRFailed,
    ErrHTTPFailed,
}

/// The text of an error code as it goes on the wire (its variant name).
pub open spec fn error_code(e: SocketIOError) -> Seq<char> {
    match e {
        SocketIOError::ErrDNSLookupFailed => "ErrDNSLookupFailed"@,
        SocketIOError::ErrPingFailed => "ErrPingFailed"@,
        SocketIOError::ErrTCPingFailed => "ErrTCPingFailed"@,
        SocketIOError::ErrMTRFailed => "ErrMTRFailed"@,
        SocketIOError::ErrHTTPFailed => "ErrHTTPFailed"@,
    }
}

impl SocketIOError {
    pub fn code(&self) -> (r: &'static str)
        ensures
            r@ == error_code(*self),
    {
        match self {
            SocketIOError::ErrDNSLookupFailed => "ErrDNSLookupFailed",
            SocketIOError::ErrPingFailed => "ErrPingFailed",
            SocketIOError::ErrTCPingFailed => "ErrTCPingFailed",
            SocketIOError::ErrMTRFailed => "ErrMTRFailed",
            SocketIOError::ErrHTTPFailed => "ErrHTTPFailed",
        }
    }
}

/// The kinds of job; each reports under the event of its name.
#[derive(Debug, PartialEq, Eq, Structural, Clone, Copy)]
pub enum JobKind {
    Ping,
    Tcping,
    Dns,
    Mtr,
    Http,
}

pub open spec fn event_of(k: JobKind) -> Seq<char> {
    match k {
        JobKind::Ping => "ping"@,
        JobKind::Tcping => "tcping"@,
        JobKind::Dns => "dns"@,
        JobKind::Mtr => "mtr"@,
        JobKind::Http => "http"@,
    }
}

impl JobKind {
    /// The event name the job's reports are sent under.
    pub fn event_name(&self) -> (r: &'static str)
        ensures
            r@ == event_of(*self),
    {
        match self {
            JobKind::Ping => "ping",
            JobKind::Tcping => "tcping",
            JobKind::Dns => "dns",
            JobKind::Mtr => "mtr",
            JobKind::Http => "http",
        }
    }
}

/// The role of a node on a traced route.
#[derive(Debug, PartialEq, Eq, Structural, Clone, Copy)]
pub enum HopKind {
    DefaultGateway,
    Relay,
    Destination,
}

pub open spec fn hop_kind_name(k: HopKind) -> Seq<char> {
    match k {
        HopKind::DefaultGateway => "DefaultGateway"@,
        HopKind::Relay => "Relay"@,
        HopKind::Destination => "Destination"@,
    }
}

impl HopKind {
    pub fn name(&self) -> (r: &'static str)
        ensures
            r@ == hop_kind_name(*self),
    {
        match self {
            HopKind::DefaultGateway => "DefaultGateway",
            HopKind::Relay => "Relay",
            HopKind::Destination => "Destination",
        }
    }
}

/// One node of a traced route, as the tracer reports it.
#[derive(Debug, PartialEq, Eq)]
pub struct Hop {
    pub seq: u8,
    pub ip_addr: String,
    pub host_name: String,
    pub ttl: Option<u8>,
    pub hop: Option<u8>,
    pub kind: HopKind,
    pub rtt_ms: u128,
}

/// The fields of a report besides the job id and node id.
#[derive(Debug, PartialEq, Eq)]
pub enum ReportBody {
    /// Only an error.
    Failed(SocketIOError),
    /// One ping probe: the address that answered (or the target, on a
    /// failure), the round trip (absent on a failure, sent as null), the
    /// 1-based sequence number, and the error if the probe failed.
    Ping { ip: String, duration_ms: Option<u128>, seq: u32, error: Option<SocketIOError> },
    /// One tcping probe: the target address, the connect time (left out on a
    /// failure), the 1-based sequence number, and the error if it failed.
    Tcping { ip: String, duration_ms: Option<u128>, seq: u32, error: Option<SocketIOError> },
    /// A DNS answer: how long the lookup took and the answers.
    Dns { duration_ms: u128, ips: Vec<String> },
    /// One node of a traced route.
    Hop(Hop),
    /// An HTTP request: the total time, the lookup time, the address used, and
    /// the status code or the error.
    Http {
        duration_ms: u128,
        dns_duration_ms: u128,
        ip: String,
        status: Option<u16>,
        error: Option<SocketIOError>,
    },
}

/// A report: the job it is about, and what it says.
#[derive(Debug, PartialEq, Eq)]
pub struct Report {
    pub job: JobKind,
    pub job_id: String,
    pub node_id: u64,
    pub body: ReportBody,
}


/// A [`Hop`] by plain values.
pub ghost struct HopView {
    pub seq: u8,
    pub ip_addr: Seq<char>,
    pub host_name: Seq<char>,
    pub ttl: Option<u8>,
    pub hop: Option<u8>,
    pub kind: HopKind,
    pub rtt_ms: u128,
}

impl View for Hop {
    type V = HopView;

    open spec fn view(&self) -> HopView {
        HopView {
            seq: self.seq,
            ip_addr: self.ip_addr@,
            host_name: self.host_name@,
            ttl: self.ttl,
            hop: self.hop,
            kind: self.kind,
            rtt_ms: self.rtt_ms,
        }
    }
}

/// A [`ReportBody`] by plain values.
pub ghost enum BodyView {
    Failed(SocketIOError),
    Ping { ip: Seq<char>, duration_ms: Option<u128>, seq: u32, error: Option<SocketIOError> },
    Tcping { ip: Seq<char>, duration_ms: Option<u128>, seq: u32, error: Option<SocketIOError> },
    Dns { duration_ms: u128, ips: Seq<Seq<char>> },
    Hop(HopView),
    Http {
        duration_ms: u128,
        dns_duration_ms: u128,
        ip: Seq<char>,
        status: Option<u16>,
        error: Option<SocketIOError>,
    },
}

impl View for ReportBody {
    type V = BodyView;

    open spec fn view(&self) -> BodyView {
        match self {
            ReportBody::Failed(e) => BodyView::Failed(*e),
            ReportBody::Ping { ip, duration_ms, seq, error } => BodyView::Ping {
                ip: ip@,
                duration_ms: *duration_ms,
                seq: *seq,
                error: *error,
            },
            ReportBody::Tcping { ip, duration_ms, seq, error } => BodyView::Tcping {
                ip: ip@,
                duration_ms: *duration_ms,
                seq: *seq,
                error: *error,
            },
            ReportBody::Dns { duration_ms, ips } => BodyView::Dns {
                duration_ms: *duration_ms,
                ips: texts(ips@),
            },
            ReportBody::Hop(h) => BodyView::Hop(h@),
            ReportBody::Http { duration_ms, dns_duration_ms, ip, status, error } => BodyView::Http {
                duration_ms: *duration_ms,
                dns_duration_ms: *dns_duration_ms,
                ip: ip@,
                status: *status,
                error: *error,
            },
        }
    }
}

/// A [`Report`] by plain values.
pub ghost struct ReportView {
    pub job: JobKind,
    pub job_id: Seq<char>,
    pub node_id: u64,
    pub body: BodyView,
}

impl View for Report {
    type V = ReportView;

    open spec fn view(&self) -> ReportView {
        ReportView { job: self.job, job_id: self.job_id@, node_id: self.node_id, body: self.body@ }
    }
}

} // verus!
