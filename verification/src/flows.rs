//! The http, mtr and dns jobs as state machines: each resolves its host if
//! it has to, does its one piece of network work, and reports. The caller
//! does the lookups, the request and the trace.
use vstd::prelude::*;
use crate::jobs::{
    dns_answers, dns_answers_of, http_endpoint, http_endpoint_of, local_bind_address, parses_as_ip,
    plan_lookup, record_type_for, resolution_of, resolve_address, texts, DnsRequest, HttpRequest,
    Lookup, MtrRequest, Resolution,
};
use crate::report::{BodyView, Hop, HopView, JobKind, Report, ReportBody, ReportView, SocketIOError};
use crate::text::opt_view;

verus! {

/// The two jobs that work on one address.
#[derive(Debug, PartialEq, Eq, Structural, Clone, Copy)]
pub enum TargetKind {
    /// An HTTP GET of the job's URL, sent to the resolved address.
    Http,
    /// A traceroute to the address.
    Mtr,
}

#[derive(Debug, PartialEq, Eq, Structural, Clone, Copy)]
pub enum FlowPhase {
    Resolving,
    Working,
    Finished,
}

/// What came of the last action.
#[derive(Debug, PartialEq, Eq)]
pub enum TargetEvent {
    /// The answers of the lookup, `None` where it failed.
    Resolved(Option<Vec<String>>),
    /// The HTTP request answered with this status (`None`: it failed); the
    /// total time and the time the lookup took.
    Fetched { status: Option<u16>, duration_ms: u128, dns_duration_ms: u128 },
    /// The route's nodes, in order (`None`: the trace failed).
    Traced(Option<Vec<Hop>>),
}

/// What the caller does next.
#[derive(Debug, PartialEq, Eq)]
pub enum TargetAction {
    /// Resolve `name` with this record type, asking `ns` if given.
    Resolve { name: String, record_type: String, ns: Option<String> },
    /// GET `url` from the local address `local`, with `host` resolved to `ip`:`port`.
    Fetch { url: String, host: String, ip: String, port: u16, local: &'static str },
    /// Trace the route to `ip`.
    Trace { ip: String },
    /// The lookup answered without any IP address; the job cannot go on.
    NoAddress,
    /// The job is over.
    Stop,
}

pub ghost enum TargetEventView {
    Resolved(Option<Seq<Seq<char>>>),
    Fetched { status: Option<u16>, duration_ms: u128, dns_duration_ms: u128 },
    Traced(Option<Seq<HopView>>),
}

pub ghost enum TargetActionView {
    Resolve { name: Seq<char>, record_type: Seq<char>, ns: Option<Seq<char>> },
    Fetch { url: Seq<char>, host: Seq<char>, ip: Seq<char>, port: u16, local: Seq<char> },
    Trace { ip: Seq<char> },
    NoAddress,
    Stop,
}

/// Hops by plain values.
pub open spec fn hop_views(hs: Seq<Hop>) -> Seq<HopView> {
    hs.map_values(|h: Hop| h@)
}

impl View for TargetEvent {
    type V = TargetEventView;

    open spec fn view(&self) -> TargetEventView {
        match self {
            TargetEvent::Resolved(r) => TargetEventView::Resolved(
                match r {
                    Some(v) => Some(texts(v@)),
                    None => None,
                },
            ),
            TargetEvent::Fetched { status, duration_ms, dns_duration_ms } => TargetEventView::Fetched {
                status: *status,
                duration_ms: *duration_ms,
                dns_duration_ms: *dns_duration_ms,
            },
            TargetEvent::Traced(t) => TargetEventView::Traced(
                match t {
                    Some(v) => Some(hop_views(v@)),
                    None => None,
                },
            ),
        }
    }
}

impl View for TargetAction {
    type V = TargetActionView;

    open spec fn view(&self) -> TargetActionView {
        match self {
            TargetAction::Resolve { name, record_type, ns } => TargetActionView::Resolve {
                name: name@,
                record_type: record_type@,
                ns: opt_view(ns),
            },
            TargetAction::Fetch { url, host, ip, port, local } => TargetActionView::Fetch {
                url: url@,
                host: host@,
                ip: ip@,
                port: *port,
                local: local@,
            },
            TargetAction::Trace { ip } => TargetActionView::Trace { ip: ip@ },
            TargetAction::NoAddress => TargetActionView::NoAddress,
            TargetAction::Stop => TargetActionView::Stop,
        }
    }
}

/// An http or mtr job by plain values.
pub ghost struct TargetJobView {
    pub kind: TargetKind,
    pub job_id: Seq<char>,
    pub node_id: u64,
    /// The URL (http) or the host (mtr) as the request gave it.
    pub url: Seq<char>,
    /// The host name or address the job works on.
    pub host: Seq<char>,
    /// The port of the URL (http).
    pub port: u16,
    pub is_ipv4: bool,
    /// The address worked on, once known.
    pub ip: Seq<char>,
    pub phase: FlowPhase,
}

/// An http or mtr job.
pub struct TargetJob {
    kind: TargetKind,
    job_id: String,
    node_id: u64,
    url: String,
    host: String,
    port: u16,
    is_ipv4: bool,
    ip: String,
    phase: FlowPhase,
}

impl View for TargetJob {
    type V = TargetJobView;

    closed spec fn view(&self) -> TargetJobView {
        TargetJobView {
            kind: self.kind,
            job_id: self.job_id@,
            node_id: self.node_id,
            url: self.url@,
            host: self.host@,
            port: self.port,
            is_ipv4: self.is_ipv4,
            ip: self.ip@,
            phase: self.phase,
        }
    }
}

pub open spec fn target_job_kind(k: TargetKind) -> JobKind {
    match k {
        TargetKind::Http => JobKind::Http,
        TargetKind::Mtr => JobKind::Mtr,
    }
}

/// A report of this job.
pub open spec fn target_report(j: TargetJobView, body: BodyView) -> ReportView {
    ReportView { job: target_job_kind(j.kind), job_id: j.job_id, node_id: j.node_id, body }
}

/// The network work of a job on its address `ip`.
pub open spec fn work_on(j: TargetJobView, ip: Seq<char>) -> TargetActionView {
    match j.kind {
        TargetKind::Http => TargetActionView::Fetch {
            url: j.url,
            host: j.host,
            ip,
            port: j.port,
            local: if j.is_ipv4 {
                "0.0.0.0"@
            } else {
                "::"@
            },
        },
        TargetKind::Mtr => TargetActionView::Trace { ip },
    }
}

/// How a job starts on its host: working at once if the host is an
/// address, else resolving it first.
pub open spec fn target_start(j: TargetJobView, ns: Option<Seq<char>>) -> (TargetJobView, TargetActionView) {
    if parses_as_ip(j.host) {
        (
            TargetJobView { ip: j.host, phase: FlowPhase::Working, ..j },
            work_on(j, j.host),
        )
    } else {
        (
            TargetJobView { phase: FlowPhase::Resolving, ..j },
            TargetActionView::Resolve {
                name: j.host,
                record_type: record_type_for(j.is_ipv4),
                ns,
            },
        )
    }
}

/// The reports of a traced route: one per node, in order.
pub open spec fn hop_reports_of(j: TargetJobView, hops: Seq<HopView>) -> Seq<ReportView> {
    hops.map_values(|h: HopView| target_report(j, BodyView::Hop(h)))
}

/// Which events a job waits for in each phase.
pub open spec fn target_accepts(j: TargetJobView, e: TargetEventView) -> bool {
    match e {
        TargetEventView::Resolved(_) => j.phase == FlowPhase::Resolving,
        TargetEventView::Fetched { .. } => j.phase == FlowPhase::Working && j.kind
            == TargetKind::Http,
        TargetEventView::Traced(_) => j.phase == FlowPhase::Working && j.kind == TargetKind::Mtr,
    }
}

/// The next state of a job, its reports and what it asks for.
pub open spec fn target_step(j: TargetJobView, e: TargetEventView) -> (TargetJobView, Seq<ReportView>, TargetActionView) {
    let done = TargetJobView { phase: FlowPhase::Finished, ..j };
    match e {
        TargetEventView::Resolved(records) => match resolution_of(records) {
            None => (
                done,
                seq![target_report(j, BodyView::Failed(SocketIOError::ErrDNSLookupFailed))],
                TargetActionView::Stop,
            ),
            Some(None) => (done, Seq::empty(), TargetActionView::NoAddress),
            Some(Some(a)) => (
                TargetJobView { ip: a, phase: FlowPhase::Working, ..j },
                Seq::empty(),
                work_on(j, a),
            ),
        },
        TargetEventView::Fetched { status, duration_ms, dns_duration_ms } => (
            done,
            seq![
                target_report(
                    j,
                    BodyView::Http {
                        duration_ms,
                        dns_duration_ms,
                        ip: j.ip,
                        status,
                        error: if status is Some {
                            None
                        } else {
                            Some(SocketIOError::ErrHTTPFailed)
                        },
                    },
                ),
            ],
            TargetActionView::Stop,
        ),
        TargetEventView::Traced(nodes) => match nodes {
            Some(hops) => (done, hop_reports_of(j, hops), TargetActionView::Stop),
            None => (
                done,
                seq![target_report(j, BodyView::Failed(SocketIOError::ErrMTRFailed))],
                TargetActionView::Stop,
            ),
        },
    }
}

/// Reports by plain values.
pub open spec fn report_views(rs: Seq<Report>) -> Seq<ReportView> {
    rs.map_values(|r: Report| r@)
}

impl TargetJob {
    pub fn kind(&self) -> (r: TargetKind)
        ensures
            r == self@.kind,
    {
        self.kind
    }

    pub fn phase(&self) -> (r: FlowPhase)
        ensures
            r == self@.phase,
    {
        self.phase
    }

    fn begin(job: TargetJob, ns: &Option<String>) -> (r: (TargetJob, TargetAction))
        requires
            job@.phase == FlowPhase::Resolving,
        ensures
            (r.0@, r.1@) == target_start(job@, opt_view(ns)),
    {
        let mut j = job;
        match plan_lookup(j.host.as_str(), j.is_ipv4) {
            Lookup::Direct(a) => {
                j.ip = a;
                j.phase = FlowPhase::Working;
                let act = j.work();
                (j, act)
            },
            Lookup::Resolve { name, record_type } => (
                j,
                TargetAction::Resolve {
                    name,
                    record_type: String::from_str(record_type),
                    ns: ns.clone(),
                },
            ),
        }
    }

    /// Starts an http job; `None` where its URL does not parse or has no host.
    pub fn http(req: &HttpRequest) -> (r: Option<(TargetJob, TargetAction)>)
        ensures
            match http_endpoint_of(req.url@) {
                None => r is None,
                Some((host, port)) => r matches Some((j, a)) && (j@, a@) == target_start(
                    TargetJobView {
                        kind: TargetKind::Http,
                        job_id: req.job_id@,
                        node_id: req.node_id,
                        url: req.url@,
                        host,
                        port,
                        is_ipv4: req.is_ipv4,
                        ip: host,
                        phase: FlowPhase::Resolving,
                    },
                    opt_view(&req.ns),
                ),
            },
    {
        match http_endpoint(req.url.as_str()) {
            None => None,
            Some((host, port)) => {
                let ip = host.clone();
                let j = TargetJob {
                    kind: TargetKind::Http,
                    job_id: req.job_id.clone(),
                    node_id: req.node_id,
                    url: req.url.clone(),
                    host,
                    port,
                    is_ipv4: req.is_ipv4,
                    ip,
                    phase: FlowPhase::Resolving,
                };
                Some(TargetJob::begin(j, &req.ns))
            },
        }
    }

    /// Starts an mtr job.
    pub fn mtr(req: &MtrRequest) -> (r: (TargetJob, TargetAction))
        ensures
            (r.0@, r.1@) == target_start(
                TargetJobView {
                    kind: TargetKind::Mtr,
                    job_id: req.job_id@,
                    node_id: req.node_id,
                    url: req.host@,
                    host: req.host@,
                    port: 0,
                    is_ipv4: req.is_ipv4,
                    ip: req.host@,
                    phase: FlowPhase::Resolving,
                },
                opt_view(&req.ns),
            ),
    {
        let j = TargetJob {
            kind: TargetKind::Mtr,
            job_id: req.job_id.clone(),
            node_id: req.node_id,
            url: req.host.clone(),
            host: req.host.clone(),
            port: 0,
            is_ipv4: req.is_ipv4,
            ip: req.host.clone(),
            phase: FlowPhase::Resolving,
        };
        TargetJob::begin(j, &req.ns)
    }

    fn work(&self) -> (r: TargetAction)
        ensures
            r@ == work_on(self@, self@.ip),
    {
        match self.kind {
            TargetKind::Http => TargetAction::Fetch {
                url: self.url.clone(),
                host: self.host.clone(),
                ip: self.ip.clone(),
                port: self.port,
                local: local_bind_address(self.is_ipv4),
            },
            TargetKind::Mtr => TargetAction::Trace { ip: self.ip.clone() },
        }
    }

    fn report(&self, body: ReportBody) -> (r: Report)
        ensures
            r@ == target_report(self@, body@),
    {
        let job = match self.kind {
            TargetKind::Http => JobKind::Http,
            TargetKind::Mtr => JobKind::Mtr,
        };
        Report { job, job_id: self.job_id.clone(), node_id: self.node_id, body }
    }

    fn hop_reports(&self, hops: Vec<Hop>) -> (r: Vec<Report>)
        ensures
            report_views(r@) == hop_reports_of(self@, hop_views(hops@)),
    {
        let ghost hs = hops@;
        let n = hops.len();
        let mut rest = hops;
        let mut rev: Vec<Hop> = Vec::new();
        while rest.len() > 0
            invariant
                hs.len() == n,
                rest@.len() + rev@.len() == n,
                rest@ == hs.take(rest@.len() as int),
                forall|k: int| 0 <= k < rev@.len() ==> #[trigger] rev@[k] == hs[n - 1 - k],
            decreases rest.len(),
        {
            let h = rest.pop().unwrap();
            assert(rest@ =~= hs.take(rest@.len() as int));
            rev.push(h);
        }
        let mut out: Vec<Report> = Vec::new();
        while rev.len() > 0
            invariant
                hs.len() == n,
                out@.len() + rev@.len() == n,
                forall|k: int| 0 <= k < rev@.len() ==> #[trigger] rev@[k] == hs[n - 1 - k],
                forall|k: int|
                    0 <= k < out@.len() ==> (#[trigger] out@[k])@ == target_report(
                        self@,
                        BodyView::Hop(hs[k]@),
                    ),
            decreases rev.len(),
        {
            let h = rev.pop().unwrap();
            out.push(self.report(ReportBody::Hop(h)));
        }
        assert(report_views(out@) =~= hop_reports_of(self@, hop_views(hs)));
        out
    }

    /// Takes what came of the last action; returns the reports to send, in
    /// order, and what to do next.
    pub fn step(&mut self, event: TargetEvent) -> (r: (Vec<Report>, TargetAction))
        requires
            target_accepts(old(self)@, event@),
        ensures
            (final(self)@, report_views(r.0@), r.1@) == target_step(old(self)@, event@),
    {
        let mut out: Vec<Report> = Vec::new();
        match event {
            TargetEvent::Resolved(records) => match resolve_address(&records) {
                Resolution::LookupFailed => {
                    out.push(self.report(ReportBody::Failed(SocketIOError::ErrDNSLookupFailed)));
                    self.phase = FlowPhase::Finished;
                    assert(report_views(out@) =~= seq![
                        target_report(
                            old(self)@,
                            BodyView::Failed(SocketIOError::ErrDNSLookupFailed),
                        ),
                    ]);
                    (out, TargetAction::Stop)
                },
                Resolution::NoAddress => {
                    self.phase = FlowPhase::Finished;
                    assert(report_views(out@) =~= Seq::empty());
                    (out, TargetAction::NoAddress)
                },
                Resolution::Address(a) => {
                    self.ip = a;
                    self.phase = FlowPhase::Working;
                    assert(report_views(out@) =~= Seq::empty());
                    (out, self.work())
                },
            },
            TargetEvent::Fetched { status, duration_ms, dns_duration_ms } => {
                let error = if status.is_some() {
                    None
                } else {
                    Some(SocketIOError::ErrHTTPFailed)
                };
                let ip = self.ip.clone();
                out.push(
                    self.report(ReportBody::Http { duration_ms, dns_duration_ms, ip, status, error }),
                );
                self.phase = FlowPhase::Finished;
                assert(report_views(out@) =~= seq![out@[0]@]);
                (out, TargetAction::Stop)
            },
            TargetEvent::Traced(nodes) => match nodes {
                Some(hops) => {
                    let rs = self.hop_reports(hops);
                    self.phase = FlowPhase::Finished;
                    (rs, TargetAction::Stop)
                },
                None => {
                    out.push(self.report(ReportBody::Failed(SocketIOError::ErrMTRFailed)));
                    self.phase = FlowPhase::Finished;
                    assert(report_views(out@) =~= seq![out@[0]@]);
                    (out, TargetAction::Stop)
                },
            },
        }
    }
}


/// An http or mtr job whose host is not an IP address starts by resolving
/// that host: with an `A` query for an IPv4 job and an `AAAA` query for an
/// IPv6 one, whatever the kind of job, asking the request's name server. A
/// job whose host is an address works on it at once: an http job fetches
/// from the local address of its IP version, an mtr job traces.
pub proof fn law_target_lookup_record_type(j: TargetJobView, ns: Option<Seq<char>>)
    ensures
        !parses_as_ip(j.host) ==> target_start(j, ns).1 == (TargetActionView::Resolve {
            name: j.host,
            record_type: if j.is_ipv4 {
                "A"@
            } else {
                "AAAA"@
            },
            ns,
        }),
        parses_as_ip(j.host) && j.kind == TargetKind::Http ==> target_start(j, ns).1 == (
        TargetActionView::Fetch {
            url: j.url,
            host: j.host,
            ip: j.host,
            port: j.port,
            local: if j.is_ipv4 {
                "0.0.0.0"@
            } else {
                "::"@
            },
        }),
        parses_as_ip(j.host) && j.kind == TargetKind::Mtr ==> target_start(j, ns).1 == (
        TargetActionView::Trace { ip: j.host }),
{
}

/// An http or mtr job whose host cannot be resolved sends one report, with
/// `ErrDNSLookupFailed`, and neither requests nor traces anything.
pub proof fn law_target_lookup_failure_reports_once(j: TargetJobView)
    requires
        j.phase == FlowPhase::Resolving,
    ensures
        target_step(j, TargetEventView::Resolved(None)).1 == seq![
            target_report(j, BodyView::Failed(SocketIOError::ErrDNSLookupFailed)),
        ],
        target_step(j, TargetEventView::Resolved(None)).2 == TargetActionView::Stop,
        target_step(j, TargetEventView::Resolved(None)).0.phase == FlowPhase::Finished,
{
}

/// Once its work is done an http or mtr job is over: an http job sends one
/// report, with the status or else `ErrHTTPFailed`; an mtr job sends one
/// report per node in order, or one `ErrMTRFailed` report.
pub proof fn law_target_work_reports(j: TargetJobView, e: TargetEventView)
    requires
        j.phase == FlowPhase::Working,
        target_accepts(j, e),
    ensures
        target_step(j, e).0.phase == FlowPhase::Finished,
        target_step(j, e).2 == TargetActionView::Stop,
        e matches TargetEventView::Fetched { status, .. } ==> target_step(j, e).1.len() == 1 && (
        match target_step(j, e).1[0].body {
            BodyView::Http { status: s, error, .. } => s == status && (error is Some <==> status
                is None),
            _ => false,
        }),
        e matches TargetEventView::Traced(Some(hops)) ==> target_step(j, e).1.len() == hops.len()
            && forall|i: int|
            0 <= i < hops.len() ==> (#[trigger] target_step(j, e).1[i]).body == BodyView::Hop(
                hops[i],
            ),
        e == TargetEventView::Traced(None) ==> target_step(j, e).1 == seq![
            target_report(j, BodyView::Failed(SocketIOError::ErrMTRFailed)),
        ],
{
}

/// A dns job by plain values.
pub ghost struct DnsJobView {
    pub job_id: Seq<char>,
    pub node_id: u16,
    pub record_type: Seq<char>,
    pub phase: FlowPhase,
}

/// A dns job.
pub struct DnsJob {
    job_id: String,
    node_id: u16,
    record_type: String,
    phase: FlowPhase,
}

impl View for DnsJob {
    type V = DnsJobView;

    closed spec fn view(&self) -> DnsJobView {
        DnsJobView {
            job_id: self.job_id@,
            node_id: self.node_id,
            record_type: self.record_type@,
            phase: self.phase,
        }
    }
}

/// What a dns job reports once its lookup is over: the answers and the
/// time it took, or `ErrDNSLookupFailed`.
pub open spec fn dns_outcome(j: DnsJobView, records: Option<Seq<Seq<char>>>, duration_ms: u128) -> ReportView {
    ReportView {
        job: JobKind::Dns,
        job_id: j.job_id,
        node_id: j.node_id as u64,
        body: match records {
            Some(rs) => BodyView::Dns { duration_ms, ips: dns_answers_of(j.record_type, rs) },
            None => BodyView::Failed(SocketIOError::ErrDNSLookupFailed),
        },
    }
}

impl DnsJob {
    pub fn phase(&self) -> (r: FlowPhase)
        ensures
            r == self@.phase,
    {
        self.phase
    }

    /// Starts a dns job: it resolves the domain with the requested type.
    pub fn start(req: &DnsRequest) -> (r: (DnsJob, TargetAction))
        ensures
            r.0@ == (DnsJobView {
                job_id: req.job_id@,
                node_id: req.node_id,
                record_type: req.record_type@,
                phase: FlowPhase::Resolving,
            }),
            r.1 matches TargetAction::Resolve { name, record_type, ns } && name@ == req.domain@
                && record_type@ == req.record_type@ && opt_view(&ns) == opt_view(&req.ns),
    {
        (
            DnsJob {
                job_id: req.job_id.clone(),
                node_id: req.node_id,
                record_type: req.record_type.clone(),
                phase: FlowPhase::Resolving,
            },
            TargetAction::Resolve {
                name: req.domain.clone(),
                record_type: req.record_type.clone(),
                ns: req.ns.clone(),
            },
        )
    }

    /// The lookup is over (`None`: it failed) after `duration_ms`: the
    /// report to send; the job is then over.
    pub fn on_resolved(&mut self, records: &Option<Vec<String>>, duration_ms: u128) -> (r: Report)
        requires
            old(self)@.phase == FlowPhase::Resolving,
        ensures
            r@ == dns_outcome(
                old(self)@,
                match records {
                    Some(v) => Some(texts(v@)),
                    None => None,
                },
                duration_ms,
            ),
            final(self)@ == (DnsJobView { phase: FlowPhase::Finished, ..old(self)@ }),
    {
        self.phase = FlowPhase::Finished;
        let body = match records {
            Some(rs) => ReportBody::Dns {
                duration_ms,
                ips: dns_answers(self.record_type.as_str(), rs),
            },
            None => ReportBody::Failed(SocketIOError::ErrDNSLookupFailed),
        };
        Report { job: JobKind::Dns, job_id: self.job_id.clone(), node_id: self.node_id as u64, body }
    }
}

/// A dns job reports exactly once: its answers (all of them for `CNAME`,
/// else the IP addresses) or, when the lookup failed, `ErrDNSLookupFailed`.
pub proof fn law_dns_reports_once(j: DnsJobView, records: Option<Seq<Seq<char>>>, d: u128)
    ensures
        records is None ==> dns_outcome(j, records, d).body == BodyView::Failed(
            SocketIOError::ErrDNSLookupFailed,
        ),
        records matches Some(rs) ==> dns_outcome(j, records, d).body == (BodyView::Dns {
            duration_ms: d,
            ips: dns_answers_of(j.record_type, rs),
        }),
        dns_outcome(j, records, d).job == JobKind::Dns && dns_outcome(j, records, d).job_id
            == j.job_id,
{
}

} // verus!
