//! A ping or tcping job as a state machine: it resolves the host if it has
//! to, then sends its probes one after the other and reports each. The
//! caller does the lookups, the probes and the waiting between them.
use vstd::prelude::*;
use crate::jobs::{
    host_before_colon, parses_as_ip, plan_lookup, probe_count, probes_for, record_type_for,
    resolution_of, resolve_address, tcping_domain, texts, Lookup, ProbeRequest, Resolution,
};
use crate::report::{BodyView, JobKind, Report, ReportBody, ReportView, SocketIOError};
use crate::text::opt_view;

verus! {

/// The two probing jobs.
#[derive(Debug, PartialEq, Eq, Structural, Clone, Copy)]
pub enum ProbeKind {
    /// ICMP echo to the address.
    Ping,
    /// A TCP connection to `host:port`.
    Tcping,
}

#[derive(Debug, PartialEq, Eq, Structural, Clone, Copy)]
pub enum ProbePhase {
    Resolving,
    Probing,
    Finished,
}

/// What came of the last action.
#[derive(Debug, PartialEq, Eq)]
pub enum ProbeEvent {
    /// The answers of the lookup, `None` where it failed.
    Resolved(Option<Vec<String>>),
    /// A ping answer: the address it came from, the sequence number it
    /// carries, and the round trip.
    Replied { source: String, seq: u16, duration_ms: u128 },
    /// A tcping connection was made, in this time.
    Connected { duration_ms: u128 },
    /// The probe failed.
    ProbeFailed,
}

/// What the caller does next.
#[derive(Debug, PartialEq, Eq)]
pub enum ProbeAction {
    /// Resolve `name` with this record type, asking `ns` if given.
    Resolve { name: String, record_type: &'static str, ns: Option<String> },
    /// Wait for the next tick of the one-second interval, then send the
    /// probe with this 0-based sequence number to `target` (the address for
    /// ping, `host:port` for tcping).
    Probe { target: String, seq: u16 },
    /// The lookup answered without any IP address; the job cannot go on.
    NoAddress,
    /// The job is over.
    Stop,
}

pub ghost enum ProbeEventView {
    Resolved(Option<Seq<Seq<char>>>),
    Replied { source: Seq<char>, seq: u16, duration_ms: u128 },
    Connected { duration_ms: u128 },
    ProbeFailed,
}

pub ghost enum ProbeActionView {
    Resolve { name: Seq<char>, record_type: Seq<char>, ns: Option<Seq<char>> },
    Probe { target: Seq<char>, seq: u16 },
    NoAddress,
    Stop,
}

impl View for ProbeEvent {
    type V = ProbeEventView;

    open spec fn view(&self) -> ProbeEventView {
        match self {
            ProbeEvent::Resolved(r) => ProbeEventView::Resolved(
                match r {
                    Some(v) => Some(texts(v@)),
                    None => None,
                },
            ),
            ProbeEvent::Replied { source, seq, duration_ms } => ProbeEventView::Replied {
                source: source@,
                seq: *seq,
                duration_ms: *duration_ms,
            },
            ProbeEvent::Connected { duration_ms } => ProbeEventView::Connected {
                duration_ms: *duration_ms,
            },
            ProbeEvent::ProbeFailed => ProbeEventView::ProbeFailed,
        }
    }
}

impl View for ProbeAction {
    type V = ProbeActionView;

    open spec fn view(&self) -> ProbeActionView {
        match self {
            ProbeAction::Resolve { name, record_type, ns } => ProbeActionView::Resolve {
                name: name@,
                record_type: record_type@,
                ns: opt_view(ns),
            },
            ProbeAction::Probe { target, seq } => ProbeActionView::Probe {
                target: target@,
                seq: *seq,
            },
            ProbeAction::NoAddress => ProbeActionView::NoAddress,
            ProbeAction::Stop => ProbeActionView::Stop,
        }
    }
}

/// A probing job by plain values.
pub ghost struct ProbeJobView {
    pub kind: ProbeKind,
    pub job_id: Seq<char>,
    pub node_id: u64,
    /// The host as the request gave it.
    pub host: Seq<char>,
    /// The address probed and reported (once known).
    pub ip: Seq<char>,
    /// How many probes the job sends.
    pub total: u16,
    /// How many probes have been answered or have failed.
    pub done: u16,
    pub phase: ProbePhase,
}

/// A ping or tcping job.
pub struct ProbeJob {
    kind: ProbeKind,
    job_id: String,
    node_id: u64,
    host: String,
    ip: String,
    total: u16,
    done: u16,
    phase: ProbePhase,
}

impl View for ProbeJob {
    type V = ProbeJobView;

    closed spec fn view(&self) -> ProbeJobView {
        ProbeJobView {
            kind: self.kind,
            job_id: self.job_id@,
            node_id: self.node_id,
            host: self.host@,
            ip: self.ip@,
            total: self.total,
            done: self.done,
            phase: self.phase,
        }
    }
}

pub open spec fn job_kind(k: ProbeKind) -> JobKind {
    match k {
        ProbeKind::Ping => JobKind::Ping,
        ProbeKind::Tcping => JobKind::Tcping,
    }
}

/// The name that is looked up: the host for ping, the part before `:` for tcping.
pub open spec fn lookup_name(k: ProbeKind, host: Seq<char>) -> Seq<char> {
    match k {
        ProbeKind::Ping => host,
        ProbeKind::Tcping => host_before_colon(host),
    }
}

/// Where probes go: the address for ping, `host:port` as given for tcping.
pub open spec fn probe_target(k: ProbeKind, host: Seq<char>, ip: Seq<char>) -> Seq<char> {
    match k {
        ProbeKind::Ping => ip,
        ProbeKind::Tcping => host,
    }
}

/// What holds of every job the caller can hold.
pub open spec fn probe_wf(j: ProbeJobView) -> bool {
    &&& 1 <= j.total <= 100
    &&& j.done <= j.total
    &&& j.phase == ProbePhase::Resolving ==> j.done == 0
    &&& j.phase == ProbePhase::Probing ==> j.done < j.total
}

/// Which events a job waits for in each phase.
pub open spec fn probe_accepts(j: ProbeJobView, e: ProbeEventView) -> bool {
    match e {
        ProbeEventView::Resolved(_) => j.phase == ProbePhase::Resolving,
        ProbeEventView::Replied { .. } => j.phase == ProbePhase::Probing && j.kind
            == ProbeKind::Ping,
        ProbeEventView::Connected { .. } => j.phase == ProbePhase::Probing && j.kind
            == ProbeKind::Tcping,
        ProbeEventView::ProbeFailed => j.phase == ProbePhase::Probing,
    }
}

/// A report of this job.
pub open spec fn report_of(j: ProbeJobView, body: BodyView) -> ReportView {
    ReportView { job: job_kind(j.kind), job_id: j.job_id, node_id: j.node_id, body }
}

/// The job once a probe came back, with its report, and what comes next:
/// the following probe, or the end after the last one.
pub open spec fn after_probe(j: ProbeJobView, body: BodyView) -> (ProbeJobView, Option<ReportView>, ProbeActionView) {
    let d = (j.done + 1) as u16;
    if d == j.total {
        (
            ProbeJobView { done: d, phase: ProbePhase::Finished, ..j },
            Some(report_of(j, body)),
            ProbeActionView::Stop,
        )
    } else {
        (
            ProbeJobView { done: d, ..j },
            Some(report_of(j, body)),
            ProbeActionView::Probe { target: probe_target(j.kind, j.host, j.ip), seq: d },
        )
    }
}

/// How a job starts: probing at once if the looked-up name is an address,
/// else resolving it first.
pub open spec fn probe_start(k: ProbeKind, req: ProbeRequest) -> (ProbeJobView, ProbeActionView) {
    let name = lookup_name(k, req.host@);
    let j = ProbeJobView {
        kind: k,
        job_id: req.job_id@,
        node_id: req.node_id,
        host: req.host@,
        ip: name,
        total: probes_for(req.single),
        done: 0,
        phase: ProbePhase::Probing,
    };
    if parses_as_ip(name) {
        (j, ProbeActionView::Probe { target: probe_target(k, req.host@, name), seq: 0 })
    } else {
        (
            ProbeJobView { phase: ProbePhase::Resolving, ..j },
            ProbeActionView::Resolve {
                name,
                record_type: record_type_for(req.is_ipv4),
                ns: opt_view(&req.ns),
            },
        )
    }
}

/// The next state of a job, its report (if any) and what it asks for.
pub open spec fn probe_step(j: ProbeJobView, e: ProbeEventView) -> (ProbeJobView, Option<ReportView>, ProbeActionView) {
    match e {
        ProbeEventView::Resolved(records) => match resolution_of(records) {
            None => (
                ProbeJobView { phase: ProbePhase::Finished, ..j },
                Some(report_of(j, BodyView::Failed(SocketIOError::ErrDNSLookupFailed))),
                ProbeActionView::Stop,
            ),
            Some(None) => (
                ProbeJobView { phase: ProbePhase::Finished, ..j },
                None,
                ProbeActionView::NoAddress,
            ),
            Some(Some(a)) => (
                ProbeJobView { phase: ProbePhase::Probing, ip: a, ..j },
                None,
                ProbeActionView::Probe { target: probe_target(j.kind, j.host, a), seq: 0 },
            ),
        },
        ProbeEventView::Replied { source, seq, duration_ms } => after_probe(
            j,
            BodyView::Ping {
                ip: source,
                duration_ms: Some(duration_ms),
                seq: (seq + 1) as u32,
                error: None,
            },
        ),
        ProbeEventView::Connected { duration_ms } => after_probe(
            j,
            BodyView::Tcping {
                ip: j.ip,
                duration_ms: Some(duration_ms),
                seq: (j.done + 1) as u32,
                error: None,
            },
        ),
        ProbeEventView::ProbeFailed => after_probe(
            j,
            match j.kind {
                ProbeKind::Ping => BodyView::Ping {
                    ip: j.ip,
                    duration_ms: None,
                    seq: (j.done + 1) as u32,
                    error: Some(SocketIOError::ErrPingFailed),
                },
                ProbeKind::Tcping => BodyView::Tcping {
                    ip: j.ip,
                    duration_ms: None,
                    seq: (j.done + 1) as u32,
                    error: Some(SocketIOError::ErrTCPingFailed),
                },
            },
        ),
    }
}


/// A probe result that the job's kind can receive.
pub open spec fn is_result_for(k: ProbeKind, e: ProbeEventView) -> bool {
    match e {
        ProbeEventView::Resolved(_) => false,
        ProbeEventView::Replied { .. } => k == ProbeKind::Ping,
        ProbeEventView::Connected { .. } => k == ProbeKind::Tcping,
        ProbeEventView::ProbeFailed => true,
    }
}

/// The job after it received the results `es`, one after the other.
pub open spec fn run_results(j: ProbeJobView, es: Seq<ProbeEventView>) -> ProbeJobView
    decreases es.len(),
{
    if es.len() == 0 {
        j
    } else {
        run_results(probe_step(j, es[0]).0, es.drop_first())
    }
}

/// A job that probes sends exactly its number of probes (one for a single
/// job, a hundred otherwise): after each result it reports once and asks for
/// the probe numbered by the results so far, and it ends with the last one.
pub proof fn law_exact_probe_count(j: ProbeJobView, es: Seq<ProbeEventView>)
    requires
        probe_wf(j),
        j.phase == ProbePhase::Probing,
        j.done + es.len() <= j.total,
        forall|i: int| 0 <= i < es.len() ==> is_result_for(j.kind, #[trigger] es[i]),
    ensures
        run_results(j, es).done == j.done + es.len(),
        run_results(j, es).phase == (if j.done + es.len() == j.total {
            ProbePhase::Finished
        } else {
            ProbePhase::Probing
        }),
    decreases es.len(),
{
    if es.len() > 0 {
        let e = es[0];
        let n = probe_step(j, e).0;
        assert(is_result_for(j.kind, e));
        assert(n.done == j.done + 1);
        assert(run_results(j, es) == run_results(n, es.drop_first()));
        if es.len() > 1 {
            assert forall|i: int| 0 <= i < es.drop_first().len() implies is_result_for(
                n.kind,
                #[trigger] es.drop_first()[i],
            ) by {
                assert(es.drop_first()[i] == es[i + 1]);
            }
            law_exact_probe_count(n, es.drop_first());
        } else {
            assert(es.drop_first().len() == 0);
            assert(run_results(n, es.drop_first()) == n);
        }
    }
}

/// Each probe result gives exactly one report about this job, and the next
/// probe (if any) is numbered by the results so far; failures and tcping
/// connections report the 1-based number of the probe.
pub proof fn law_one_report_per_probe(j: ProbeJobView, e: ProbeEventView)
    requires
        probe_wf(j),
        j.phase == ProbePhase::Probing,
        is_result_for(j.kind, e),
    ensures
        probe_step(j, e).1 matches Some(rep) && rep.job == job_kind(j.kind) && rep.job_id
            == j.job_id && rep.node_id == j.node_id,
        probe_step(j, e).2 matches ProbeActionView::Probe { seq, .. } ==> seq == j.done + 1 && seq
            < j.total,
        probe_step(j, e).2 is Stop <==> j.done + 1 == j.total,
        !(e is Replied) ==> (probe_step(j, e).1 matches Some(rep) && (match rep.body {
            BodyView::Ping { seq, .. } => seq == j.done + 1,
            BodyView::Tcping { seq, .. } => seq == j.done + 1,
            _ => false,
        })),
{
}


/// What each probe result reports, and where the next probe goes: a ping
/// answer reports the address it came from, its round trip and its own
/// sequence number plus one; a tcping connection reports the target address,
/// the connect time and the 1-based probe number; a failed probe reports the
/// target address with no time, the 1-based probe number and `ErrPingFailed`
/// or `ErrTCPingFailed`. Ping probes go to the address, tcping probes to
/// `host:port` as the request gave it.
pub proof fn law_probe_report_contents(j: ProbeJobView, e: ProbeEventView)
    requires
        probe_wf(j),
        j.phase == ProbePhase::Probing,
        is_result_for(j.kind, e),
    ensures
        ({
            let body = probe_step(j, e).1.unwrap().body;
            &&& e matches ProbeEventView::Replied { source, seq, duration_ms } ==> body == (
            BodyView::Ping {
                ip: source,
                duration_ms: Some(duration_ms),
                seq: (seq + 1) as u32,
                error: None,
            })
            &&& e matches ProbeEventView::Connected { duration_ms } ==> body == (BodyView::Tcping {
                ip: j.ip,
                duration_ms: Some(duration_ms),
                seq: (j.done + 1) as u32,
                error: None,
            })
            &&& (e == ProbeEventView::ProbeFailed && j.kind == ProbeKind::Ping) ==> body == (
            BodyView::Ping {
                ip: j.ip,
                duration_ms: None,
                seq: (j.done + 1) as u32,
                error: Some(SocketIOError::ErrPingFailed),
            })
            &&& (e == ProbeEventView::ProbeFailed && j.kind == ProbeKind::Tcping) ==> body == (
            BodyView::Tcping {
                ip: j.ip,
                duration_ms: None,
                seq: (j.done + 1) as u32,
                error: Some(SocketIOError::ErrTCPingFailed),
            })
        }),
        probe_step(j, e).2 matches ProbeActionView::Probe { target, .. } ==> target == (match j.kind {
            ProbeKind::Ping => j.ip,
            ProbeKind::Tcping => j.host,
        }),
{
}

/// After a lookup, a job probes the first answer that is an IP address
/// (probe 0 at that address for ping, at `host:port` for tcping); with no
/// address among the answers it cannot go on and reports nothing.
pub proof fn law_probe_after_lookup(j: ProbeJobView, rs: Seq<Seq<char>>)
    requires
        j.phase == ProbePhase::Resolving,
    ensures
        (forall|i: int| 0 <= i < rs.len() ==> !parses_as_ip(#[trigger] rs[i])) ==> probe_step(
            j,
            ProbeEventView::Resolved(Some(rs)),
        ) == (ProbeJobView { phase: ProbePhase::Finished, ..j }, None::<ReportView>,
        ProbeActionView::NoAddress),
        forall|k: int|
            0 <= k < rs.len() && parses_as_ip(#[trigger] rs[k]) && (forall|i: int|
                0 <= i < k ==> !parses_as_ip(rs[i])) ==> probe_step(
                j,
                ProbeEventView::Resolved(Some(rs)),
            ).2 == (ProbeActionView::Probe {
                target: match j.kind {
                    ProbeKind::Ping => rs[k],
                    ProbeKind::Tcping => j.host,
                },
                seq: 0,
            }) && probe_step(j, ProbeEventView::Resolved(Some(rs))).0.ip == rs[k],
{
    crate::jobs::law_first_address(rs);
}

/// A job whose host name cannot be resolved sends one report, with
/// `ErrDNSLookupFailed`, and no probe.
pub proof fn law_lookup_failure_reports_once(j: ProbeJobView)
    requires
        j.phase == ProbePhase::Resolving,
    ensures
        probe_step(j, ProbeEventView::Resolved(None)) == (
            ProbeJobView { phase: ProbePhase::Finished, ..j },
            Some(report_of(j, BodyView::Failed(SocketIOError::ErrDNSLookupFailed))),
            ProbeActionView::Stop,
        ),
{
}


/// A ping or tcping job whose looked-up name (the host, or for tcping the
/// part before `:`) is not an IP address starts by resolving that name: with
/// an `A` query for an IPv4 job and an `AAAA` query for an IPv6 one, asking
/// the request's name server. A job whose name is an address probes it at
/// once, starting with probe 0.
pub proof fn law_probe_lookup_record_type(k: ProbeKind, req: ProbeRequest)
    ensures
        lookup_name(k, req.host@) == (match k {
            ProbeKind::Ping => req.host@,
            ProbeKind::Tcping => host_before_colon(req.host@),
        }),
        !parses_as_ip(lookup_name(k, req.host@)) ==> probe_start(k, req).1 == (
        ProbeActionView::Resolve {
            name: lookup_name(k, req.host@),
            record_type: if req.is_ipv4 {
                "A"@
            } else {
                "AAAA"@
            },
            ns: opt_view(&req.ns),
        }),
        parses_as_ip(lookup_name(k, req.host@)) ==> (match probe_start(k, req).1 {
            ProbeActionView::Probe { seq, target } => seq == 0 && target == (match k {
                ProbeKind::Ping => lookup_name(k, req.host@),
                ProbeKind::Tcping => req.host@,
            }),
            _ => false,
        }),
        probe_start(k, req).0.total == (if req.single {
            1u16
        } else {
            100u16
        }),
{
}

/// A report option by plain values.
pub open spec fn opt_report(r: Option<Report>) -> Option<ReportView> {
    match r {
        Some(x) => Some(x@),
        None => None,
    }
}

impl ProbeJob {
    pub fn kind(&self) -> (r: ProbeKind)
        ensures
            r == self@.kind,
    {
        self.kind
    }

    pub fn phase(&self) -> (r: ProbePhase)
        ensures
            r == self@.phase,
    {
        self.phase
    }

    /// Starts a ping or tcping job.
    pub fn start(kind: ProbeKind, req: &ProbeRequest) -> (r: (ProbeJob, ProbeAction))
        ensures
            (r.0@, r.1@) == probe_start(kind, *req),
            probe_wf(r.0@),
    {
        let name = match kind {
            ProbeKind::Ping => String::from_str(req.host.as_str()),
            ProbeKind::Tcping => tcping_domain(req.host.as_str()),
        };
        let total = probe_count(req.single);
        match plan_lookup(name.as_str(), req.is_ipv4) {
            Lookup::Direct(a) => {
                let target = match kind {
                    ProbeKind::Ping => a.clone(),
                    ProbeKind::Tcping => req.host.clone(),
                };
                (
                    ProbeJob {
                        kind,
                        job_id: req.job_id.clone(),
                        node_id: req.node_id,
                        host: req.host.clone(),
                        ip: a,
                        total,
                        done: 0,
                        phase: ProbePhase::Probing,
                    },
                    ProbeAction::Probe { target, seq: 0 },
                )
            },
            Lookup::Resolve { name: n, record_type } => (
                ProbeJob {
                    kind,
                    job_id: req.job_id.clone(),
                    node_id: req.node_id,
                    host: req.host.clone(),
                    ip: name,
                    total,
                    done: 0,
                    phase: ProbePhase::Resolving,
                },
                ProbeAction::Resolve { name: n, record_type, ns: req.ns.clone() },
            ),
        }
    }

    fn report(&self, body: ReportBody) -> (r: Report)
        ensures
            r@ == report_of(self@, body@),
    {
        Report { job: Self::job_of(self.kind), job_id: self.job_id.clone(), node_id: self.node_id, body }
    }

    fn job_of(k: ProbeKind) -> (r: JobKind)
        ensures
            r == job_kind(k),
    {
        match k {
            ProbeKind::Ping => JobKind::Ping,
            ProbeKind::Tcping => JobKind::Tcping,
        }
    }

    fn target(&self) -> (r: String)
        ensures
            r@ == probe_target(self@.kind, self@.host, self@.ip),
    {
        match self.kind {
            ProbeKind::Ping => self.ip.clone(),
            ProbeKind::Tcping => self.host.clone(),
        }
    }

    fn advance(&mut self, body: ReportBody) -> (r: (Option<Report>, ProbeAction))
        requires
            probe_wf(old(self)@),
            old(self)@.phase == ProbePhase::Probing,
        ensures
            (final(self)@, opt_report(r.0), r.1@) == after_probe(old(self)@, body@),
            probe_wf(final(self)@),
    {
        let rep = self.report(body);
        self.done = self.done + 1;
        if self.done == self.total {
            self.phase = ProbePhase::Finished;
            (Some(rep), ProbeAction::Stop)
        } else {
            (Some(rep), ProbeAction::Probe { target: self.target(), seq: self.done })
        }
    }

    /// Takes what came of the last action; returns the report to send (if
    /// any) and what to do next.
    pub fn step(&mut self, event: ProbeEvent) -> (r: (Option<Report>, ProbeAction))
        requires
            probe_accepts(old(self)@, event@),
            probe_wf(old(self)@),
        ensures
            (final(self)@, opt_report(r.0), r.1@) == probe_step(old(self)@, event@),
            probe_wf(final(self)@),
    {
        match event {
            ProbeEvent::Resolved(records) => match resolve_address(&records) {
                Resolution::LookupFailed => {
                    let rep = self.report(ReportBody::Failed(SocketIOError::ErrDNSLookupFailed));
                    self.phase = ProbePhase::Finished;
                    (Some(rep), ProbeAction::Stop)
                },
                Resolution::NoAddress => {
                    self.phase = ProbePhase::Finished;
                    (None, ProbeAction::NoAddress)
                },
                Resolution::Address(a) => {
                    self.ip = a;
                    self.phase = ProbePhase::Probing;
                    (None, ProbeAction::Probe { target: self.target(), seq: 0 })
                },
            },
            ProbeEvent::Replied { source, seq, duration_ms } => self.advance(
                ReportBody::Ping {
                    ip: source,
                    duration_ms: Some(duration_ms),
                    seq: seq as u32 + 1,
                    error: None,
                },
            ),
            ProbeEvent::Connected { duration_ms } => {
                let ip = self.ip.clone();
                let seq = self.done as u32 + 1;
                self.advance(ReportBody::Tcping { ip, duration_ms: Some(duration_ms), seq, error: None })
            },
            ProbeEvent::ProbeFailed => {
                let ip = self.ip.clone();
                let seq = self.done as u32 + 1;
                let body = match self.kind {
                    ProbeKind::Ping => ReportBody::Ping {
                        ip,
                        duration_ms: None,
                        seq,
                        error: Some(SocketIOError::ErrPingFailed),
                    },
                    ProbeKind::Tcping => ReportBody::Tcping {
                        ip,
                        duration_ms: None,
                        seq,
                        error: Some(SocketIOError::ErrTCPingFailed),
                    },
                };
                self.advance(body)
            },
        }
    }
}

} // verus!
