use nodecook_agent::flows::{DnsJob, FlowPhase, TargetAction, TargetEvent, TargetJob};
use nodecook_agent::jobs::{DnsRequest, HttpRequest, MtrRequest};
use nodecook_agent::report::{Hop, HopKind, JobKind, ReportBody, SocketIOError};

fn hop(seq: u8, ip: &str, kind: HopKind) -> Hop {
    Hop { seq, ip_addr: ip.to_string(), host_name: ip.to_string(), ttl: Some(64), hop: Some(seq), kind, rtt_ms: 2 }
}

#[test]
fn http_job_resolves_then_fetches() {
    let req = HttpRequest::new("h1".to_string(), 5, "http://example.com:8080/p".to_string(), None, None);
    let (mut job, a) = TargetJob::http(&req).unwrap();
    assert_eq!(
        a,
        TargetAction::Resolve { name: "example.com".to_string(), record_type: "A".to_string(), ns: None }
    );
    let (reports, a) = job.step(TargetEvent::Resolved(Some(vec!["c.".to_string(), "5.6.7.8".to_string()])));
    assert!(reports.is_empty());
    assert_eq!(
        a,
        TargetAction::Fetch {
            url: "http://example.com:8080/p".to_string(),
            host: "example.com".to_string(),
            ip: "5.6.7.8".to_string(),
            port: 8080,
            local: "0.0.0.0",
        }
    );
    let (reports, a) = job.step(TargetEvent::Fetched { status: Some(204), duration_ms: 40, dns_duration_ms: 3 });
    assert_eq!(reports.len(), 1);
    assert_eq!((reports[0].job, reports[0].job_id.as_str(), reports[0].node_id), (JobKind::Http, "h1", 5));
    assert_eq!(
        reports[0].body,
        ReportBody::Http { duration_ms: 40, dns_duration_ms: 3, ip: "5.6.7.8".to_string(), status: Some(204), error: None }
    );
    assert_eq!(a, TargetAction::Stop);
    assert_eq!(job.phase(), FlowPhase::Finished);
}

#[test]
fn http_job_to_an_address_and_failure() {
    let req = HttpRequest::new("h2".to_string(), 1, "http://[::1]/".to_string(), Some(false), None);
    let (mut job, a) = TargetJob::http(&req).unwrap();
    assert!(matches!(a, TargetAction::Resolve { .. }), "the URL host `[::1]` is not a bare address");
    let (_, a) = job.step(TargetEvent::Resolved(Some(vec!["::1".to_string()])));
    assert!(matches!(a, TargetAction::Fetch { ref ip, local: "::", port: 80, .. } if ip == "::1"));
    let (reports, _) = job.step(TargetEvent::Fetched { status: None, duration_ms: 10_000, dns_duration_ms: 0 });
    assert!(matches!(
        reports[0].body,
        ReportBody::Http { status: None, error: Some(SocketIOError::ErrHTTPFailed), .. }
    ));
    let direct = HttpRequest::new("h3".to_string(), 1, "http://10.0.0.2:81/".to_string(), None, None);
    let (_, a) = TargetJob::http(&direct).unwrap();
    assert!(matches!(a, TargetAction::Fetch { ref ip, port: 81, .. } if ip == "10.0.0.2"));
    let bad = HttpRequest::new("h4".to_string(), 1, "nonsense".to_string(), None, None);
    assert!(TargetJob::http(&bad).is_none());
}

#[test]
fn http_lookup_failure_reports_once() {
    let req = HttpRequest::new("h5".to_string(), 1, "http://example.com/".to_string(), None, None);
    let (mut job, _) = TargetJob::http(&req).unwrap();
    let (reports, a) = job.step(TargetEvent::Resolved(None));
    assert_eq!(reports.len(), 1);
    assert_eq!(reports[0].body, ReportBody::Failed(SocketIOError::ErrDNSLookupFailed));
    assert_eq!(a, TargetAction::Stop);
    let (mut job, _) = TargetJob::http(&req).unwrap();
    let (reports, a) = job.step(TargetEvent::Resolved(Some(vec![])));
    assert!(reports.is_empty());
    assert_eq!(a, TargetAction::NoAddress);
}

#[test]
fn mtr_job_reports_every_node_in_order() {
    let req = MtrRequest::new("m1".to_string(), 8, "9.9.9.9".to_string(), None, None);
    let (mut job, a) = TargetJob::mtr(&req);
    assert_eq!(a, TargetAction::Trace { ip: "9.9.9.9".to_string() });
    let hops = || {
        vec![
            hop(1, "10.0.0.1", HopKind::DefaultGateway),
            hop(2, "100.64.0.1", HopKind::Relay),
            hop(3, "9.9.9.9", HopKind::Destination),
        ]
    };
    let (reports, a) = job.step(TargetEvent::Traced(Some(hops())));
    assert_eq!(reports.len(), 3);
    for (r, h) in reports.iter().zip(hops()) {
        assert_eq!((r.job, r.job_id.as_str(), r.node_id), (JobKind::Mtr, "m1", 8));
        assert_eq!(r.body, ReportBody::Hop(h));
    }
    assert_eq!(a, TargetAction::Stop);
}

#[test]
fn mtr_job_failures() {
    let req = MtrRequest::new("m2".to_string(), 8, "example.com".to_string(), Some(false), Some("1.1.1.1".to_string()));
    let (mut job, a) = TargetJob::mtr(&req);
    assert_eq!(
        a,
        TargetAction::Resolve {
            name: "example.com".to_string(),
            record_type: "AAAA".to_string(),
            ns: Some("1.1.1.1".to_string())
        }
    );
    let (_, a) = job.step(TargetEvent::Resolved(Some(vec!["2001:db8::1".to_string()])));
    assert_eq!(a, TargetAction::Trace { ip: "2001:db8::1".to_string() });
    let (reports, a) = job.step(TargetEvent::Traced(None));
    assert_eq!(reports.len(), 1);
    assert_eq!(reports[0].body, ReportBody::Failed(SocketIOError::ErrMTRFailed));
    assert_eq!(a, TargetAction::Stop);
}

#[test]
fn dns_job_reports_once() {
    let req = DnsRequest::new("d1".to_string(), 65537, "example.com".to_string(), "CNAME".to_string(), None);
    let (mut job, a) = DnsJob::start(&req);
    assert_eq!(
        a,
        TargetAction::Resolve { name: "example.com".to_string(), record_type: "CNAME".to_string(), ns: None }
    );
    let r = job.on_resolved(&Some(vec!["cdn.example.net.".to_string()]), 7);
    assert_eq!((r.job, r.job_id.as_str(), r.node_id), (JobKind::Dns, "d1", 1));
    assert_eq!(r.body, ReportBody::Dns { duration_ms: 7, ips: vec!["cdn.example.net.".to_string()] });
    assert_eq!(job.phase(), FlowPhase::Finished);
    let (mut job, _) = DnsJob::start(&req);
    let r = job.on_resolved(&None, 7);
    assert_eq!(r.body, ReportBody::Failed(SocketIOError::ErrDNSLookupFailed));
}
