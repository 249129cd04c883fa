use nodecook_agent::jobs::ProbeRequest;
use nodecook_agent::probe::{ProbeAction, ProbeEvent, ProbeJob, ProbeKind, ProbePhase};
use nodecook_agent::report::{JobKind, ReportBody, SocketIOError};

fn req(host: &str, single: Option<bool>) -> ProbeRequest {
    ProbeRequest::new("job-1".to_string(), 9, host.to_string(), single, None, None)
}

#[test]
fn single_ping_to_an_address() {
    let (mut j, a) = ProbeJob::start(ProbeKind::Ping, &req("8.8.8.8", None));
    assert_eq!(a, ProbeAction::Probe { target: "8.8.8.8".to_string(), seq: 0 });
    let (rep, a) = j.step(ProbeEvent::Replied { source: "8.8.8.8".to_string(), seq: 0, duration_ms: 12 });
    let rep = rep.unwrap();
    assert_eq!((rep.job, rep.job_id.as_str(), rep.node_id), (JobKind::Ping, "job-1", 9));
    assert_eq!(
        rep.body,
        ReportBody::Ping { ip: "8.8.8.8".to_string(), duration_ms: Some(12), seq: 1, error: None }
    );
    assert_eq!(a, ProbeAction::Stop);
    assert_eq!(j.phase(), ProbePhase::Finished);
}

#[test]
fn ping_series_sends_a_hundred_probes() {
    let (mut j, mut a) = ProbeJob::start(ProbeKind::Ping, &req("1.1.1.1", Some(false)));
    let mut reports = 0;
    for i in 0..100u16 {
        assert_eq!(a, ProbeAction::Probe { target: "1.1.1.1".to_string(), seq: i });
        let (rep, next) = if i % 2 == 0 {
            j.step(ProbeEvent::ProbeFailed)
        } else {
            j.step(ProbeEvent::Replied { source: "1.1.1.1".to_string(), seq: i, duration_ms: 5 })
        };
        let rep = rep.unwrap();
        match rep.body {
            ReportBody::Ping { seq, error, duration_ms, .. } => {
                assert_eq!(seq, i as u32 + 1);
                assert_eq!(error.is_some(), i % 2 == 0);
                assert_eq!(duration_ms.is_none(), i % 2 == 0);
            }
            other => panic!("unexpected {:?}", other),
        }
        reports += 1;
        a = next;
    }
    assert_eq!(reports, 100);
    assert_eq!(a, ProbeAction::Stop);
}

#[test]
fn ping_failure_reports_the_target() {
    let (mut j, _) = ProbeJob::start(ProbeKind::Ping, &req("9.9.9.9", None));
    let (rep, _) = j.step(ProbeEvent::ProbeFailed);
    assert_eq!(
        rep.unwrap().body,
        ReportBody::Ping {
            ip: "9.9.9.9".to_string(),
            duration_ms: None,
            seq: 1,
            error: Some(SocketIOError::ErrPingFailed)
        }
    );
}

#[test]
fn ping_resolves_a_name_first() {
    let (mut j, a) = ProbeJob::start(ProbeKind::Ping, &req("example.com", None));
    assert_eq!(a, ProbeAction::Resolve { name: "example.com".to_string(), record_type: "A", ns: None });
    let (rep, a) = j.step(ProbeEvent::Resolved(Some(vec!["c.example.".to_string(), "2.2.2.2".to_string()])));
    assert!(rep.is_none());
    assert_eq!(a, ProbeAction::Probe { target: "2.2.2.2".to_string(), seq: 0 });
}

#[test]
fn lookup_failure_and_no_address() {
    let (mut j, _) = ProbeJob::start(ProbeKind::Ping, &req("example.com", None));
    let (rep, a) = j.step(ProbeEvent::Resolved(None));
    assert_eq!(rep.unwrap().body, ReportBody::Failed(SocketIOError::ErrDNSLookupFailed));
    assert_eq!(a, ProbeAction::Stop);
    let (mut j, _) = ProbeJob::start(ProbeKind::Ping, &req("example.com", None));
    let (rep, a) = j.step(ProbeEvent::Resolved(Some(vec!["only.a.name.".to_string()])));
    assert!(rep.is_none());
    assert_eq!(a, ProbeAction::NoAddress);
}

#[test]
fn tcping_connects_to_host_and_reports_the_address() {
    let (mut j, a) = ProbeJob::start(ProbeKind::Tcping, &req("example.com:443", Some(false)));
    assert_eq!(a, ProbeAction::Resolve { name: "example.com".to_string(), record_type: "A", ns: None });
    let (_, a) = j.step(ProbeEvent::Resolved(Some(vec!["3.3.3.3".to_string()])));
    assert_eq!(a, ProbeAction::Probe { target: "example.com:443".to_string(), seq: 0 });
    let (rep, a) = j.step(ProbeEvent::Connected { duration_ms: 40 });
    assert_eq!(
        rep.unwrap().body,
        ReportBody::Tcping { ip: "3.3.3.3".to_string(), duration_ms: Some(40), seq: 1, error: None }
    );
    assert_eq!(a, ProbeAction::Probe { target: "example.com:443".to_string(), seq: 1 });
    let (rep, _) = j.step(ProbeEvent::ProbeFailed);
    assert_eq!(
        rep.unwrap().body,
        ReportBody::Tcping {
            ip: "3.3.3.3".to_string(),
            duration_ms: None,
            seq: 2,
            error: Some(SocketIOError::ErrTCPingFailed)
        }
    );
}

#[test]
fn tcping_to_an_address_skips_lookup() {
    let (_, a) = ProbeJob::start(ProbeKind::Tcping, &req("1.2.3.4:22", None));
    assert_eq!(a, ProbeAction::Probe { target: "1.2.3.4:22".to_string(), seq: 0 });
}
