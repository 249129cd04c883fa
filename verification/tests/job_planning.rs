use nodecook_agent::jobs::{
    dns_answers, http_endpoint, is_ip, local_bind_address, plan_lookup, probe_count, record_type,
    resolve_address, tcping_domain, DnsRequest, HttpRequest, Lookup, MtrRequest, ProbeRequest,
    Resolution,
};
use nodecook_agent::report::{HopKind, JobKind, SocketIOError};

fn s(v: &[&str]) -> Vec<String> {
    v.iter().map(|x| x.to_string()).collect()
}

#[test]
fn ip_recognition() {
    assert!(is_ip("1.2.3.4"));
    assert!(is_ip("::1"));
    assert!(is_ip("2001:db8::8a2e:370:7334"));
    assert!(!is_ip("example.com"));
    assert!(!is_ip("[::1]"));
    assert!(!is_ip("1.2.3.4:80"));
    assert!(!is_ip(""));
}

#[test]
fn record_types_and_bind_addresses() {
    assert_eq!(record_type(true), "A");
    assert_eq!(record_type(false), "AAAA");
    assert_eq!(local_bind_address(true), "0.0.0.0");
    assert_eq!(local_bind_address(false), "::");
}

#[test]
fn lookups_are_planned_by_host() {
    assert_eq!(plan_lookup("8.8.8.8", false), Lookup::Direct("8.8.8.8".to_string()));
    assert_eq!(
        plan_lookup("example.com", false),
        Lookup::Resolve { name: "example.com".to_string(), record_type: "AAAA" }
    );
    assert_eq!(
        plan_lookup("example.com", true),
        Lookup::Resolve { name: "example.com".to_string(), record_type: "A" }
    );
}

#[test]
fn first_address_among_answers() {
    assert_eq!(resolve_address(&None), Resolution::LookupFailed);
    assert_eq!(resolve_address(&Some(vec![])), Resolution::NoAddress);
    assert_eq!(resolve_address(&Some(s(&["alias.example.com."]))), Resolution::NoAddress);
    assert_eq!(
        resolve_address(&Some(s(&["alias.example.com.", "93.184.216.34", "1.1.1.1"]))),
        Resolution::Address("93.184.216.34".to_string())
    );
}

#[test]
fn dns_answers_by_type() {
    let recs = s(&["cdn.example.net.", "1.2.3.4", "::1"]);
    assert_eq!(dns_answers("CNAME", &recs), recs);
    assert_eq!(dns_answers("A", &recs), s(&["1.2.3.4", "::1"]));
    assert_eq!(dns_answers("AAAA", &s(&[])), s(&[]));
}

#[test]
fn tcping_host_part() {
    assert_eq!(tcping_domain("example.com:443"), "example.com");
    assert_eq!(tcping_domain("1.2.3.4:22"), "1.2.3.4");
    assert_eq!(tcping_domain("noport"), "noport");
    assert_eq!(tcping_domain(":80"), "");
    assert_eq!(tcping_domain("a:b:c"), "a");
}

#[test]
fn probe_counts() {
    assert_eq!(probe_count(true), 1);
    assert_eq!(probe_count(false), 100);
}

#[test]
fn http_endpoints() {
    assert_eq!(http_endpoint("http://example.com/x"), Some(("example.com".to_string(), 80)));
    assert_eq!(http_endpoint("https://example.com/"), Some(("example.com".to_string(), 80)));
    assert_eq!(http_endpoint("http://example.com:8080/"), Some(("example.com".to_string(), 8080)));
    assert_eq!(http_endpoint("http://10.0.0.1:81"), Some(("10.0.0.1".to_string(), 81)));
    assert_eq!(http_endpoint("not a url"), None);
    assert_eq!(http_endpoint("mailto:someone@example.com"), None);
}

#[test]
fn request_defaults() {
    let r = ProbeRequest::new("j".to_string(), 7, "h".to_string(), None, None, None);
    assert!(r.single && r.is_ipv4);
    let r = ProbeRequest::new("j".to_string(), 7, "h".to_string(), Some(false), Some(false), Some("1.1.1.1".to_string()));
    assert!(!r.single && !r.is_ipv4);
    assert_eq!(r.ns, Some("1.1.1.1".to_string()));
    let d = DnsRequest::new("j".to_string(), 65536 + 5, "d".to_string(), "A".to_string(), None);
    assert_eq!(d.node_id, 5);
    let m = MtrRequest::new("j".to_string(), 1, "h".to_string(), None, None);
    assert!(m.is_ipv4);
    let h = HttpRequest::new("j".to_string(), 1, "http://x".to_string(), Some(false), None);
    assert!(!h.is_ipv4);
}

#[test]
fn error_codes_and_events() {
    assert_eq!(SocketIOError::ErrDNSLookupFailed.code(), "ErrDNSLookupFailed");
    assert_eq!(SocketIOError::ErrPingFailed.code(), "ErrPingFailed");
    assert_eq!(SocketIOError::ErrTCPingFailed.code(), "ErrTCPingFailed");
    assert_eq!(SocketIOError::ErrMTRFailed.code(), "ErrMTRFailed");
    assert_eq!(SocketIOError::ErrHTTPFailed.code(), "ErrHTTPFailed");
    assert_eq!(JobKind::Ping.event_name(), "ping");
    assert_eq!(JobKind::Tcping.event_name(), "tcping");
    assert_eq!(JobKind::Dns.event_name(), "dns");
    assert_eq!(JobKind::Mtr.event_name(), "mtr");
    assert_eq!(JobKind::Http.event_name(), "http");
    assert_eq!(HopKind::DefaultGateway.name(), "DefaultGateway");
    assert_eq!(HopKind::Relay.name(), "Relay");
    assert_eq!(HopKind::Destination.name(), "Destination");
}
