//! The jobs that the server hands out (ping, tcping, dns, mtr, http): their
//! requests, and how a job finds the address it works on.
use vstd::prelude::*;
use crate::text::opt_view;

verus! {

/// Whether `s` is an IPv4 or IPv6 address in the text form that
/// `str::parse::<core::net::IpAddr>` accepts.
pub uninterp spec fn parses_as_ip(s: Seq<char>) -> bool;

/// Whether `ip` is an IP address: calls `str::parse::<core::net::IpAddr>`.
/// The contract claims that the answer is `parses_as_ip(ip)`, a function of
/// the text alone.
#[verifier::external_body]
pub fn is_ip(ip: &str) -> (r: bool)
    ensures
        r == parses_as_ip(ip@),
{
    ip.parse::<core::net::IpAddr>().is_ok()
}

/// A list of strings by their characters.
pub open spec fn texts(v: Seq<String>) -> Seq<Seq<char>> {
    v.map_values(|s: String| s@)
}

/// A ping or tcping job.
#[derive(Debug, PartialEq, Eq)]
pub struct ProbeRequest {
    pub job_id: String,
    pub node_id: u64,
    /// A host name or an address (for tcping, with `:port`).
    pub host: String,
    /// One probe, or a series of them.
    pub single: bool,
    /// Probe over IPv4 (else IPv6).
    pub is_ipv4: bool,
    /// The name server to ask, if not the default one.
    pub ns: Option<String>,
}

impl ProbeRequest {
    /// A request from the payload's fields; `single` and `is_ipv4` default to `true`.
    pub fn new(
        job_id: String,
        node_id: u64,
        host: String,
        single: Option<bool>,
        is_ipv4: Option<bool>,
        ns: Option<String>,
    ) -> (r: ProbeRequest)
        ensures
            r.job_id == job_id,
            r.node_id == node_id,
            r.host == host,
            r.single == (single != Some(false)),
            r.is_ipv4 == (is_ipv4 != Some(false)),
            r.ns == ns,
    {
        ProbeRequest {
            job_id,
            node_id,
            host,
            single: match single {
                Some(b) => b,
                None => true,
            },
            is_ipv4: match is_ipv4 {
                Some(b) => b,
                None => true,
            },
            ns,
        }
    }
}

/// A traceroute (mtr) job.
#[derive(Debug, PartialEq, Eq)]
pub struct MtrRequest {
    pub job_id: String,
    pub node_id: u64,
    pub host: String,
    pub is_ipv4: bool,
    pub ns: Option<String>,
}

impl MtrRequest {
    /// A request from the payload's fields; `is_ipv4` defaults to `true`.
    pub fn new(job_id: String, node_id: u64, host: String, is_ipv4: Option<bool>, ns: Option<String>) -> (r: MtrRequest)
        ensures
            r.job_id == job_id,
            r.node_id == node_id,
            r.host == host,
            r.is_ipv4 == (is_ipv4 != Some(false)),
            r.ns == ns,
    {
        MtrRequest {
            job_id,
            node_id,
            host,
            is_ipv4: match is_ipv4 {
                Some(b) => b,
                None => true,
            },
            ns,
        }
    }
}

/// An HTTP GET job.
#[derive(Debug, PartialEq, Eq)]
pub struct HttpRequest {
    pub job_id: String,
    pub node_id: u64,
    pub url: String,
    pub is_ipv4: bool,
    pub ns: Option<String>,
}

impl HttpRequest {
    /// A request from the payload's fields; `is_ipv4` defaults to `true`.
    pub fn new(job_id: String, node_id: u64, url: String, is_ipv4: Option<bool>, ns: Option<String>) -> (r: HttpRequest)
        ensures
            r.job_id == job_id,
            r.node_id == node_id,
            r.url == url,
            r.is_ipv4 == (is_ipv4 != Some(false)),
            r.ns == ns,
    {
        HttpRequest {
            job_id,
            node_id,
            url,
            is_ipv4: match is_ipv4 {
                Some(b) => b,
                None => true,
            },
            ns,
        }
    }
}

/// A DNS lookup job.
#[derive(Debug, PartialEq, Eq)]
pub struct DnsRequest {
    pub job_id: String,
    /// The node id, cut to 16 bits as the server expects it back.
    pub node_id: u16,
    pub domain: String,
    /// The record type to ask for (`A`, `AAAA`, `CNAME`, ...).
    pub record_type: String,
    pub ns: Option<String>,
}

impl DnsRequest {
    /// A request from the payload's fields; the node id keeps its low 16 bits.
    pub fn new(job_id: String, node_id: u64, domain: String, record_type: String, ns: Option<String>) -> (r: DnsRequest)
        ensures
            r.job_id == job_id,
            r.node_id == node_id % 65536,
            r.domain == domain,
            r.record_type == record_type,
            r.ns == ns,
    {
        DnsRequest { job_id, node_id: (node_id % 65536) as u16, domain, record_type, ns }
    }
}

/// The record type to resolve a host name with: `A` for IPv4, `AAAA` for IPv6.
pub open spec fn record_type_for(is_ipv4: bool) -> Seq<char> {
    if is_ipv4 {
        "A"@
    } else {
        "AAAA"@
    }
}

pub fn record_type(is_ipv4: bool) -> (r: &'static str)
    ensures
        r@ == record_type_for(is_ipv4),
{
    if is_ipv4 {
        "A"
    } else {
        "AAAA"
    }
}

/// The local address an HTTP job binds to: any IPv4 or any IPv6 address.
pub fn local_bind_address(is_ipv4: bool) -> (r: &'static str)
    ensures
        r@ == (if is_ipv4 {
            "0.0.0.0"@
        } else {
            "::"@
        }),
{
    if is_ipv4 {
        "0.0.0.0"
    } else {
        "::"
    }
}

/// How a job gets the address it works on.
#[derive(Debug, PartialEq, Eq)]
pub enum Lookup {
    /// The host is already an address.
    Direct(String),
    /// The host name is resolved with this record type.
    Resolve { name: String, record_type: &'static str },
}

/// An address is used as it is; a host name is resolved for the job's IP version.
pub fn plan_lookup(host: &str, is_ipv4: bool) -> (r: Lookup)
    ensures
        parses_as_ip(host@) ==> (r matches Lookup::Direct(a) && a@ == host@),
        !parses_as_ip(host@) ==> (r matches Lookup::Resolve { name, record_type } && name@
            == host@ && record_type@ == record_type_for(is_ipv4)),
{
    if is_ip(host) {
        Lookup::Direct(String::from_str(host))
    } else {
        Lookup::Resolve { name: String::from_str(host), record_type: record_type(is_ipv4) }
    }
}

/// Index of the first record at or after `i` that is an IP address.
pub open spec fn first_ip_from(records: Seq<Seq<char>>, i: int) -> Option<int>
    decreases records.len() - i,
{
    if i < 0 || i >= records.len() {
        None
    } else if parses_as_ip(records[i]) {
        Some(i)
    } else {
        first_ip_from(records, i + 1)
    }
}

/// What came of resolving a job's host name.
#[derive(Debug, PartialEq, Eq)]
pub enum Resolution {
    /// The first answer that is an IP address.
    Address(String),
    /// The lookup failed.
    LookupFailed,
    /// The lookup answered, but with no IP address.
    NoAddress,
}

/// The address to use out of the answers of a lookup (`None` where it failed).
pub open spec fn resolution_of(records: Option<Seq<Seq<char>>>) -> Option<Option<Seq<char>>> {
    match records {
        None => None,
        Some(rs) => match first_ip_from(rs, 0) {
            Some(k) => Some(Some(rs[k])),
            None => Some(None),
        },
    }
}

pub fn resolve_address(records: &Option<Vec<String>>) -> (r: Resolution)
    ensures
        match r {
            Resolution::Address(a) => records matches Some(rs) && resolution_of(Some(texts(rs@)))
                == Some(Some(a@)),
            Resolution::LookupFailed => records is None,
            Resolution::NoAddress => records matches Some(rs) && resolution_of(Some(texts(rs@)))
                == Some(None::<Seq<char>>),
        },
{
    match records {
        None => Resolution::LookupFailed,
        Some(rs) => {
            let ghost t = texts(rs@);
            let n = rs.len();
            let mut i: usize = 0;
            while i < n
                invariant
                    *records == Some(*rs),
                    n == rs@.len(),
                    t == texts(rs@),
                    t.len() == n,
                    i <= n,
                    first_ip_from(t, 0) == first_ip_from(t, i as int),
                decreases n - i,
            {
                assert(t[i as int] == rs@[i as int]@);
                if is_ip(rs[i].as_str()) {
                    assert(first_ip_from(t, i as int) == Some(i as int));
                    let a = rs[i].clone();
                    assert(a@ == t[i as int]);
                    return Resolution::Address(a);
                }
                i = i + 1;
            }
            Resolution::NoAddress
        },
    }
}

/// The answers a DNS job reports: all of them for a `CNAME` lookup, else
/// those that are IP addresses, in order.
pub open spec fn dns_answers_of(record_type: Seq<char>, records: Seq<Seq<char>>) -> Seq<Seq<char>> {
    if record_type == "CNAME"@ {
        records
    } else {
        records.filter(|r: Seq<char>| parses_as_ip(r))
    }
}



/// The address taken out of a lookup's answers is the first answer that is
/// an IP address; when no answer is one there is none.
pub proof fn law_first_address(rs: Seq<Seq<char>>)
    ensures
        (forall|i: int| 0 <= i < rs.len() ==> !parses_as_ip(#[trigger] rs[i]))
            <==> resolution_of(Some(rs)) == Some(None::<Seq<char>>),
        forall|k: int|
            0 <= k < rs.len() && parses_as_ip(#[trigger] rs[k]) && (forall|i: int|
                0 <= i < k ==> !parses_as_ip(rs[i])) ==> resolution_of(Some(rs)) == Some(
                Some(rs[k]),
            ),
        resolution_of(None) is None,
{
    lemma_first_ip(rs, 0);
}

proof fn lemma_first_ip(rs: Seq<Seq<char>>, i: int)
    requires
        0 <= i <= rs.len(),
    ensures
        (forall|m: int| i <= m < rs.len() ==> !parses_as_ip(#[trigger] rs[m])) <==> first_ip_from(
            rs,
            i,
        ) is None,
        forall|k: int|
            i <= k < rs.len() && parses_as_ip(#[trigger] rs[k]) && (forall|m: int|
                i <= m < k ==> !parses_as_ip(rs[m])) ==> first_ip_from(rs, i) == Some(k),
    decreases rs.len() - i,
{
    if i < rs.len() {
        lemma_first_ip(rs, i + 1);
        if !parses_as_ip(rs[i]) {
            assert forall|k: int|
                i <= k < rs.len() && parses_as_ip(#[trigger] rs[k]) && (forall|m: int|
                    i <= m < k ==> !parses_as_ip(rs[m])) implies first_ip_from(rs, i) == Some(k) by {
                assert(k != i);
            }
        } else {
            assert forall|k: int|
                i <= k < rs.len() && parses_as_ip(#[trigger] rs[k]) && (forall|m: int|
                    i <= m < k ==> !parses_as_ip(rs[m])) implies first_ip_from(rs, i) == Some(k) by {
                if k > i {
                    assert(!parses_as_ip(rs[i]));
                }
            }
        }
    }
}

/// The host part of a tcping target is the text before its first `:`: a
/// prefix of the target with no `:` in it, followed by a `:` unless it is
/// the whole target.
pub proof fn law_tcping_host(host: Seq<char>)
    ensures
        ({
            let d = host_before_colon(host);
            &&& d.len() <= host.len()
            &&& d == host.take(d.len() as int)
            &&& forall|i: int| 0 <= i < d.len() ==> #[trigger] d[i] != ':'
            &&& d.len() < host.len() ==> host[d.len() as int] == ':'
        }),
{
    lemma_colon_index(host, 0);
}

proof fn lemma_colon_index(s: Seq<char>, i: int)
    requires
        0 <= i <= s.len(),
    ensures
        i <= colon_index(s, i) <= s.len(),
        forall|m: int| i <= m < colon_index(s, i) ==> #[trigger] s[m] != ':',
        colon_index(s, i) < s.len() ==> s[colon_index(s, i)] == ':',
    decreases s.len() - i,
{
    if i < s.len() && s[i] != ':' {
        lemma_colon_index(s, i + 1);
    }
}

/// An HTTP job connects to its URL's host, on the URL's port or else 80;
/// a URL that does not parse, or has no host, gives no endpoint.
pub proof fn law_http_endpoint(url: Seq<char>)
    ensures
        url_host_port(url) matches Some((Some(h), p)) ==> http_endpoint_of(url) == Some(
            (
                h,
                match p {
                    Some(n) => n,
                    None => 80u16,
                },
            ),
        ),
        (url_host_port(url) is None || url_host_port(url) matches Some((None, _)))
            ==> http_endpoint_of(url) is None,
{
}

/// The answers a DNS job reports: for `CNAME` every record, in order; for
/// any other type exactly the records that are IP addresses, in order, so
/// every reported answer is an address and every address among the records
/// is reported.
pub proof fn law_dns_answers(record_type: Seq<char>, records: Seq<Seq<char>>)
    ensures
        record_type == "CNAME"@ ==> dns_answers_of(record_type, records) == records,
        record_type != "CNAME"@ ==> {
            let out = dns_answers_of(record_type, records);
            &&& out == records.filter(|r: Seq<char>| parses_as_ip(r))
            &&& forall|i: int| 0 <= i < out.len() ==> parses_as_ip(#[trigger] out[i])
            &&& forall|i: int|
                0 <= i < records.len() && parses_as_ip(records[i]) ==> out.contains(
                    #[trigger] records[i],
                )
            &&& out.len() <= records.len()
        },
{
    if record_type != "CNAME"@ {
        let p = |r: Seq<char>| parses_as_ip(r);
        let out = records.filter(p);
        assert forall|i: int| 0 <= i < out.len() implies parses_as_ip(#[trigger] out[i]) by {
            records.lemma_filter_pred(p, i);
        }
        assert forall|i: int| 0 <= i < records.len() && parses_as_ip(records[i]) implies out.contains(
            #[trigger] records[i],
        ) by {
            records.lemma_filter_contains(p, i);
        }
        records.lemma_filter_len(p);
    }
}

pub fn dns_answers(record_type: &str, records: &Vec<String>) -> (r: Vec<String>)
    ensures
        texts(r@) == dns_answers_of(record_type@, texts(records@)),
{
    let cname = crate::text::str_eq(record_type, "CNAME");
    let ghost t = texts(records@);
    let mut out: Vec<String> = Vec::new();
    let n = records.len();
    for i in 0..n
        invariant
            n == records@.len(),
            t == texts(records@),
            texts(out@) == if cname {
                t.take(i as int)
            } else {
                t.take(i as int).filter(|r: Seq<char>| parses_as_ip(r))
            },
    {
        proof {
            reveal_with_fuel(Seq::<_>::filter, 1);
        }
        let keep = cname || is_ip(records[i].as_str());
        if keep {
            out.push(records[i].clone());
        }
        assert(t.take(i + 1).drop_last() =~= t.take(i as int));
        assert(texts(out@) =~= if cname {
            t.take(i + 1)
        } else {
            t.take(i + 1).filter(|r: Seq<char>| parses_as_ip(r))
        });
    }
    assert(t.take(n as int) =~= t);
    out
}

/// The part of a tcping host before its first `:` (the whole host if it has none).
pub open spec fn host_before_colon(host: Seq<char>) -> Seq<char> {
    host.take(colon_index(host, 0))
}

/// Index of the first `:` at or after `i` (or the length).
pub open spec fn colon_index(s: Seq<char>, i: int) -> int
    decreases s.len() - i,
{
    if i < 0 || i >= s.len() {
        s.len() as int
    } else if s[i] == ':' {
        i
    } else {
        colon_index(s, i + 1)
    }
}

proof fn lemma_colon_index_bounds(s: Seq<char>, i: int)
    requires
        0 <= i <= s.len(),
    ensures
        i <= colon_index(s, i) <= s.len(),
    decreases s.len() - i,
{
    if i < s.len() && s[i] != ':' {
        lemma_colon_index_bounds(s, i + 1);
    }
}

/// The host part of a tcping target `host:port` (`host.split(":").next()`).
pub fn tcping_domain(host: &str) -> (r: String)
    ensures
        r@ == host_before_colon(host@),
{
    let n = host.unicode_len();
    let mut i: usize = 0;
    while i < n
        invariant
            n == host@.len(),
            i <= n,
            colon_index(host@, 0) == colon_index(host@, i as int),
        ensures
            i == colon_index(host@, 0),
        decreases n - i,
    {
        if host.get_char(i) == ':' {
            break;
        }
        i = i + 1;
    }
    proof {
        lemma_colon_index_bounds(host@, 0);
    }
    String::from_str(host.substring_char(0, i))
}

/// The number of probes a ping or tcping job sends.
pub open spec fn probes_for(single: bool) -> u16 {
    if single {
        1
    } else {
        100
    }
}

pub fn probe_count(single: bool) -> (r: u16)
    ensures
        r == probes_for(single),
{
    if single {
        1
    } else {
        100
    }
}

/// The host and port of a URL, as the `url` crate parses it: `None` where it
/// does not parse; else its host (`None` for a URL without one) and its port
/// (`None` where it is the scheme's default or not given).
pub uninterp spec fn url_host_port(url: Seq<char>) -> Option<(Option<Seq<char>>, Option<u16>)>;

/// Calls `url::Url::parse` and reads `Url::host_str` and `Url::port` of the
/// result. The contract claims that the outcome is `url_host_port(url)`, a
/// function of the text alone.
#[verifier::external_body]
fn parse_url(url: &str) -> (r: Option<(Option<String>, Option<u16>)>)
    ensures
        match r {
            None => url_host_port(url@) is None,
            Some((h, p)) => url_host_port(url@) == Some((opt_view(&h), p)),
        },
{
    url::Url::parse(url).ok().map(|u| (u.host_str().map(|h| h.to_string()), u.port()))
}

/// The host and port an HTTP job connects to: the URL's host, and its port
/// or 80. `None` where the URL does not parse or has no host.
pub open spec fn http_endpoint_of(url: Seq<char>) -> Option<(Seq<char>, u16)> {
    match url_host_port(url) {
        Some((Some(h), p)) => Some(
            (
                h,
                match p {
                    Some(n) => n,
                    None => 80,
                },
            ),
        ),
        _ => None,
    }
}

pub fn http_endpoint(url: &str) -> (r: Option<(String, u16)>)
    ensures
        match r {
            Some((h, p)) => http_endpoint_of(url@) == Some((h@, p)),
            None => http_endpoint_of(url@) is None,
        },
{
    match parse_url(url) {
        Some((Some(h), p)) => Some(
            (
                h,
                match p {
                    Some(n) => n,
                    None => 80,
                },
            ),
        ),
        _ => None,
    }
}

} // verus!
