//! The agent's settings (flags or `NCA_*` environment variables) and what
//! they decide: which servers to connect to, and the headers sent to them.
use vstd::prelude::*;
use crate::text::push_char;
use crate::text::str_eq;

verus! {

/// The agent's settings.
#[derive(Debug, PartialEq, Eq)]
pub struct Cli {
    /// IPv4 server address.
    pub v4_server: Option<String>,
    /// IPv6 server address.
    pub v6_server: Option<String>,
    /// IPv4 only mode.
    pub v4_only: bool,
    /// IPv6 only mode.
    pub v6_only: bool,
    /// API key that ties this node to its owner.
    pub api_key: String,
    /// Debug logging.
    pub debug: bool,
    /// IPv4 node id.
    pub v4_node_id: Option<u16>,
    /// IPv6 node id.
    pub v6_node_id: Option<u16>,
}

/// The two servers, one per IP version.
#[derive(Debug, PartialEq, Eq, Structural, Clone, Copy)]
pub enum Family {
    V4,
    V6,
}

/// The tag a server is known by (`v4` or `v6`).
pub open spec fn family_tag(f: Family) -> Seq<char> {
    match f {
        Family::V4 => "v4"@,
        Family::V6 => "v6"@,
    }
}

impl Family {
    pub fn tag(&self) -> (r: &'static str)
        ensures
            r@ == family_tag(*self),
    {
        match self {
            Family::V4 => "v4",
            Family::V6 => "v6",
        }
    }
}

/// The server a tag names, if any.
pub fn parse_family(tag: &str) -> (r: Option<Family>)
    ensures
        r == (if tag@ == "v4"@ {
            Some(Family::V4)
        } else if tag@ == "v6"@ {
            Some(Family::V6)
        } else {
            None
        }),
{
    if str_eq(tag, "v4") {
        Some(Family::V4)
    } else if str_eq(tag, "v6") {
        Some(Family::V6)
    } else {
        None
    }
}

/// Settings that cannot be run.
#[derive(Debug, PartialEq, Eq, Structural, Clone, Copy)]
pub enum ConfigError {
    /// IPv4 only and IPv6 only at once.
    BothOnly,
}

/// A server to connect to.
#[derive(Debug, PartialEq, Eq)]
pub struct ServerPlan {
    pub family: Family,
    pub server: String,
    pub node_id: Option<u16>,
}

/// A server address: the one given, else the default.
pub open spec fn address_or(given: Option<String>, default: Seq<char>) -> Seq<char> {
    match given {
        Some(s) => s@,
        None => default,
    }
}

/// Whether `p` is the plan for `f` under these settings.
pub open spec fn plans(p: ServerPlan, cli: Cli, f: Family, v4_default: Seq<char>, v6_default: Seq<char>) -> bool {
    &&& p.family == f
    &&& p.server@ == (match f {
        Family::V4 => address_or(cli.v4_server, v4_default),
        Family::V6 => address_or(cli.v6_server, v6_default),
    })
    &&& p.node_id == (match f {
        Family::V4 => cli.v4_node_id,
        Family::V6 => cli.v6_node_id,
    })
}

fn address_of(given: &Option<String>, default: &str) -> (r: String)
    ensures
        r@ == address_or(*given, default@),
{
    match given {
        Some(s) => s.clone(),
        None => String::from_str(default),
    }
}

/// The servers to connect to, in order: the IPv6 one unless in IPv4-only
/// mode, then the IPv4 one unless in IPv6-only mode. Both modes at once are
/// refused.
pub fn plan_servers(cli: &Cli, v4_default: &str, v6_default: &str) -> (r: Result<Vec<ServerPlan>, ConfigError>)
    ensures
        cli.v4_only && cli.v6_only <==> r is Err,
        r matches Ok(ps) ==> {
            &&& ps@.len() == (if cli.v4_only || cli.v6_only {
                1int
            } else {
                2int
            })
            &&& !cli.v4_only ==> plans(ps@[0], *cli, Family::V6, v4_default@, v6_default@)
            &&& !cli.v6_only ==> plans(ps@[ps@.len() - 1], *cli, Family::V4, v4_default@, v6_default@)
        },
{
    if cli.v4_only && cli.v6_only {
        return Err(ConfigError::BothOnly);
    }
    let mut ps: Vec<ServerPlan> = Vec::new();
    if !cli.v4_only {
        ps.push(
            ServerPlan {
                family: Family::V6,
                server: address_of(&cli.v6_server, v6_default),
                node_id: cli.v6_node_id,
            },
        );
    }
    if !cli.v6_only {
        ps.push(
            ServerPlan {
                family: Family::V4,
                server: address_of(&cli.v4_server, v4_default),
                node_id: cli.v4_node_id,
            },
        );
    }
    Ok(ps)
}

/// The `Authorization` header: `Bearer <api key>`.
pub fn authorization_header(api_key: &str) -> (r: String)
    ensures
        r@ == "Bearer "@ + api_key@,
{
    let mut r = String::from_str("Bearer ");
    r.append(api_key);
    r
}

/// The decimal digits of `n`.
pub open spec fn decimal(n: nat) -> Seq<char>
    decreases n,
{
    if n < 10 {
        seq![(n + 48) as char]
    } else {
        decimal(n / 10) + seq![((n % 10) + 48) as char]
    }
}

fn push_decimal(s: &mut String, n: u16)
    ensures
        final(s)@ == old(s)@ + decimal(n as nat),
    decreases n,
{
    if n >= 10 {
        push_decimal(s, n / 10);
    }
    let d: u8 = (n % 10) as u8;
    push_char(s, (d + 48) as char);
}

/// The `x-node-id` header: the node id, 0 when none is set, in decimal.
pub fn node_id_header(node_id: Option<u16>) -> (r: String)
    ensures
        r@ == decimal(
            match node_id {
                Some(n) => n as nat,
                None => 0nat,
            },
        ),
{
    let n = match node_id {
        Some(n) => n,
        None => 0,
    };
    let mut r = String::new();
    push_decimal(&mut r, n);
    assert(r@ =~= decimal(n as nat));
    r
}

} // verus!
