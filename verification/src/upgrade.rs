//! Self-upgrade: which release asset fits the platform, how the published
//! sha256 and the local state file are read, how a downloaded tarball is
//! checked and unpacked, and the hourly check as a state machine whose
//! outside work (HTTP, files, replacing the binary, exiting) the caller does.
use vstd::prelude::*;
use crate::archive::{find_member, read_tar_gz_member, read_tar_gz_paths, tar_gz_member, tar_gz_paths};
use crate::digest::{sha256_hex, sha256_hex_of};
use crate::text::{ascii_lower, is_ascii_text, opt_view, first_word, first_word_of, is_hex_char, is_hex_of_len, str_eq, trim_spaces, trimmed};

verus! {

/// Where release assets are published.
pub const DOWNLOAD_BASE: &'static str = "https://dl.nodecook.com";

/// Where the sha256 of the installed binary is kept.
pub const STATE_FILE: &'static str = "/var/lib/nodecook-agent/installed.sha256";

/// Seconds between two checks.
pub const CHECK_INTERVAL_SECS: u64 = 3600;

/// Total timeout of the request for the sha256 file, in seconds.
pub const SHA_FETCH_TIMEOUT_SECS: u64 = 15;

/// Total timeout of the request for the tarball, in seconds.
pub const TARBALL_FETCH_TIMEOUT_SECS: u64 = 120;

/// Connect timeout of both requests, in seconds.
pub const CONNECT_TIMEOUT_SECS: u64 = 10;

/// The largest tarball that is accepted, in bytes (50 MiB).
pub const MAX_TARBALL_BYTES: usize = 52428800;

/// Shortest and longest delay before the first check, in seconds.
pub const FIRST_CHECK_MIN_SECS: u64 = 60;

pub const FIRST_CHECK_MAX_SECS: u64 = 3600;

/// Why an upgrade check stopped.
#[derive(Debug, PartialEq, Eq)]
pub enum UpgradeError {
    /// The sha256 file holds no word.
    EmptySha,
    /// The first word of the sha256 file (lower-cased) is not 64 hex digits.
    MalformedSha(String),
    /// The response declared more bytes than allowed.
    DeclaredTooLarge(u64),
    /// The body held more bytes than allowed.
    ReceivedTooLarge(usize),
    /// The tarball's sha256 is not the published one.
    ShaMismatch { expected: String, computed: String },
    /// The binary in the tarball is empty.
    EmptyBinary,
    /// The tarball has no member at this path.
    BinaryNotFound(String),
    /// Reading the tarball failed with this message.
    Archive(String),
    /// Outside work (network, files) failed with this message.
    Io(String),
}

/// An [`UpgradeError`] by plain values.
pub ghost enum UpgradeFault {
    EmptySha,
    MalformedSha(Seq<char>),
    DeclaredTooLarge(u64),
    ReceivedTooLarge(usize),
    ShaMismatch { expected: Seq<char>, computed: Seq<char> },
    EmptyBinary,
    BinaryNotFound(Seq<char>),
    Archive(Seq<char>),
    Io(Seq<char>),
}

impl View for UpgradeError {
    type V = UpgradeFault;

    open spec fn view(&self) -> UpgradeFault {
        match self {
            UpgradeError::EmptySha => UpgradeFault::EmptySha,
            UpgradeError::MalformedSha(h) => UpgradeFault::MalformedSha(h@),
            UpgradeError::DeclaredTooLarge(n) => UpgradeFault::DeclaredTooLarge(*n),
            UpgradeError::ReceivedTooLarge(n) => UpgradeFault::ReceivedTooLarge(*n),
            UpgradeError::ShaMismatch { expected, computed } => UpgradeFault::ShaMismatch {
                expected: expected@,
                computed: computed@,
            },
            UpgradeError::EmptyBinary => UpgradeFault::EmptyBinary,
            UpgradeError::BinaryNotFound(p) => UpgradeFault::BinaryNotFound(p@),
            UpgradeError::Archive(m) => UpgradeFault::Archive(m@),
            UpgradeError::Io(m) => UpgradeFault::Io(m@),
        }
    }
}

/// The release asset name for an operating system and architecture
/// (`std::env::consts::OS` and `ARCH`).
pub open spec fn target_for(os: Seq<char>, arch: Seq<char>) -> Option<Seq<char>> {
    if os == "linux"@ && arch == "x86_64"@ {
        Some("x86_64-unknown-linux-musl"@)
    } else if os == "linux"@ && arch == "aarch64"@ {
        Some("aarch64-unknown-linux-musl"@)
    } else {
        None
    }
}


/// A release asset exists exactly for Linux on x86_64 and on aarch64, and
/// it is named by the architecture followed by `-unknown-linux-musl`.
pub proof fn law_release_targets(os: Seq<char>, arch: Seq<char>)
    ensures
        target_for(os, arch) is Some <==> os == "linux"@ && (arch == "x86_64"@ || arch
            == "aarch64"@),
        target_for(os, arch) matches Some(t) ==> t == arch + "-unknown-linux-musl"@,
{
    reveal_strlit("x86_64");
    reveal_strlit("aarch64");
    reveal_strlit("-unknown-linux-musl");
    reveal_strlit("x86_64-unknown-linux-musl");
    reveal_strlit("aarch64-unknown-linux-musl");
    if target_for(os, arch) is Some {
        if arch == "x86_64"@ {
            assert(arch + "-unknown-linux-musl"@ =~= "x86_64-unknown-linux-musl"@);
        } else {
            assert(arch + "-unknown-linux-musl"@ =~= "aarch64-unknown-linux-musl"@);
        }
    }
}

/// The release asset for the platform, if one is published for it.
pub fn detect_target(os: &str, arch: &str) -> (r: Option<&'static str>)
    ensures
        match r {
            Some(t) => target_for(os@, arch@) == Some(t@),
            None => target_for(os@, arch@) is None,
        },
{
    if str_eq(os, "linux") && str_eq(arch, "x86_64") {
        Some("x86_64-unknown-linux-musl")
    } else if str_eq(os, "linux") && str_eq(arch, "aarch64") {
        Some("aarch64-unknown-linux-musl")
    } else {
        None
    }
}

/// The URL of the published sha256 of the tarball for `target`.
pub open spec fn sha_url_for(target: Seq<char>) -> Seq<char> {
    DOWNLOAD_BASE@ + "/nodecook-agent-"@ + target + ".tar.gz.sha256"@
}

/// The URL of the tarball for `target`.
pub open spec fn tarball_url_for(target: Seq<char>) -> Seq<char> {
    DOWNLOAD_BASE@ + "/nodecook-agent-"@ + target + ".tar.gz"@
}

/// The path of the binary inside the tarball for `target`.
pub open spec fn binary_path_for(target: Seq<char>) -> Seq<char> {
    "nodecook-agent-"@ + target + "/nodecook-agent"@
}

pub fn sha_url(target: &str) -> (r: String)
    ensures
        r@ == sha_url_for(target@),
{
    let mut r = String::from_str(DOWNLOAD_BASE);
    r.append("/nodecook-agent-");
    r.append(target);
    r.append(".tar.gz.sha256");
    r
}

pub fn tarball_url(target: &str) -> (r: String)
    ensures
        r@ == tarball_url_for(target@),
{
    let mut r = String::from_str(DOWNLOAD_BASE);
    r.append("/nodecook-agent-");
    r.append(target);
    r.append(".tar.gz");
    r
}

pub fn binary_path(target: &str) -> (r: String)
    ensures
        r@ == binary_path_for(target@),
{
    let mut r = String::from_str("nodecook-agent-");
    r.append(target);
    r.append("/nodecook-agent");
    r
}

/// The lower-case form of `s`, as `str::to_lowercase` computes it.
pub uninterp spec fn unicode_lowercase(s: Seq<char>) -> Seq<char>;

/// Calls `str::to_lowercase`. The contract claims that the result is
/// `unicode_lowercase(s)`, a function of `s` alone, and that on an ASCII
/// string it maps exactly the letters `A`-`Z` to `a`-`z`.
#[verifier::external_body]
fn lowercase(s: &str) -> (r: String)
    ensures
        r@ == unicode_lowercase(s@),
        (forall|k: int| 0 <= k < s@.len() ==> (#[trigger] s@[k] as u32) < 128) ==> r@
            == s@.map_values(|c: char| crate::text::ascii_lower(c)),
{
    s.to_lowercase()
}

/// Whether `h` is a sha256 in hex: 64 hex digits.
pub open spec fn is_sha_hex(h: Seq<char>) -> bool {
    h.len() == 64 && forall|k: int| 0 <= k < h.len() ==> is_hex_char(#[trigger] h[k])
}

/// What the body of the published sha256 file (`sha256sum` output,
/// `<hash>  <file>`) says: its first word, lower-cased, if that is 64 hex digits.
pub open spec fn remote_sha_from(body: Seq<char>) -> Result<Seq<char>, UpgradeFault> {
    match first_word(body) {
        None => Err(UpgradeFault::EmptySha),
        Some(w) => {
            let h = unicode_lowercase(w);
            if is_sha_hex(h) {
                Ok(h)
            } else {
                Err(UpgradeFault::MalformedSha(h))
            }
        },
    }
}

/// Reads the published sha256 out of the body of the sha256 file.
pub fn parse_remote_sha(body: &str) -> (r: Result<String, UpgradeError>)
    ensures
        match r {
            Ok(h) => remote_sha_from(body@) == Ok::<Seq<char>, UpgradeFault>(h@),
            Err(e) => remote_sha_from(body@) == Err::<Seq<char>, UpgradeFault>(e@),
        },
        (r matches Err(UpgradeError::EmptySha)) <==> first_word(body@) is None,
        match first_word(body@) {
            Some(w) => is_ascii_text(w) ==> match r {
                Ok(h) => is_sha_hex(w) && h@ == w.map_values(|c: char| ascii_lower(c)),
                Err(e) => !is_sha_hex(w) && e@ == UpgradeFault::MalformedSha(
                    w.map_values(|c: char| ascii_lower(c)),
                ),
            },
            None => true,
        },
{
    match first_word_of(body) {
        None => Err(UpgradeError::EmptySha),
        Some(w) => {
            let h = lowercase(w.as_str());
            proof {
                if is_ascii_text(w@) {
                    let lw = w@.map_values(|c: char| ascii_lower(c));
                    assert(lw.len() == w@.len());
                    assert forall|k: int| 0 <= k < w@.len() implies is_hex_char(#[trigger] lw[k])
                        == is_hex_char(w@[k]) by {
                        assert(lw[k] == ascii_lower(w@[k]));
                        crate::text::lemma_hex_char_ascii_lower(w@[k]);
                    }
                    if is_sha_hex(w@) {
                        assert forall|k: int| 0 <= k < lw.len() implies is_hex_char(#[trigger] lw[k]) by {
                            assert(is_hex_char(w@[k]));
                        }
                    }
                    if is_sha_hex(lw) {
                        assert forall|k: int| 0 <= k < w@.len() implies is_hex_char(#[trigger] w@[k]) by {
                            assert(is_hex_char(lw[k]));
                        }
                    }
                    assert(is_sha_hex(lw) == is_sha_hex(w@));
                }
            }
            if is_hex_of_len(h.as_str(), 64) {
                Ok(h)
            } else {
                Err(UpgradeError::MalformedSha(h))
            }
        },
    }
}

/// The sha256 recorded in the state file: its trimmed contents, if any are left.
pub open spec fn recorded_sha(contents: Option<Seq<char>>) -> Option<Seq<char>> {
    match contents {
        None => None,
        Some(c) => if trimmed(c).len() == 0 {
            None
        } else {
            Some(trimmed(c))
        },
    }
}

/// Reads the recorded sha256 out of the state file's contents (`None` where
/// the file could not be read).
pub fn state_from_contents(contents: &Option<String>) -> (r: Option<String>)
    ensures
        match r {
            Some(s) => recorded_sha(opt_view(contents)) == Some(s@),
            None => recorded_sha(opt_view(contents)) is None,
        },
{
    match contents {
        None => None,
        Some(c) => {
            let t = trim_spaces(c.as_str());
            if t.as_str().unicode_len() == 0 {
                None
            } else {
                Some(t)
            }
        },
    }
}

/// What a check does once the published sha256 and the recorded one are known.
#[derive(Debug, PartialEq, Eq, Structural, Clone, Copy)]
pub enum UpgradeDecision {
    /// Nothing is recorded: the installed binary is taken as current and its sha recorded.
    RecordBaseline,
    /// The recorded sha is the published one.
    UpToDate,
    /// A new binary is published.
    Upgrade,
}

pub open spec fn decide(remote: Seq<char>, local: Option<Seq<char>>) -> UpgradeDecision {
    match local {
        None => UpgradeDecision::RecordBaseline,
        Some(l) => if l == remote {
            UpgradeDecision::UpToDate
        } else {
            UpgradeDecision::Upgrade
        },
    }
}

pub fn upgrade_decision(remote: &str, local: &Option<String>) -> (r: UpgradeDecision)
    ensures
        r == decide(remote@, opt_view(local)),
{
    match local {
        None => UpgradeDecision::RecordBaseline,
        Some(l) => if str_eq(l.as_str(), remote) {
            UpgradeDecision::UpToDate
        } else {
            UpgradeDecision::Upgrade
        },
    }
}

/// The check of the length that a response declares before its body is read.
pub open spec fn declared_length_ok(len: Option<u64>) -> Result<(), UpgradeFault> {
    match len {
        Some(n) => if n > MAX_TARBALL_BYTES {
            Err(UpgradeFault::DeclaredTooLarge(n))
        } else {
            Ok(())
        },
        None => Ok(()),
    }
}

pub fn check_declared_length(len: Option<u64>) -> (r: Result<(), UpgradeError>)
    ensures
        match r {
            Ok(()) => declared_length_ok(len) == Ok::<(), UpgradeFault>(()),
            Err(e) => declared_length_ok(len) == Err::<(), UpgradeFault>(e@),
        },
{
    match len {
        Some(n) => if n > MAX_TARBALL_BYTES as u64 {
            Err(UpgradeError::DeclaredTooLarge(n))
        } else {
            Ok(())
        },
        None => Ok(()),
    }
}

/// The checks of a downloaded tarball: not larger than allowed, and its
/// sha256 is the published one.
pub open spec fn tarball_ok(bytes: Seq<u8>, expected: Seq<char>) -> Result<(), UpgradeFault> {
    if bytes.len() > MAX_TARBALL_BYTES {
        Err(UpgradeFault::ReceivedTooLarge(bytes.len() as usize))
    } else if sha256_hex(bytes) != expected {
        Err(UpgradeFault::ShaMismatch { expected, computed: sha256_hex(bytes) })
    } else {
        Ok(())
    }
}


/// A tarball of at most 50 MiB (52428800 bytes) whose sha256 is the
/// published one passes the check; one larger than that is refused for its
/// size, whatever sha is expected; and one whose sha256 differs from the
/// expected one is refused. A declared length is refused exactly when it is
/// over 50 MiB.
pub proof fn law_tarball_check(bytes: Seq<u8>, expected: Seq<char>, declared: u64)
    ensures
        bytes.len() <= 52428800 ==> tarball_ok(bytes, sha256_hex(bytes)) == Ok::<(), UpgradeFault>(()),
        bytes.len() > 52428800 ==> tarball_ok(bytes, expected) == Err::<(), UpgradeFault>(
            UpgradeFault::ReceivedTooLarge(bytes.len() as usize),
        ),
        sha256_hex(bytes) != expected ==> tarball_ok(bytes, expected) is Err,
        tarball_ok(bytes, expected) is Ok ==> bytes.len() <= 52428800 && sha256_hex(bytes)
            == expected,
        declared_length_ok(Some(declared)) is Ok <==> declared <= 52428800,
        declared_length_ok(None) is Ok,
{
}

pub fn verify_tarball(bytes: &[u8], expected: &str) -> (r: Result<(), UpgradeError>)
    ensures
        match r {
            Ok(()) => tarball_ok(bytes@, expected@) == Ok::<(), UpgradeFault>(()),
            Err(e) => tarball_ok(bytes@, expected@) == Err::<(), UpgradeFault>(e@),
        },
{
    if bytes.len() > MAX_TARBALL_BYTES {
        return Err(UpgradeError::ReceivedTooLarge(bytes.len()));
    }
    let computed = sha256_hex_of(bytes);
    if !str_eq(computed.as_str(), expected) {
        return Err(
            UpgradeError::ShaMismatch { expected: String::from_str(expected), computed: computed },
        );
    }
    Ok(())
}

/// The binary that the tarball `tarball` holds for `target`: the contents of
/// the first member at its path, which must not be empty. Reading stops at
/// that member; an error before it, or while reading it, is the outcome.
pub open spec fn extracted_binary(tarball: Seq<u8>, target: Seq<char>) -> Result<Seq<u8>, UpgradeFault> {
    let path = binary_path_for(target);
    let listing = tar_gz_paths(tarball);
    match find_member(listing.0, path, 0) {
        Some(k) => match tar_gz_member(tarball, k as usize) {
            Ok(Some(d)) => if d.len() == 0 {
                Err(UpgradeFault::EmptyBinary)
            } else {
                Ok(d)
            },
            Ok(None) => Err(UpgradeFault::BinaryNotFound(path)),
            Err(m) => Err(UpgradeFault::Archive(m)),
        },
        None => match listing.1 {
            Some(m) => Err(UpgradeFault::Archive(m)),
            None => Err(UpgradeFault::BinaryNotFound(path)),
        },
    }
}

/// Unpacks the agent binary for `target` out of a gzip-compressed tarball.
pub fn extract_binary(tarball: &[u8], target: &str) -> (r: Result<Vec<u8>, UpgradeError>)
    ensures
        match r {
            Ok(b) => extracted_binary(tarball@, target@) == Ok::<Seq<u8>, UpgradeFault>(b@),
            Err(e) => extracted_binary(tarball@, target@) == Err::<Seq<u8>, UpgradeFault>(e@),
        },
{
    let path = binary_path(target);
    let listing = read_tar_gz_paths(tarball);
    match listing.position(path.as_str()) {
        Some(k) => match read_tar_gz_member(tarball, k) {
            Ok(Some(data)) => if data.len() == 0 {
                Err(UpgradeError::EmptyBinary)
            } else {
                Ok(data)
            },
            Ok(None) => Err(UpgradeError::BinaryNotFound(path)),
            Err(m) => Err(UpgradeError::Archive(m)),
        },
        None => match listing.error {
            Some(m) => Err(UpgradeError::Archive(m)),
            None => Err(UpgradeError::BinaryNotFound(path)),
        },
    }
}

/// Calls `rand::Rng::gen_range` on `rand::thread_rng()` with the range
/// `lo..=hi`. The result is random: the contract claims only that it lies in
/// the range (which `gen_range` asserts is not empty).
#[verifier::external_body]
fn random_in(lo: u64, hi: u64) -> (r: u64)
    requires
        lo <= hi,
    ensures
        lo <= r <= hi,
{
    rand::Rng::gen_range(&mut rand::thread_rng(), lo..=hi)
}

/// The delay before the first check, in seconds: a random value from one
/// minute to one hour, so that the nodes do not all check at once.
pub fn first_check_delay_secs() -> (r: u64)
    ensures
        FIRST_CHECK_MIN_SECS <= r <= FIRST_CHECK_MAX_SECS,
{
    random_in(FIRST_CHECK_MIN_SECS, FIRST_CHECK_MAX_SECS)
}

} // verus!
