use nodecook_agent::cycle::{Phase, UpgradeAction, UpgradeCycle, UpgradeEvent};
use nodecook_agent::digest::{sha256_hex_of, to_hex_lower};
use nodecook_agent::upgrade::{
    binary_path, check_declared_length, detect_target, extract_binary, first_check_delay_secs,
    parse_remote_sha, sha_url, state_from_contents, tarball_url, upgrade_decision, verify_tarball,
    UpgradeDecision, UpgradeError, MAX_TARBALL_BYTES,
};

const ABC_SHA: &str = "ba7816bf8f01cfea414140de5dae2223b00361a396177a9cb410ff61f20015ad";

fn tar_gz(members: &[(&str, &[u8])]) -> Vec<u8> {
    let enc = flate2::write::GzEncoder::new(Vec::new(), flate2::Compression::default());
    let mut builder = tar::Builder::new(enc);
    for (path, data) in members {
        let mut header = tar::Header::new_gnu();
        header.set_size(data.len() as u64);
        header.set_mode(0o755);
        header.set_cksum();
        builder.append_data(&mut header, path, *data).unwrap();
    }
    builder.into_inner().unwrap().finish().unwrap()
}

#[test]
fn detect_target_known_platforms() {
    assert_eq!(detect_target("linux", "x86_64"), Some("x86_64-unknown-linux-musl"));
    assert_eq!(detect_target("linux", "aarch64"), Some("aarch64-unknown-linux-musl"));
    assert_eq!(detect_target("macos", "aarch64"), None);
    assert_eq!(detect_target("linux", "riscv64"), None);
}

#[test]
fn asset_urls_and_paths() {
    let t = "x86_64-unknown-linux-musl";
    assert_eq!(
        sha_url(t),
        "https://dl.nodecook.com/nodecook-agent-x86_64-unknown-linux-musl.tar.gz.sha256"
    );
    assert_eq!(
        tarball_url(t),
        "https://dl.nodecook.com/nodecook-agent-x86_64-unknown-linux-musl.tar.gz"
    );
    assert_eq!(binary_path(t), "nodecook-agent-x86_64-unknown-linux-musl/nodecook-agent");
}

#[test]
fn sha_hex_of_known_input() {
    assert_eq!(sha256_hex_of(b"abc"), ABC_SHA);
    assert_eq!(to_hex_lower(&[0xbe, 0xef, 0x00, 0x0a]), "beef000a");
    assert_eq!(to_hex_lower(&[]), "");
}

#[test]
fn remote_sha_is_first_word_lowercased() {
    let upper = ABC_SHA.to_uppercase();
    let body = format!("  {}  nodecook-agent-x86_64-unknown-linux-musl.tar.gz\n", upper);
    assert_eq!(parse_remote_sha(&body), Ok(ABC_SHA.to_string()));
    assert_eq!(parse_remote_sha(ABC_SHA), Ok(ABC_SHA.to_string()));
    assert_eq!(parse_remote_sha(&format!("\u{3000}{}\u{2003}x", ABC_SHA)), Ok(ABC_SHA.to_string()));
}

#[test]
fn remote_sha_errors() {
    assert_eq!(parse_remote_sha(""), Err(UpgradeError::EmptySha));
    assert_eq!(parse_remote_sha(" \n\t "), Err(UpgradeError::EmptySha));
    assert_eq!(
        parse_remote_sha("<HTML> error"),
        Err(UpgradeError::MalformedSha("<html>".to_string()))
    );
    let short = &ABC_SHA[..63];
    assert_eq!(parse_remote_sha(short), Err(UpgradeError::MalformedSha(short.to_string())));
    let bad = format!("{}g", &ABC_SHA[..63]);
    assert_eq!(parse_remote_sha(&bad), Err(UpgradeError::MalformedSha(bad.clone())));
}

#[test]
fn state_file_contents() {
    assert_eq!(state_from_contents(&None), None);
    assert_eq!(state_from_contents(&Some(String::new())), None);
    assert_eq!(state_from_contents(&Some(" \n".to_string())), None);
    assert_eq!(state_from_contents(&Some(format!("{}\n", ABC_SHA))), Some(ABC_SHA.to_string()));
    assert_eq!(state_from_contents(&Some(" a b ".to_string())), Some("a b".to_string()));
}

#[test]
fn decisions() {
    assert_eq!(upgrade_decision(ABC_SHA, &None), UpgradeDecision::RecordBaseline);
    assert_eq!(upgrade_decision(ABC_SHA, &Some(ABC_SHA.to_string())), UpgradeDecision::UpToDate);
    assert_eq!(upgrade_decision(ABC_SHA, &Some("other".to_string())), UpgradeDecision::Upgrade);
}

#[test]
fn declared_length_limit() {
    assert_eq!(check_declared_length(None), Ok(()));
    assert_eq!(check_declared_length(Some(MAX_TARBALL_BYTES as u64)), Ok(()));
    assert_eq!(
        check_declared_length(Some(MAX_TARBALL_BYTES as u64 + 1)),
        Err(UpgradeError::DeclaredTooLarge(52428801))
    );
}

#[test]
fn tarball_verification() {
    assert_eq!(verify_tarball(b"abc", ABC_SHA), Ok(()));
    let other = "0".repeat(64);
    assert_eq!(
        verify_tarball(b"abc", &other),
        Err(UpgradeError::ShaMismatch { expected: other.clone(), computed: ABC_SHA.to_string() })
    );
    let big = vec![0u8; MAX_TARBALL_BYTES + 1];
    assert_eq!(verify_tarball(&big, ABC_SHA), Err(UpgradeError::ReceivedTooLarge(MAX_TARBALL_BYTES + 1)));
}

#[test]
fn extraction_finds_the_binary() {
    let t = "x86_64-unknown-linux-musl";
    let tgz = tar_gz(&[
        ("README", b"hello"),
        ("nodecook-agent-x86_64-unknown-linux-musl/nodecook-agent", b"\x7fELF-binary"),
    ]);
    assert_eq!(extract_binary(&tgz, t), Ok(b"\x7fELF-binary".to_vec()));
}

#[test]
fn extraction_errors() {
    let t = "x86_64-unknown-linux-musl";
    let empty = tar_gz(&[("nodecook-agent-x86_64-unknown-linux-musl/nodecook-agent", b"")]);
    assert_eq!(extract_binary(&empty, t), Err(UpgradeError::EmptyBinary));
    let other = tar_gz(&[("nodecook-agent-aarch64-unknown-linux-musl/nodecook-agent", b"x")]);
    assert_eq!(
        extract_binary(&other, t),
        Err(UpgradeError::BinaryNotFound(
            "nodecook-agent-x86_64-unknown-linux-musl/nodecook-agent".to_string()
        ))
    );
    assert!(matches!(extract_binary(b"not a gzip stream", t), Err(UpgradeError::Archive(_))));
}

#[test]
fn first_delay_in_range() {
    for _ in 0..50 {
        let d = first_check_delay_secs();
        assert!((60..=3600).contains(&d));
    }
}

#[test]
fn cycle_first_run_records_baseline() {
    let (mut c, a) = UpgradeCycle::start("x86_64-unknown-linux-musl");
    assert_eq!(
        a,
        UpgradeAction::FetchSha(
            "https://dl.nodecook.com/nodecook-agent-x86_64-unknown-linux-musl.tar.gz.sha256"
                .to_string()
        )
    );
    let a = c.step(UpgradeEvent::ShaBody(format!("{}  file\n", ABC_SHA)));
    assert_eq!(a, UpgradeAction::ReadState);
    let a = c.step(UpgradeEvent::StateFile(None));
    assert_eq!(a, UpgradeAction::WriteState(ABC_SHA.to_string()));
    assert_eq!(c.phase(), Phase::RecordingBaseline);
    let a = c.step(UpgradeEvent::StateWritten);
    assert_eq!(a, UpgradeAction::Done(Ok(())));
    assert_eq!(c.phase(), Phase::Finished);
}

#[test]
fn cycle_up_to_date_stops() {
    let (mut c, _) = UpgradeCycle::start("x86_64-unknown-linux-musl");
    c.step(UpgradeEvent::ShaBody(ABC_SHA.to_string()));
    let a = c.step(UpgradeEvent::StateFile(Some(format!("{}\n", ABC_SHA))));
    assert_eq!(a, UpgradeAction::Done(Ok(())));
}

#[test]
fn cycle_full_upgrade_then_exit() {
    let t = "x86_64-unknown-linux-musl";
    let tgz = tar_gz(&[("nodecook-agent-x86_64-unknown-linux-musl/nodecook-agent", b"NEWBIN")]);
    let sha = sha256_hex_of(&tgz);
    let (mut c, _) = UpgradeCycle::start(t);
    assert_eq!(c.step(UpgradeEvent::ShaBody(sha.to_uppercase())), UpgradeAction::ReadState);
    assert_eq!(
        c.step(UpgradeEvent::StateFile(Some("old-sha".to_string()))),
        UpgradeAction::Download(
            "https://dl.nodecook.com/nodecook-agent-x86_64-unknown-linux-musl.tar.gz".to_string()
        )
    );
    assert_eq!(c.step(UpgradeEvent::ResponseHead(Some(tgz.len() as u64))), UpgradeAction::ReadBody);
    assert_eq!(c.step(UpgradeEvent::TarballBody(tgz)), UpgradeAction::Swap(b"NEWBIN".to_vec()));
    assert_eq!(c.step(UpgradeEvent::Swapped), UpgradeAction::WriteState(sha.clone()));
    assert_eq!(c.step(UpgradeEvent::StateWritten), UpgradeAction::Exit);
    assert_eq!(c.phase(), Phase::Finished);
}

#[test]
fn cycle_mismatch_never_swaps() {
    let t = "x86_64-unknown-linux-musl";
    let tgz = tar_gz(&[("nodecook-agent-x86_64-unknown-linux-musl/nodecook-agent", b"NEWBIN")]);
    let (mut c, _) = UpgradeCycle::start(t);
    c.step(UpgradeEvent::ShaBody(ABC_SHA.to_string()));
    c.step(UpgradeEvent::StateFile(Some("old".to_string())));
    c.step(UpgradeEvent::ResponseHead(None));
    let a = c.step(UpgradeEvent::TarballBody(tgz.clone()));
    assert_eq!(
        a,
        UpgradeAction::Done(Err(UpgradeError::ShaMismatch {
            expected: ABC_SHA.to_string(),
            computed: sha256_hex_of(&tgz),
        }))
    );
    assert_eq!(c.phase(), Phase::Finished);
}

#[test]
fn cycle_declared_too_large_and_failures() {
    let (mut c, _) = UpgradeCycle::start("x");
    c.step(UpgradeEvent::ShaBody(ABC_SHA.to_string()));
    c.step(UpgradeEvent::StateFile(Some("old".to_string())));
    assert_eq!(
        c.step(UpgradeEvent::ResponseHead(Some(u64::MAX))),
        UpgradeAction::Done(Err(UpgradeError::DeclaredTooLarge(u64::MAX)))
    );
    let (mut c, _) = UpgradeCycle::start("x");
    assert_eq!(
        c.step(UpgradeEvent::Failed("GET failed".to_string())),
        UpgradeAction::Done(Err(UpgradeError::Io("GET failed".to_string())))
    );
    let (mut c, _) = UpgradeCycle::start("x");
    assert_eq!(c.step(UpgradeEvent::ShaBody(String::new())), UpgradeAction::Done(Err(UpgradeError::EmptySha)));
}

#[test]
fn remote_sha_ascii_cases() {
    assert_eq!(parse_remote_sha("deadbeef"), Err(UpgradeError::MalformedSha("deadbeef".to_string())));
    let mixed = "Ba7816BF8f01cfea414140de5dae2223b00361a396177a9cb410ff61f20015AD";
    assert_eq!(parse_remote_sha(mixed), Ok(ABC_SHA.to_string()));
}

#[test]
fn second_check_with_same_sha_is_up_to_date() {
    let (mut c, _) = UpgradeCycle::start("x86_64-unknown-linux-musl");
    c.step(UpgradeEvent::ShaBody(ABC_SHA.to_string()));
    let written = match c.step(UpgradeEvent::StateFile(None)) {
        UpgradeAction::WriteState(s) => s,
        other => panic!("unexpected {:?}", other),
    };
    c.step(UpgradeEvent::StateWritten);
    let (mut c2, _) = UpgradeCycle::start("x86_64-unknown-linux-musl");
    c2.step(UpgradeEvent::ShaBody(format!("{}  f\n", ABC_SHA)));
    assert_eq!(c2.step(UpgradeEvent::StateFile(Some(written))), UpgradeAction::Done(Ok(())));
}

#[test]
fn extraction_stops_at_the_binary() {
    let t = "x86_64-unknown-linux-musl";
    let mut builder = tar::Builder::new(Vec::new());
    for (path, data) in [
        ("nodecook-agent-x86_64-unknown-linux-musl/nodecook-agent", &b"BIN"[..]),
        ("later", &b"x"[..]),
    ] {
        let mut header = tar::Header::new_gnu();
        header.set_size(data.len() as u64);
        header.set_mode(0o755);
        header.set_cksum();
        builder.append_data(&mut header, path, data).unwrap();
    }
    let mut raw = builder.into_inner().unwrap();
    // Break the checksum of the second member's header.
    raw[1024 + 148..1024 + 156].copy_from_slice(b"zzzzzzz\0");
    let mut enc = flate2::write::GzEncoder::new(Vec::new(), flate2::Compression::default());
    std::io::Write::write_all(&mut enc, &raw).unwrap();
    let tgz = enc.finish().unwrap();
    assert_eq!(extract_binary(&tgz, t), Ok(b"BIN".to_vec()));
    let missing = "aarch64-unknown-linux-musl";
    assert!(matches!(extract_binary(&tgz, missing), Err(UpgradeError::Archive(_))));
}
