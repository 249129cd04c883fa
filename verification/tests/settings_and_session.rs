use nodecook_agent::cli::{
    authorization_header, node_id_header, parse_family, plan_servers, Cli, ConfigError, Family,
};
use nodecook_agent::session::{may_run, Reconnector};
use nodecook_agent::text::{first_word_of, str_eq, trim_spaces};

fn cli(v4_only: bool, v6_only: bool) -> Cli {
    Cli {
        v4_server: None,
        v6_server: Some("wss://six.example".to_string()),
        v4_only,
        v6_only,
        api_key: "k".to_string(),
        debug: false,
        v4_node_id: Some(4),
        v6_node_id: None,
    }
}

#[test]
fn both_only_modes_are_refused() {
    assert_eq!(plan_servers(&cli(true, true), "d4", "d6").unwrap_err(), ConfigError::BothOnly);
}

#[test]
fn servers_in_order() {
    let ps = plan_servers(&cli(false, false), "d4", "d6").unwrap();
    assert_eq!(ps.len(), 2);
    assert_eq!((ps[0].family, ps[0].server.as_str(), ps[0].node_id), (Family::V6, "wss://six.example", None));
    assert_eq!((ps[1].family, ps[1].server.as_str(), ps[1].node_id), (Family::V4, "d4", Some(4)));
    let ps = plan_servers(&cli(true, false), "d4", "d6").unwrap();
    assert_eq!(ps.len(), 1);
    assert_eq!(ps[0].family, Family::V4);
    let ps = plan_servers(&cli(false, true), "d4", "d6").unwrap();
    assert_eq!(ps.len(), 1);
    assert_eq!(ps[0].family, Family::V6);
}

#[test]
fn headers() {
    assert_eq!(authorization_header("abc123"), "Bearer abc123");
    assert_eq!(node_id_header(None), "0");
    assert_eq!(node_id_header(Some(7)), "7");
    assert_eq!(node_id_header(Some(10)), "10");
    assert_eq!(node_id_header(Some(65535)), "65535");
}

#[test]
fn family_tags() {
    assert_eq!(parse_family("v4"), Some(Family::V4));
    assert_eq!(parse_family("v6"), Some(Family::V6));
    assert_eq!(parse_family("v5"), None);
    assert_eq!(Family::V4.tag(), "v4");
    assert_eq!(Family::V6.tag(), "v6");
}

#[test]
fn startup_needs_one_server() {
    assert!(may_run(true, false));
    assert!(may_run(false, true));
    assert!(!may_run(false, false));
}

#[test]
fn reconnects_at_most_every_five_seconds() {
    let mut r = Reconnector::new(1_000);
    assert!(!r.on_disconnect(Family::V4, 3_000));
    assert!(r.on_disconnect(Family::V4, 6_000));
    assert!(!r.on_disconnect(Family::V4, 10_999));
    assert!(r.on_disconnect(Family::V4, 11_000));
    assert!(r.on_disconnect(Family::V6, 6_000));
    assert!(!r.on_disconnect(Family::V6, 500));
}

#[test]
fn text_helpers() {
    assert_eq!(first_word_of("  abc def"), Some("abc".to_string()));
    assert_eq!(first_word_of("\u{a0}\u{85}"), None);
    assert_eq!(trim_spaces("\t x y \n"), "x y");
    assert_eq!(trim_spaces("   "), "");
    assert!(str_eq("abc", "abc"));
    assert!(!str_eq("abc", "abd"));
    assert!(!str_eq("abc", "ab"));
}
