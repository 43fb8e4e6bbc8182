use quark_downloader::cookie::{build_cookie_header, extract_cookie_keys, split_cookie_header};
use quark_downloader::filename::{candidate_name, resolve_save_path};
use quark_downloader::text::{decimal_string, parse_u64, trim};

fn names(v: &[&str]) -> Vec<String> {
    v.iter().map(|s| s.to_string()).collect()
}

#[test]
fn free_name_is_kept() {
    assert_eq!(resolve_save_path("a.txt", &names(&["b.txt"])), "a.txt");
}

#[test]
fn conflicting_name_gets_counter() {
    assert_eq!(resolve_save_path("a.txt", &names(&["a.txt"])), "a (1).txt");
    assert_eq!(resolve_save_path("a.txt", &names(&["a.txt", "a (1).txt"])), "a (2).txt");
    assert_eq!(resolve_save_path("README", &names(&["README"])), "README (1)");
    assert_eq!(resolve_save_path("x.tar.gz", &names(&["x.tar.gz"])), "x.tar (1).gz");
}

#[test]
fn candidate_names() {
    assert_eq!(candidate_name("a.txt", 0), "a.txt");
    assert_eq!(candidate_name("a.txt", 10), "a (10).txt");
    assert_eq!(candidate_name(".profile", 1), ".profile (1)");
    assert_eq!(candidate_name("a.", 2), "a (2)");
}

#[test]
fn cookie_header_keeps_latest_value() {
    let raw = names(&[
        "__pus=abc; Path=/; HttpOnly",
        "other=1",
        "  __pus = def ; Domain=x",
        "novalue",
        "=orphan",
        "",
    ]);
    assert_eq!(build_cookie_header(&raw), "__pus= def; other=1");
    assert_eq!(build_cookie_header(&[]), "");
}

#[test]
fn cookie_header_split() {
    assert_eq!(split_cookie_header(" a=1; b=2 ;;  ; c"), names(&["a=1", "b=2", "c"]));
    assert!(split_cookie_header("").is_empty());
}

#[test]
fn cookie_keys() {
    assert_eq!(extract_cookie_keys("a=1; __puus=x=y; ; c"), "a, __puus, c");
    assert_eq!(extract_cookie_keys(""), "");
}

#[test]
fn text_helpers() {
    assert_eq!(decimal_string(0), "0");
    assert_eq!(decimal_string(18446744073709551615), "18446744073709551615");
    assert_eq!(parse_u64("007"), Some(7));
    assert_eq!(parse_u64("-1"), None);
    assert_eq!(parse_u64("+"), None);
    assert_eq!(parse_u64("18446744073709551615"), Some(u64::MAX));
    assert_eq!(trim("\u{3000} a b \t\n"), "a b");
    assert_eq!(trim("   "), "");
}
