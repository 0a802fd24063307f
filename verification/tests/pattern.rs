use cloudflared::pattern::{is_http_url, scan_line, Scan, URL_PATTERN};
use cloudflared::text::{same_text, starts_with};

fn url(text: &str) -> Scan {
    Scan::Url(text.to_string())
}

#[test]
fn announcement_line_yields_the_url_exactly() {
    let line = "2024-01-01T00:00:00Z INF | https://abc-def.trycloudflare.com  |";
    assert_eq!(scan_line(line), url("https://abc-def.trycloudflare.com"));
}

#[test]
fn announcement_line_with_line_ending_yields_the_url_exactly() {
    let line = "2024-01-01T00:00:00Z INF |  https://abc-def.trycloudflare.com\n";
    assert_eq!(scan_line(line), url("https://abc-def.trycloudflare.com"));
}

#[test]
fn plain_http_is_taken_too() {
    assert_eq!(scan_line("| http://localhost:8080/x"), url("http://localhost:8080/x"));
}

#[test]
fn token_ends_at_any_white_space() {
    assert_eq!(scan_line("|\thttps://a.b/c\td"), url("https://a.b/c"));
    assert_eq!(scan_line("| https://a.b/c\r\n"), url("https://a.b/c"));
    assert_eq!(scan_line("| https://a.b|c d"), url("https://a.b|c"));
}

#[test]
fn leftmost_announcement_is_taken() {
    let line = "x | https://first.example | https://second.example |";
    assert_eq!(scan_line(line), url("https://first.example"));
    assert_eq!(scan_line("| nothing | http://later.example"), url("http://later.example"));
}

#[test]
fn lines_without_the_shape_announce_nothing() {
    assert_eq!(scan_line(""), Scan::Nothing);
    assert_eq!(scan_line("\n"), Scan::Nothing);
    assert_eq!(scan_line("2024-01-01T00:00:00Z INF Starting tunnel"), Scan::Nothing);
    assert_eq!(scan_line("https://abc-def.trycloudflare.com"), Scan::Nothing);
    assert_eq!(scan_line("|https://abc-def.trycloudflare.com"), Scan::Nothing);
    assert_eq!(scan_line("| ftp://abc-def.trycloudflare.com"), Scan::Nothing);
    assert_eq!(scan_line("| https://"), Scan::Nothing);
    assert_eq!(scan_line("| https:// x"), Scan::Nothing);
    assert_eq!(scan_line("| HTTPS://abc-def.trycloudflare.com"), Scan::Nothing);
    assert_eq!(scan_line("|  Your quick Tunnel has been created! Visit it at:  |"), Scan::Nothing);
}

#[test]
fn the_pattern_is_fixed() {
    assert_eq!(URL_PATTERN, "\\|\\s+(https?:\\/\\/[^\\s]+)");
}

#[test]
fn http_urls_need_a_scheme_and_a_host() {
    assert!(is_http_url("http://a"));
    assert!(is_http_url("https://a"));
    assert!(is_http_url("https://abc-def.trycloudflare.com"));
    assert!(is_http_url("http://ü"));
    assert!(!is_http_url(""));
    assert!(!is_http_url("http://"));
    assert!(!is_http_url("https://"));
    assert!(!is_http_url("https:/"));
    assert!(!is_http_url("http:/a"));
    assert!(!is_http_url("ftp://a"));
    assert!(!is_http_url(" https://a"));
    assert!(!is_http_url("HTTP://a"));
    assert!(!is_http_url("abc"));
}

#[test]
fn every_scanned_announcement_is_an_http_url() {
    for line in ["| https://a", "x |   http://b.c/d e", "|\nhttps://é.example/ü\n"] {
        match scan_line(line) {
            Scan::Url(text) => assert!(is_http_url(&text)),
            other => panic!("no announcement in {:?}: {:?}", line, other),
        }
    }
}

#[test]
fn starts_with_compares_characters() {
    assert!(starts_with("", ""));
    assert!(starts_with("abc", ""));
    assert!(starts_with("abc", "a"));
    assert!(starts_with("abc", "abc"));
    assert!(!starts_with("abc", "abcd"));
    assert!(!starts_with("abc", "b"));
    assert!(!starts_with("", "a"));
    assert!(starts_with("äbc", "ä"));
    assert!(!starts_with("äbc", "a"));
    assert!(!starts_with("abd", "abc"));
}

#[test]
fn same_text_is_equality() {
    assert!(same_text("", ""));
    assert!(same_text("linux", "linux"));
    assert!(!same_text("linux", "linux "));
    assert!(!same_text("linu", "linux"));
    assert!(!same_text("linux", "linuX"));
    assert!(same_text("ünï", "ünï"));
}
