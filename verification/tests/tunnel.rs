use cloudflared::{Tunnel, TunnelError, UrlFault};

fn build(report: Option<&str>) -> Result<Tunnel, TunnelError> {
    let report = report.map(|text| text.to_string());
    Tunnel::builder().url("http://localhost:3333").build("cloudflared".to_string(), report)
}

#[test]
fn reported_url_becomes_the_tunnels_url() {
    let tunnel = build(Some("https://abc-def.trycloudflare.com")).unwrap();
    assert_eq!(tunnel.url(), "https://abc-def.trycloudflare.com");
    assert_eq!(tunnel.executable(), "cloudflared");
    assert!(tunnel.is_running());
}

#[test]
fn executable_is_kept_as_given() {
    let report = Some("http://h".to_string());
    let tunnel = Tunnel::builder().build("/tmp/cloudflared".to_string(), report).unwrap();
    assert_eq!(tunnel.executable(), "/tmp/cloudflared");
    assert_eq!(tunnel.url(), "http://h");
}

#[test]
fn no_report_is_no_url() {
    assert_eq!(build(None).unwrap_err(), TunnelError::NoUrl(UrlFault::Absent));
}

#[test]
fn empty_report_is_no_url() {
    assert_eq!(build(Some("")).unwrap_err(), TunnelError::NoUrl(UrlFault::Unusable));
}

#[test]
fn report_without_scheme_or_host_is_no_url() {
    for text in ["abc", "http://", "https://", "ftp://host", "//host", " https://host"] {
        assert_eq!(build(Some(text)).unwrap_err(), TunnelError::NoUrl(UrlFault::Unusable));
    }
}

#[test]
fn close_twice_is_harmless() {
    let mut tunnel = build(Some("https://abc-def.trycloudflare.com")).unwrap();
    tunnel.close();
    assert!(!tunnel.is_running());
    assert_eq!(tunnel.url(), "https://abc-def.trycloudflare.com");
    tunnel.close();
    assert!(!tunnel.is_running());
    assert_eq!(tunnel.url(), "https://abc-def.trycloudflare.com");
    assert_eq!(tunnel.executable(), "cloudflared");
}

#[test]
fn url_is_never_empty() {
    let tunnel = build(Some("http://x")).unwrap();
    assert!(!tunnel.url().is_empty());
}

#[test]
fn messages_name_each_failure() {
    assert_eq!(TunnelError::UnsupportedPlatform.message(), "Failed to download cloudflared");
    assert_eq!(TunnelError::Download.message(), "Failed to download cloudflared");
    let reason = "No such file or directory (os error 2)";
    assert_eq!(TunnelError::Spawn(reason.to_string()).message(), reason);
    assert_eq!(TunnelError::Spawn(String::new()).message(), "");
    let absent = TunnelError::NoUrl(UrlFault::Absent);
    assert_eq!(absent.message(), "Failed to receive URL from channel");
    assert_eq!(TunnelError::NoUrl(UrlFault::Unusable).message(), "Failed to get URL");
}
