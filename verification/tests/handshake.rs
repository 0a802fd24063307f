use cloudflared::handshake::{Handshake, StreamEvent};
use cloudflared::pattern::Scan;
use cloudflared::{Tunnel, TunnelError, UrlFault};

fn line(text: &str) -> StreamEvent {
    StreamEvent::Line(text.to_string())
}

fn run(events: Vec<StreamEvent>) -> Handshake {
    let mut state = Handshake::new();
    for event in events {
        state = state.step(event);
    }
    state
}

#[test]
fn a_fresh_handshake_is_reading() {
    assert_eq!(Handshake::new(), Handshake::Reading);
    assert!(!Handshake::new().is_terminal());
    assert_eq!(Handshake::new().report(), None);
}

#[test]
fn only_reading_is_not_terminal() {
    assert!(!Handshake::Reading.is_terminal());
    assert!(Handshake::Found("https://a.b".to_string()).is_terminal());
    assert!(Handshake::Found(String::new()).is_terminal());
    assert!(Handshake::StreamEnded.is_terminal());
    assert!(Handshake::ReadError.is_terminal());
}

#[test]
fn reads_are_classified() {
    assert_eq!(StreamEvent::from_read(None, String::new()), StreamEvent::Failed);
    assert_eq!(StreamEvent::from_read(None, "partial".to_string()), StreamEvent::Failed);
    assert_eq!(StreamEvent::from_read(Some(0), String::new()), StreamEvent::End);
    assert_eq!(StreamEvent::from_read(Some(1), "\n".to_string()), line("\n"));
    assert_eq!(StreamEvent::from_read(Some(6), "hello\n".to_string()), line("hello\n"));
}

#[test]
fn handshake_extracts_the_announced_url() {
    let state = run(vec![
        line("2024-01-01T00:00:00Z INF Requesting new quick Tunnel on trycloudflare.com...\n"),
        line("2024-01-01T00:00:00Z INF | https://abc-def.trycloudflare.com  |\n"),
    ]);
    assert_eq!(state, Handshake::Found("https://abc-def.trycloudflare.com".to_string()));
    assert_eq!(state.report(), Some("https://abc-def.trycloudflare.com".to_string()));
}

#[test]
fn first_announcement_wins_and_the_rest_is_ignored() {
    let state = run(vec![
        line("starting\n"),
        line("INF | https://first.trycloudflare.com |\n"),
        line("INF | https://second.trycloudflare.com |\n"),
        StreamEvent::Failed,
        StreamEvent::End,
    ]);
    assert_eq!(state, Handshake::Found("https://first.trycloudflare.com".to_string()));
}

#[test]
fn silent_stream_ends_without_a_url() {
    let state =
        run(vec![line("one\n"), line("| no url here |\n"), line("three\n"), StreamEvent::End]);
    assert_eq!(state, Handshake::StreamEnded);
    assert_eq!(state.report(), None);
}

#[test]
fn empty_stream_ends_without_a_url() {
    assert_eq!(run(vec![StreamEvent::End]), Handshake::StreamEnded);
}

#[test]
fn silent_stream_gives_no_tunnel() {
    let report = run(vec![line("one\n"), line("two\n"), StreamEvent::End]).report();
    let built = Tunnel::builder().build("cloudflared".to_string(), report);
    assert_eq!(built.unwrap_err(), TunnelError::NoUrl(UrlFault::Absent));
}

#[test]
fn failed_read_ends_in_read_error() {
    let state = run(vec![line("one\n"), StreamEvent::Failed]);
    assert_eq!(state, Handshake::ReadError);
    assert_eq!(state.report(), None);
    let later =
        run(vec![StreamEvent::Failed, line("| https://late.example |\n"), StreamEvent::End]);
    assert_eq!(later, Handshake::ReadError);
}

#[test]
fn ended_stream_stays_ended() {
    let state =
        run(vec![StreamEvent::End, line("| https://late.example |\n"), StreamEvent::Failed]);
    assert_eq!(state, Handshake::StreamEnded);
}

#[test]
fn silent_lines_keep_the_handshake_reading() {
    let state = run(vec![line("one\n"), line("two\n"), line("\n")]);
    assert_eq!(state, Handshake::Reading);
}

#[test]
fn observe_takes_the_first_text_whatever_it_is() {
    assert_eq!(Handshake::new().observe(Scan::Nothing), Handshake::Reading);
    assert_eq!(
        Handshake::new().observe(Scan::Url("https://a.b".to_string())),
        Handshake::Found("https://a.b".to_string())
    );
    assert_eq!(
        Handshake::new().observe(Scan::Url(String::new())),
        Handshake::Found(String::new())
    );
    assert_eq!(Handshake::new().observe(Scan::Refused), Handshake::ReadError);
}

#[test]
fn observe_leaves_a_finished_handshake_alone() {
    let other = || Scan::Url("https://c.d".to_string());
    let found = Handshake::Found("https://a.b".to_string());
    assert_eq!(found.observe(other()), Handshake::Found("https://a.b".to_string()));
    assert_eq!(Handshake::StreamEnded.observe(other()), Handshake::StreamEnded);
    assert_eq!(Handshake::ReadError.observe(Scan::Nothing), Handshake::ReadError);
    assert_eq!(Handshake::StreamEnded.observe(Scan::Refused), Handshake::StreamEnded);
}

#[test]
fn degenerate_empty_match_fails_the_build() {
    let state = Handshake::new().observe(Scan::Url(String::new()));
    assert!(state.is_terminal());
    let state = state.step(line("| https://later.example |\n"));
    let report = state.report();
    assert_eq!(report, Some(String::new()));
    let built = Tunnel::builder().build("cloudflared".to_string(), report);
    assert_eq!(built.unwrap_err(), TunnelError::NoUrl(UrlFault::Unusable));
}
