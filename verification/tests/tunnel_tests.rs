use haxrs::tunnel::{cloudflared_args, get_cldflr_url, localhost_url, TunnelSession, TunnelState};

fn lines(v: &[&str]) -> Vec<String> {
    v.iter().map(|s| s.to_string()).collect()
}

#[test]
fn discovery_finds_embedded_url() {
    let log = lines(&[
        "2023-06-01 INF Starting tunnel",
        "2023-06-01 INF +--------------------------------------------+",
        "2023-06-01 INF |  https://abc-def.trycloudflare.com  |",
        "2023-06-01 INF Connection registered",
    ]);
    assert_eq!(get_cldflr_url(&log).unwrap(), "https://abc-def.trycloudflare.com");
}

#[test]
fn discovery_reports_failure_without_match() {
    let log = lines(&[
        "2023-06-01 INF Starting tunnel",
        "visit https://example.com for details",
        "https://nearly.trycloudflare.org is not it",
    ]);
    let e = get_cldflr_url(&log).unwrap_err();
    assert_eq!(e.message(), "URL not found");
}

#[test]
fn discovery_takes_first_matching_line() {
    let log = lines(&[
        "noise",
        "https://first-one.trycloudflare.com",
        "https://second-one.trycloudflare.com",
    ]);
    assert_eq!(get_cldflr_url(&log).unwrap(), "https://first-one.trycloudflare.com");
}

#[test]
fn local_address_and_helper_arguments() {
    assert_eq!(localhost_url(8080), "http://127.0.0.1:8080");
    assert_eq!(localhost_url(1024), "http://127.0.0.1:1024");
    let args = cloudflared_args(4567);
    assert_eq!(
        args,
        vec!["tunnel", "run", "--url", "http://127.0.0.1:4567", "--logfile", ".cld.log"]
    );
}

#[test]
fn session_resolves_when_log_shows_url() {
    let mut session = TunnelSession::launch(Some(4567), 10);
    assert_eq!(session.local_port, 4567);
    let log = lines(&["negotiating", "https://quick-win.trycloudflare.com ready"]);
    session.poll(&log);
    match session.state {
        TunnelState::Resolved(url) => assert_eq!(url, "https://quick-win.trycloudflare.com"),
        _ => panic!("expected the session to resolve"),
    }
}

#[test]
fn session_fails_after_bounded_wait() {
    let mut session = TunnelSession::launch(None, 3);
    assert_eq!(session.local_port, 8080);
    let log = lines(&["still negotiating"]);
    session.poll(&log);
    assert!(matches!(session.state, TunnelState::UrlPending));
    session.poll(&log);
    assert!(matches!(session.state, TunnelState::UrlPending));
    session.poll(&log);
    assert!(matches!(session.state, TunnelState::Failed));
    assert_eq!(session.attempts, 3);
}
