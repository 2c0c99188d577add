use haxrs::capture::{capture_value, extract_creds, extract_ip};

fn lines(v: &[&str]) -> Vec<String> {
    v.iter().map(|s| s.to_string()).collect()
}

#[test]
fn visitor_address_extracted_and_trimmed() {
    assert_eq!(extract_ip("IP: 203.0.113.9").unwrap(), "203.0.113.9");
    assert_eq!(extract_ip("prefix IP:  203.0.113.9  ").unwrap(), "203.0.113.9");
    assert_eq!(extract_ip("IP: 203.0.113.9\nUser-Agent: curl").unwrap(), "203.0.113.9\nUser-Agent: curl");
}

#[test]
fn line_without_marker_holds_no_address() {
    assert!(extract_ip("User-Agent: curl/8.0").is_none());
    assert!(extract_ip("").is_none());
}

#[test]
fn capture_takes_token_after_marker() {
    assert_eq!(capture_value("Username:  bob rest", "Username:"), "bob");
    assert_eq!(capture_value("Pass: hunter2", "Pass:"), "hunter2");
    assert_eq!(capture_value("Username:", "Username:"), "");
    assert_eq!(capture_value("no marker here", "Username:"), "");
}

#[test]
fn credentials_from_recorded_lines() {
    let log = lines(&["Username: alice", "Pass: s3cret"]);
    let (account, password) = extract_creds(&log);
    assert_eq!(account, "alice");
    assert_eq!(password, "s3cret");
}

#[test]
fn first_non_empty_capture_wins() {
    let log = lines(&[
        "Username:",
        "Username: first",
        "Username: second",
        "Pass: ",
        "Pass: one",
        "Pass: two",
    ]);
    let (account, password) = extract_creds(&log);
    assert_eq!(account, "first");
    assert_eq!(password, "one");
}

#[test]
fn missing_markers_leave_values_empty() {
    let log = lines(&["nothing", "to", "see"]);
    let (account, password) = extract_creds(&log);
    assert_eq!(account, "");
    assert_eq!(password, "");
}
