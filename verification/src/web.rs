//! The capture web service's decisions: which landing page variant a
//! visitor receives, what is recorded for a visit or a form submission,
//! and where each route's response goes.
//!
//! The service itself — the listener, the file reads and the appends — is
//! the unverified shell's concern; it consumes the decisions made here.

use vstd::prelude::*;
use crate::text::{contains_str, seq_contains};

verus! {

/// A submitted login form: an account under either field name, and a
/// password.
pub struct LoginForm {
    pub username: Option<String>,
    pub email: Option<String>,
    pub password: String,
}

/// Configuration of the capture web service.
pub struct Config {
    /// Where a visitor is sent after submitting the form.
    pub redirect_url: String,
}

/// A user agent that announces a hand-held device.
pub open spec fn spec_is_mobile(ua: Seq<char>) -> bool {
    seq_contains(ua, "Mobile"@) || seq_contains(ua, "Android"@) || seq_contains(ua, "iPhone"@)
}

/// Whether the user agent announces a hand-held device.
pub fn is_mobile(user_agent: &str) -> (r: bool)
    ensures
        r == spec_is_mobile(user_agent@),
{
    contains_str(user_agent, "Mobile") || contains_str(user_agent, "Android") || contains_str(
        user_agent,
        "iPhone",
    )
}

/// The landing page variant for a visitor: the mobile page exactly when
/// the user agent is mobile and that page is present, the desktop page
/// otherwise.
pub fn index_page(user_agent: &str, mobile_page_present: bool) -> (r: &'static str)
    ensures
        spec_is_mobile(user_agent@) && mobile_page_present ==> r@ == "mobile.html"@,
        !(spec_is_mobile(user_agent@) && mobile_page_present) ==> r@ == "login.html"@,
{
    if is_mobile(user_agent) && mobile_page_present {
        "mobile.html"
    } else {
        "login.html"
    }
}

/// The line recorded for a visit: the client address and its user agent.
pub fn ip_record(client_ip: &str, user_agent: &str) -> (r: String)
    ensures
        r@ == "IP: "@ + client_ip@ + "\nUser-Agent: "@ + user_agent@,
{
    String::from_str("IP: ").concat(client_ip).concat("\nUser-Agent: ").concat(user_agent)
}

/// The lines appended for one form submission: one account line for the
/// first present account-like field — the user name wins over the mail
/// address — and always one password line.
pub fn login_records(form: &LoginForm) -> (r: Vec<String>)
    ensures
        form.username matches Some(u) ==> (r@.len() == 2 && r@[0]@ == "Account: "@ + u@ && r@[1]@
            == "Password: "@ + form.password@),
        form.username is None ==> (form.email matches Some(e) ==> (r@.len() == 2 && r@[0]@
            == "Account: "@ + e@ && r@[1]@ == "Password: "@ + form.password@)),
        form.username is None && form.email is None ==> (r@.len() == 1 && r@[0]@ == "Password: "@
            + form.password@),
{
    let mut records: Vec<String> = Vec::new();
    match &form.username {
        Some(u) => {
            records.push(String::from_str("Account: ").concat(u.as_str()));
        },
        None => {
            match &form.email {
                Some(e) => {
                    records.push(String::from_str("Account: ").concat(e.as_str()));
                },
                None => {
                },
            }
        },
    }
    records.push(String::from_str("Password: ").concat(form.password.as_str()));
    records
}

/// What the service answers on one request.
pub enum RouteDecision {
    /// Serve this file from the site directory, marked not to be cached.
    ServeNoStore { file_name: String },
    /// Serve this file from the static site directory.
    ServeStatic { file_name: String },
    /// Redirect the client to `location`.
    Redirect { location: String },
    /// The resource does not exist.
    NotFound,
}

/// Answers the landing route: the page variant for the visitor's user
/// agent, served uncached so a stale capture page is never shown.
pub fn handle_index(user_agent: &str, mobile_page_present: bool) -> (r: RouteDecision)
    ensures
        r matches RouteDecision::ServeNoStore { file_name } && file_name@ == (if spec_is_mobile(
            user_agent@,
        ) && mobile_page_present {
            "mobile.html"@
        } else {
            "login.html"@
        }),
{
    RouteDecision::ServeNoStore { file_name: String::from_str(index_page(user_agent, mobile_page_present)) }
}

/// Answers the favicon route: the favicon file when it is present, served
/// uncached, and not-found otherwise.
pub fn handle_favicon(ext: &str, favicon_present: bool) -> (r: RouteDecision)
    ensures
        favicon_present ==> (r matches RouteDecision::ServeNoStore { file_name } && file_name@
            == "favicon."@ + ext@),
        !favicon_present ==> r is NotFound,
{
    if favicon_present {
        RouteDecision::ServeNoStore { file_name: String::from_str("favicon.").concat(ext) }
    } else {
        RouteDecision::NotFound
    }
}

/// Answers the form-submission route: the records to append and a
/// redirect to the configured post-submit URL.
pub fn handle_login(form: &LoginForm, config: &Config) -> (r: (Vec<String>, RouteDecision))
    ensures
        r.1 matches RouteDecision::Redirect { location } && location@ == config.redirect_url@,
        form.username matches Some(u) ==> (r.0@.len() == 2 && r.0@[0]@ == "Account: "@ + u@
            && r.0@[1]@ == "Password: "@ + form.password@),
        form.username is None ==> (form.email matches Some(e) ==> (r.0@.len() == 2 && r.0@[0]@
            == "Account: "@ + e@ && r.0@[1]@ == "Password: "@ + form.password@)),
        form.username is None && form.email is None ==> (r.0@.len() == 1 && r.0@[0]@
            == "Password: "@ + form.password@),
{
    let records = login_records(form);
    let redirect = RouteDecision::Redirect { location: config.redirect_url.clone() };
    (records, redirect)
}

/// Answers any other path: the file from the static site directory when it
/// exists, a redirect to the landing route otherwise.
pub fn handle_other(path: &str, file_present: bool) -> (r: RouteDecision)
    ensures
        file_present ==> (r matches RouteDecision::ServeStatic { file_name } && file_name@
            == path@),
        !file_present ==> (r matches RouteDecision::Redirect { location } && location@ == "/"@),
{
    if file_present {
        RouteDecision::ServeStatic { file_name: String::from_str(path) }
    } else {
        RouteDecision::Redirect { location: String::from_str("/") }
    }
}

} // verus!
