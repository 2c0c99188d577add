//! Tunnel launching and public-URL discovery.
//!
//! The helper process announces its assigned public URL somewhere in its
//! log output.  The URL's shape is fixed — the secure scheme, a subdomain
//! of lower-case letters, digits and dashes, and the tunnel domain — and
//! the scan for it is bounded: a session that never sees a URL within its
//! allowed number of polls fails instead of waiting forever.

use vstd::prelude::*;
use crate::errors::TerminalError;
use crate::menu::DEFAULT_PORT;
use crate::text::{dec_str, match_at, seq_contains, u16_to_string};

verus! {

/// A character allowed in the tunnel subdomain: a dash, a digit or a
/// lower-case letter.
pub open spec fn is_subdomain_char(c: char) -> bool {
    c == '-' || (c as u32 >= '0' as u32 && c as u32 <= '9' as u32) || (c as u32 >= 'a' as u32
        && c as u32 <= 'z' as u32)
}

/// A public tunnel URL: the secure scheme (eight characters), a subdomain
/// of allowed characters, and the tunnel domain (eighteen characters).
pub open spec fn is_tunnel_url(s: Seq<char>) -> bool {
    &&& s.len() >= 26
    &&& s.subrange(0, 8) == "https://"@
    &&& s.subrange(s.len() - 18, s.len() as int) == ".trycloudflare.com"@
    &&& forall|i: int| 8 <= i < s.len() - 18 ==> is_subdomain_char(#[trigger] s[i])
}

/// Some substring of `line` is a tunnel URL.
pub open spec fn line_has_tunnel_url(line: Seq<char>) -> bool {
    exists|i: int, n: int|
        0 <= i && 0 <= n && i + n <= line.len() && is_tunnel_url(#[trigger] line.subrange(i, i + n))
}

/// Relies on regex::Regex::find with the pattern
/// `https://[-0-9a-z]*\.trycloudflare\.com`: it returns a matching
/// substring of the line exactly when the line holds one.
#[verifier::external_body]
fn find_tunnel_url_in_line(line: &str) -> (r: Option<String>)
    ensures
        r is Some <==> line_has_tunnel_url(line@),
        r matches Some(u) ==> is_tunnel_url(u@) && seq_contains(line@, u@),
{
    let re = regex::Regex::new(r"https://[-0-9a-z]*\.trycloudflare\.com").unwrap();
    re.find(line).map(|m| m.as_str().to_owned())
}

/// Scans the tunnel helper's log lines for the announced public URL.  The
/// first line holding a tunnel URL yields one; when no line holds one,
/// discovery reports failure.
pub fn get_cldflr_url(lines: &Vec<String>) -> (r: Result<String, TerminalError>)
    ensures
        r is Ok <==> exists|k: int| 0 <= k < lines@.len() && line_has_tunnel_url(
            #[trigger] lines@[k]@,
        ),
        r matches Ok(u) ==> is_tunnel_url(u@) && exists|k: int|
            0 <= k < lines@.len() && seq_contains(#[trigger] lines@[k]@, u@),
        r matches Err(e) ==> e.spec_message() == "URL not found"@,
{
    let mut i: usize = 0;
    while i < lines.len()
        invariant
            0 <= i <= lines@.len(),
            forall|k: int| 0 <= k < i ==> !line_has_tunnel_url(#[trigger] lines@[k]@),
        decreases lines@.len() - i,
    {
        match find_tunnel_url_in_line(lines[i].as_str()) {
            Some(u) => {
                return Ok(u);
            },
            None => {
            },
        }
        i = i + 1;
    }
    Err(TerminalError::new("URL not found"))
}

/// The local address the tunnel helper is pointed at.
pub fn localhost_url(port: u16) -> (r: String)
    ensures
        r@ == "http://127.0.0.1:"@ + dec_str(port as int),
{
    String::from_str("http://127.0.0.1:").concat(u16_to_string(port).as_str())
}

/// The argument list the tunnel helper is spawned with: it runs a tunnel
/// pointed at the local port and writes its log to a known file.
pub fn cloudflared_args(port: u16) -> (r: Vec<String>)
    ensures
        r@.len() == 6,
        r@[0]@ == "tunnel"@,
        r@[1]@ == "run"@,
        r@[2]@ == "--url"@,
        r@[3]@ == "http://127.0.0.1:"@ + dec_str(port as int),
        r@[4]@ == "--logfile"@,
        r@[5]@ == ".cld.log"@,
{
    let mut args: Vec<String> = Vec::new();
    args.push(String::from_str("tunnel"));
    args.push(String::from_str("run"));
    args.push(String::from_str("--url"));
    args.push(localhost_url(port));
    args.push(String::from_str("--logfile"));
    args.push(String::from_str(".cld.log"));
    args
}

/// Where a tunnel session stands.
pub enum TunnelState {
    /// The helper is launched and its log has not yet shown a URL.
    UrlPending,
    /// The public URL was discovered: terminal success.
    Resolved(String),
    /// The allowed number of polls passed without a URL: failure.
    Failed,
}

/// One tunnel session: the local port the helper is bound to and the
/// bounded wait for its public URL.
pub struct TunnelSession {
    /// The local port the capture web service listens on.
    pub local_port: u16,
    /// Polls of the log made so far without a URL.
    pub attempts: u32,
    /// How many polls are allowed before the session fails.
    pub max_attempts: u32,
    /// Where the session stands.
    pub state: TunnelState,
}

impl TunnelSession {
    /// A session that is still waiting has polls left; a resolved session
    /// holds a well-formed tunnel URL.
    pub open spec fn wf(self) -> bool {
        &&& self.attempts <= self.max_attempts
        &&& (self.state is UrlPending ==> self.attempts < self.max_attempts)
        &&& (self.state matches TunnelState::Resolved(u) ==> is_tunnel_url(u@))
    }

    /// Opens a session: the helper was just launched and no poll has
    /// happened yet.
    pub fn launch(local_port: Option<u16>, max_attempts: u32) -> (s: TunnelSession)
        requires
            max_attempts >= 1,
        ensures
            s.wf(),
            s.state is UrlPending,
            s.attempts == 0,
            s.max_attempts == max_attempts,
            local_port matches Some(p) ==> s.local_port == p,
            local_port is None ==> s.local_port == DEFAULT_PORT,
    {
        let port = match local_port {
            Some(p) => p,
            None => DEFAULT_PORT,
        };
        TunnelSession {
            local_port: port,
            attempts: 0,
            max_attempts,
            state: TunnelState::UrlPending,
        }
    }

    /// The session after one poll that showed no URL: one more attempt is
    /// used up, and using the last one fails the session.
    pub open spec fn advance_without_url(self) -> TunnelSession {
        TunnelSession {
            attempts: (self.attempts + 1) as u32,
            state: if self.attempts + 1 == self.max_attempts {
                TunnelState::Failed
            } else {
                TunnelState::UrlPending
            },
            ..self
        }
    }

    /// Polls the helper's log once.  A log line holding a tunnel URL
    /// resolves the session with that URL; otherwise an attempt is used
    /// up, and exhausting them fails the session rather than waiting
    /// forever.
    pub fn poll(&mut self, log_lines: &Vec<String>)
        requires
            old(self).wf(),
            old(self).state is UrlPending,
        ensures
            final(self).wf(),
            final(self).local_port == old(self).local_port,
            final(self).max_attempts == old(self).max_attempts,
            (exists|k: int| 0 <= k < log_lines@.len() && line_has_tunnel_url(
                #[trigger] log_lines@[k]@,
            )) ==> (final(self).state matches TunnelState::Resolved(u) && is_tunnel_url(u@)
                && final(self).attempts == old(self).attempts && exists|k: int|
                0 <= k < log_lines@.len() && seq_contains(#[trigger] log_lines@[k]@, u@)),
            !(exists|k: int| 0 <= k < log_lines@.len() && line_has_tunnel_url(
                #[trigger] log_lines@[k]@,
            )) ==> *final(self) == old(self).advance_without_url(),
    {
        match get_cldflr_url(log_lines) {
            Ok(url) => {
                self.state = TunnelState::Resolved(url);
            },
            Err(_) => {
                self.attempts = self.attempts + 1;
                if self.attempts == self.max_attempts {
                    self.state = TunnelState::Failed;
                }
            },
        }
    }

    /// The session after `n` polls that showed no URL.
    pub open spec fn advance_n(self, n: nat) -> TunnelSession
        decreases n,
    {
        if n == 0 {
            self
        } else {
            self.advance_n((n - 1) as nat).advance_without_url()
        }
    }
}

/// A session that never sees a URL fails once its allowed polls are used
/// up: discovery reports failure instead of hanging.
pub proof fn lemma_discovery_bounded(s: TunnelSession)
    requires
        s.wf(),
        s.state is UrlPending,
    ensures
        s.advance_n((s.max_attempts - s.attempts) as nat).state is Failed,
{
    lemma_advance_n_counts(s, (s.max_attempts - s.attempts) as nat);
}

/// After `n` fruitless polls within the bound, the attempt count has grown
/// by `n` and the session is pending until, exactly at the bound, it
/// fails.
proof fn lemma_advance_n_counts(s: TunnelSession, n: nat)
    requires
        s.wf(),
        s.state is UrlPending,
        s.attempts + n <= s.max_attempts,
    ensures
        s.advance_n(n).attempts == s.attempts + n,
        s.advance_n(n).max_attempts == s.max_attempts,
        n > 0 && s.attempts + n == s.max_attempts ==> s.advance_n(n).state is Failed,
        s.attempts + n < s.max_attempts ==> s.advance_n(n).state is UrlPending,
    decreases n,
{
    if n > 0 {
        lemma_advance_n_counts(s, (n - 1) as nat);
    }
}

} // verus!
