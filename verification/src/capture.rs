//! Parsing of the capture store's semi-structured lines: the visitor
//! address recorded by the landing page, and the submitted account and
//! password recorded by the form handler.
//!
//! Reading and appending the files stays in the unverified shell; what a
//! line means is decided, and specified, here.

use vstd::prelude::*;
use crate::text::{
    find_str,
    first_match_index,
    is_space_char,
    is_space_exec,
    leading_token,
    lemma_first_match_works,
    lemma_leading_token_take,
    lemma_trim_front_skip,
    seq_contains,
    trim_front,
    trim_seq,
    trim_str,
};

verus! {

broadcast use
    vstd::seq_lib::lemma_seq_skip_index,
    vstd::seq_lib::lemma_seq_take_index,
    vstd::seq_lib::lemma_seq_skip_len,
    vstd::seq_lib::lemma_seq_take_len;

/// Extracts the visitor address from a recorded line: everything after
/// the first address marker, trimmed of surrounding whitespace.  A line
/// without the marker holds no address.
pub fn extract_ip(line: &str) -> (r: Option<String>)
    ensures
        r is Some <==> seq_contains(line@, "IP: "@),
        r matches Some(ip) ==> ip@ == trim_seq(
            line@.skip(first_match_index(line@, "IP: "@) + "IP: "@.len()),
        ),
{
    proof {
        reveal_strlit("IP: ");
        assert("IP: "@.len() == 4);
    }
    match find_str(line, "IP: ") {
        None => None,
        Some(i) => {
            proof {
                lemma_first_match_works(line@, "IP: "@, i as int);
            }
            let l = line.unicode_len();
            let rest = line.substring_char(i + 4, l);
            proof {
                assert(rest@ =~= line@.skip(i + 4));
            }
            Some(String::from_str(trim_str(rest)))
        },
    }
}

/// What the account or password marker captures in one line: after the
/// first occurrence of `key`, whitespace is skipped and the following run
/// of non-whitespace characters is taken.  A line without the marker
/// captures nothing.
pub open spec fn capture_after(line: Seq<char>, key: Seq<char>) -> Seq<char> {
    if seq_contains(line, key) {
        leading_token(trim_front(line.skip(first_match_index(line, key) + key.len())))
    } else {
        Seq::empty()
    }
}

/// Captures the value after the first occurrence of `key` in `line`.
pub fn capture_value(line: &str, key: &str) -> (r: String)
    ensures
        r@ == capture_after(line@, key@),
{
    let kl = key.unicode_len();
    match find_str(line, key) {
        None => String::new(),
        Some(i) => {
            proof {
                lemma_first_match_works(line@, key@, i as int);
            }
            let l = line.unicode_len();
            let mut a: usize = i + kl;
            while a < l && is_space_exec(line.get_char(a))
                invariant
                    l == line@.len(),
                    i + kl <= a <= l,
                    forall|k: int| i + kl <= k < a ==> is_space_char(#[trigger] line@[k]),
                decreases l - a,
            {
                a = a + 1;
            }
            let mut b: usize = a;
            while b < l && !is_space_exec(line.get_char(b))
                invariant
                    l == line@.len(),
                    a <= b <= l,
                    forall|k: int| a <= k < b ==> !is_space_char(#[trigger] line@[k]),
                decreases l - b,
            {
                b = b + 1;
            }
            let token = line.substring_char(a, b);
            proof {
                let rest = line@.skip(i + kl);
                assert forall|k: int| 0 <= k < a - i - kl implies is_space_char(
                    #[trigger] rest[k],
                ) by {
                    assert(rest[k] == line@[k + i + kl]);
                }
                lemma_trim_front_skip(rest, a - i - kl);
                let t = trim_front(rest);
                assert(t =~= line@.skip(a as int));
                assert forall|k: int| 0 <= k < b - a implies !is_space_char(#[trigger] t[k]) by {
                    assert(t[k] == line@[k + a]);
                }
                if b < l {
                    assert(t[b - a] == line@[b as int]);
                    assert(is_space_char(t[b - a]));
                }
                lemma_leading_token_take(t, b - a);
                assert(t.take(b - a) =~= line@.subrange(a as int, b as int));
                assert(token@ == capture_after(line@, key@));
            }
            String::from_str(token)
        },
    }
}

/// The views of a list of lines.
pub open spec fn line_views(lines: Seq<String>) -> Seq<Seq<char>> {
    Seq::new(lines.len(), |i: int| lines[i]@)
}

/// The first non-empty capture for `key` over the lines, in order; empty
/// when no line captures anything.
pub open spec fn first_nonempty_capture(lines: Seq<Seq<char>>, key: Seq<char>) -> Seq<char>
    decreases lines.len(),
{
    if lines.len() == 0 {
        Seq::empty()
    } else if capture_after(lines[0], key).len() > 0 {
        capture_after(lines[0], key)
    } else {
        first_nonempty_capture(lines.skip(1), key)
    }
}

/// Skipping a line that captures nothing does not change the result.
proof fn lemma_capture_skip_step(all: Seq<Seq<char>>, key: Seq<char>, i: int)
    requires
        0 <= i < all.len(),
        capture_after(all[i], key).len() == 0,
    ensures
        first_nonempty_capture(all.skip(i), key) == first_nonempty_capture(all.skip(i + 1), key),
{
    assert(all.skip(i)[0] == all[i]);
    assert(all.skip(i).skip(1) =~= all.skip(i + 1));
}

/// A line that captures something ends the scan with its capture.
proof fn lemma_capture_found_step(all: Seq<Seq<char>>, key: Seq<char>, i: int)
    requires
        0 <= i < all.len(),
        capture_after(all[i], key).len() > 0,
    ensures
        first_nonempty_capture(all.skip(i), key) == capture_after(all[i], key),
{
    assert(all.skip(i)[0] == all[i]);
}

/// Extracts the submitted account and password from the recorded lines:
/// each is the first non-empty capture after its marker, scanning the
/// lines in order, and stays empty when no line yields one.
pub fn extract_creds(lines: &Vec<String>) -> (r: (String, String))
    ensures
        r.0@ == first_nonempty_capture(line_views(lines@), "Username:"@),
        r.1@ == first_nonempty_capture(line_views(lines@), "Pass:"@),
{
    let ghost all = line_views(lines@);
    proof {
        assert(all.skip(0) =~= all);
    }
    let mut account = String::new();
    let mut password = String::new();
    let mut i: usize = 0;
    while i < lines.len() && (account.as_str().unicode_len() == 0 || password.as_str().unicode_len()
        == 0)
        invariant
            0 <= i <= lines@.len(),
            all == line_views(lines@),
            account@.len() > 0 ==> account@ == first_nonempty_capture(all, "Username:"@),
            account@.len() == 0 ==> first_nonempty_capture(all, "Username:"@)
                == first_nonempty_capture(all.skip(i as int), "Username:"@),
            password@.len() > 0 ==> password@ == first_nonempty_capture(all, "Pass:"@),
            password@.len() == 0 ==> first_nonempty_capture(all, "Pass:"@)
                == first_nonempty_capture(all.skip(i as int), "Pass:"@),
        decreases lines@.len() - i,
    {
        proof {
            assert(all[i as int] == lines@[i as int]@);
        }
        if account.as_str().unicode_len() == 0 {
            let c = capture_value(lines[i].as_str(), "Username:");
            if c.as_str().unicode_len() > 0 {
                proof {
                    lemma_capture_found_step(all, "Username:"@, i as int);
                }
                account = c;
            } else {
                proof {
                    lemma_capture_skip_step(all, "Username:"@, i as int);
                }
            }
        }
        if password.as_str().unicode_len() == 0 {
            let c = capture_value(lines[i].as_str(), "Pass:");
            if c.as_str().unicode_len() > 0 {
                proof {
                    lemma_capture_found_step(all, "Pass:"@, i as int);
                }
                password = c;
            } else {
                proof {
                    lemma_capture_skip_step(all, "Pass:"@, i as int);
                }
            }
        }
        i = i + 1;
    }
    proof {
        if account@.len() == 0 {
            lemma_capture_of_nothing(all, "Username:"@, i as int);
            assert(account@ =~= first_nonempty_capture(all, "Username:"@));
        }
        if password@.len() == 0 {
            lemma_capture_of_nothing(all, "Pass:"@, i as int);
            assert(password@ =~= first_nonempty_capture(all, "Pass:"@));
        }
    }
    (account, password)
}

/// Past the last line there is nothing left to capture.
proof fn lemma_capture_of_nothing(all: Seq<Seq<char>>, key: Seq<char>, i: int)
    requires
        i == all.len(),
    ensures
        first_nonempty_capture(all.skip(i), key) == Seq::<char>::empty(),
{
    assert(all.skip(i).len() == 0);
}

} // verus!
