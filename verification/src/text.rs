//! Verified character and string utilities.
//!
//! Substring containment, prefix tests, decimal parsing and decimal
//! formatting, and whitespace trimming, each specified over `Seq<char>`
//! views.

use vstd::prelude::*;

verus! {

// ---------------------------------------------------------------------------
// Substring containment
// ---------------------------------------------------------------------------

/// The needle `n` occurs in `h` starting at position `i`.
pub open spec fn match_at(h: Seq<char>, n: Seq<char>, i: int) -> bool {
    0 <= i && i + n.len() <= h.len() && h.subrange(i, i + n.len() as int) == n
}

/// The needle `n` occurs somewhere in `h`.
pub open spec fn seq_contains(h: Seq<char>, n: Seq<char>) -> bool {
    exists|i: int| match_at(h, n, i)
}

/// Compares `n` against the characters of `h` starting at `i`.
fn matches_at(h: &str, n: &str, i: usize) -> (r: bool)
    requires
        i + n@.len() <= h@.len(),
    ensures
        r == match_at(h@, n@, i as int),
{
    let nl: usize = n.unicode_len();
    let hl: usize = h.unicode_len();
    let mut j: usize = 0;
    while j < nl
        invariant
            nl == n@.len(),
            hl == h@.len(),
            i + nl <= hl,
            0 <= j <= nl,
            forall|k: int| 0 <= k < j ==> h@[i + k] == n@[k],
        decreases nl - j,
    {
        if h.get_char(i + j) != n.get_char(j) {
            assert(h@.subrange(i as int, i + n@.len())[j as int] != n@[j as int]);
            return false;
        }
        j = j + 1;
    }
    assert(h@.subrange(i as int, i + n@.len()) =~= n@);
    true
}

/// Whether `h` contains `n` as a contiguous substring.
pub fn contains_str(h: &str, n: &str) -> (r: bool)
    ensures
        r == seq_contains(h@, n@),
{
    let hl: usize = h.unicode_len();
    let nl: usize = n.unicode_len();
    if nl == 0 {
        assert(h@.subrange(0, 0) =~= n@);
        assert(match_at(h@, n@, 0));
        return true;
    }
    if nl > hl {
        assert(forall|i: int| !match_at(h@, n@, i));
        return false;
    }
    let mut i: usize = 0;
    while i <= hl - nl
        invariant
            hl == h@.len(),
            nl == n@.len(),
            0 < nl <= hl,
            0 <= i <= hl - nl + 1,
            forall|k: int| 0 <= k < i ==> !match_at(h@, n@, k),
        decreases hl + 1 - nl - i,
    {
        if matches_at(h, n, i) {
            return true;
        }
        i = i + 1;
    }
    assert forall|k: int| !match_at(h@, n@, k) by {
        if 0 <= k && k + n@.len() <= h@.len() {
            assert(k < i);
        }
    }
    false
}

/// Finds the first occurrence of `n` in `h`.
pub fn find_str(h: &str, n: &str) -> (r: Option<usize>)
    ensures
        match r {
            Some(i) => match_at(h@, n@, i as int) && forall|k: int|
                0 <= k < i ==> !match_at(h@, n@, k),
            None => !seq_contains(h@, n@),
        },
{
    let hl: usize = h.unicode_len();
    let nl: usize = n.unicode_len();
    if nl == 0 {
        assert(h@.subrange(0, 0) =~= n@);
        assert(match_at(h@, n@, 0));
        return Some(0);
    }
    if nl > hl {
        assert(forall|i: int| !match_at(h@, n@, i));
        return None;
    }
    let mut i: usize = 0;
    while i <= hl - nl
        invariant
            hl == h@.len(),
            nl == n@.len(),
            0 < nl <= hl,
            0 <= i <= hl - nl + 1,
            forall|k: int| 0 <= k < i ==> !match_at(h@, n@, k),
        decreases hl + 1 - nl - i,
    {
        if matches_at(h, n, i) {
            return Some(i);
        }
        i = i + 1;
    }
    assert forall|k: int| !match_at(h@, n@, k) by {
        if 0 <= k && k + n@.len() <= h@.len() {
            assert(k < i);
        }
    }
    None
}

/// `s` ends with the characters of `n`.
pub open spec fn has_suffix(s: Seq<char>, n: Seq<char>) -> bool {
    n.len() <= s.len() && s.subrange(s.len() - n.len(), s.len() as int) == n
}

/// Whether `h` ends with `n`.
pub fn ends_with_str(h: &str, n: &str) -> (r: bool)
    ensures
        r == has_suffix(h@, n@),
{
    let hl: usize = h.unicode_len();
    let nl: usize = n.unicode_len();
    if nl > hl {
        return false;
    }
    matches_at(h, n, hl - nl)
}

/// Whether two string slices hold the same characters.
pub fn eq_str(a: &str, b: &str) -> (r: bool)
    ensures
        r == (a@ == b@),
{
    let al: usize = a.unicode_len();
    let bl: usize = b.unicode_len();
    if al != bl {
        return false;
    }
    let r = matches_at(a, b, 0);
    proof {
        assert(a@.subrange(0, a@.len() as int) =~= a@);
    }
    r
}

/// `s` holds the character `c`.
pub open spec fn has_char(s: Seq<char>, c: char) -> bool {
    exists|i: int| 0 <= i < s.len() && s[i] == c
}

/// Whether `s` holds the character `c`.
pub fn contains_char(s: &str, c: char) -> (r: bool)
    ensures
        r == has_char(s@, c),
{
    let l: usize = s.unicode_len();
    let mut i: usize = 0;
    while i < l
        invariant
            l == s@.len(),
            0 <= i <= l,
            forall|k: int| 0 <= k < i ==> s@[k] != c,
        decreases l - i,
    {
        if s.get_char(i) == c {
            return true;
        }
        i = i + 1;
    }
    false
}

// ---------------------------------------------------------------------------
// Last-separator segments
// ---------------------------------------------------------------------------

/// The suffix of `s` after the last occurrence of `sep` (all of `s` when
/// `sep` does not occur).
pub open spec fn last_segment(s: Seq<char>, sep: char) -> Seq<char>
    decreases s.len(),
{
    if s.len() == 0 {
        s
    } else if s.last() == sep {
        Seq::empty()
    } else {
        last_segment(s.drop_last(), sep).push(s.last())
    }
}

/// When every character from `j` on differs from `sep` and the character
/// before `j` (if any) is `sep`, the last segment is the suffix from `j`.
proof fn lemma_last_segment_skip(s: Seq<char>, sep: char, j: int)
    requires
        0 <= j <= s.len(),
        forall|k: int| j <= k < s.len() ==> s[k] != sep,
        j > 0 ==> s[j - 1] == sep,
    ensures
        last_segment(s, sep) =~= s.skip(j),
    decreases s.len(),
{
    if s.len() > j {
        assert(s.last() != sep);
        lemma_last_segment_skip(s.drop_last(), sep, j);
        assert(s.drop_last().skip(j).push(s.last()) =~= s.skip(j));
    } else {
        if j > 0 {
            assert(s.last() == sep);
        }
    }
}

/// The suffix of `s` after its last occurrence of `sep`.
pub fn after_last(s: &str, sep: char) -> (r: &str)
    ensures
        r@ == last_segment(s@, sep),
{
    let l: usize = s.unicode_len();
    let mut j: usize = l;
    while j > 0 && s.get_char(j - 1) != sep
        invariant
            l == s@.len(),
            0 <= j <= l,
            forall|k: int| j <= k < l ==> s@[k] != sep,
        decreases j,
    {
        j = j - 1;
    }
    proof {
        lemma_last_segment_skip(s@, sep, j as int);
    }
    s.substring_char(j, l)
}

// ---------------------------------------------------------------------------
// Decimal parsing
// ---------------------------------------------------------------------------

/// Whether `c` is an ASCII decimal digit.
pub open spec fn is_digit_char(c: char) -> bool {
    c == '0' || c == '1' || c == '2' || c == '3' || c == '4' || c == '5' || c == '6' || c == '7'
        || c == '8' || c == '9'
}

/// The numeric value of an ASCII decimal digit (0 for other characters).
pub open spec fn digit_value(c: char) -> int {
    if c == '1' {
        1
    } else if c == '2' {
        2
    } else if c == '3' {
        3
    } else if c == '4' {
        4
    } else if c == '5' {
        5
    } else if c == '6' {
        6
    } else if c == '7' {
        7
    } else if c == '8' {
        8
    } else if c == '9' {
        9
    } else {
        0
    }
}

/// All characters of `s` are ASCII decimal digits.
pub open spec fn all_digits(s: Seq<char>) -> bool {
    forall|i: int| 0 <= i < s.len() ==> is_digit_char(#[trigger] s[i])
}

/// The value of a sequence of decimal digits, most significant first.
pub open spec fn digits_value(s: Seq<char>) -> int
    decreases s.len(),
{
    if s.len() == 0 {
        0
    } else {
        digits_value(s.drop_last()) * 10 + digit_value(s.last())
    }
}

/// `s` without a single leading `'+'` sign, if it carries one.
pub open spec fn strip_plus(s: Seq<char>) -> Seq<char> {
    if s.len() > 0 && s[0] == '+' {
        s.skip(1)
    } else {
        s
    }
}

/// The digit value of every digit sequence is non-negative.
proof fn lemma_digits_value_nonneg(s: Seq<char>)
    ensures
        digits_value(s) >= 0,
    decreases s.len(),
{
    if s.len() > 0 {
        lemma_digits_value_nonneg(s.drop_last());
    }
}

/// Extending a digit prefix by one digit multiplies its value by ten.
proof fn lemma_digits_value_step(s: Seq<char>, i: int)
    requires
        0 <= i < s.len(),
    ensures
        digits_value(s.take(i + 1)) == digits_value(s.take(i)) * 10 + digit_value(s[i]),
{
    assert(s.take(i + 1).drop_last() =~= s.take(i));
    assert(s.take(i + 1).last() == s[i]);
}

/// The value of a digit prefix never exceeds the value of the whole.
proof fn lemma_digits_value_prefix_le(s: Seq<char>, i: int)
    requires
        0 <= i <= s.len(),
    ensures
        digits_value(s.take(i)) <= digits_value(s),
    decreases s.len() - i,
{
    if i < s.len() {
        lemma_digits_value_step(s, i);
        lemma_digits_value_nonneg(s.take(i));
        lemma_digits_value_prefix_le(s, i + 1);
    } else {
        assert(s.take(i) =~= s);
    }
}

/// The numeric value of `c`, when `c` is a decimal digit.
fn digit_of(c: char) -> (r: Option<u8>)
    ensures
        r is Some <==> is_digit_char(c),
        r matches Some(v) ==> v as int == digit_value(c) && v <= 9,
{
    match c {
        '0' => Some(0),
        '1' => Some(1),
        '2' => Some(2),
        '3' => Some(3),
        '4' => Some(4),
        '5' => Some(5),
        '6' => Some(6),
        '7' => Some(7),
        '8' => Some(8),
        '9' => Some(9),
        _ => None,
    }
}

/// `s` denotes a decimal number that fits in sixteen bits: an optional
/// leading `'+'`, then one or more digits, with value at most `u16::MAX`.
pub open spec fn is_dec_u16(s: Seq<char>) -> bool {
    let d = strip_plus(s);
    d.len() > 0 && all_digits(d) && digits_value(d) <= u16::MAX
}

/// `s` denotes a decimal number that fits in thirty-two bits.
pub open spec fn is_dec_u32(s: Seq<char>) -> bool {
    let d = strip_plus(s);
    d.len() > 0 && all_digits(d) && digits_value(d) <= u32::MAX
}

/// Parses `s` as a decimal sixteen-bit number, accepting an optional
/// leading `'+'`, exactly as the standard unsigned integer parser does.
pub fn parse_u16(s: &str) -> (r: Option<u16>)
    ensures
        r is Some <==> is_dec_u16(s@),
        r matches Some(v) ==> v as int == digits_value(strip_plus(s@)),
{
    let l: usize = s.unicode_len();
    let start: usize = if l > 0 && s.get_char(0) == '+' {
        1
    } else {
        0
    };
    let ghost d: Seq<char> = strip_plus(s@);
    proof {
        assert(d =~= s@.subrange(start as int, l as int));
    }
    if start == l {
        return None;
    }
    let mut acc: u32 = 0;
    let mut j: usize = start;
    while j < l
        invariant
            l == s@.len(),
            start <= j <= l,
            start < l,
            start <= 1,
            d == strip_plus(s@),
            d =~= s@.subrange(start as int, l as int),
            acc <= u16::MAX,
            all_digits(d.take(j - start)),
            acc as int == digits_value(d.take(j - start)),
        decreases l - j,
    {
        let c = s.get_char(j);
        assert(d[j - start] == s@[j as int]);
        match digit_of(c) {
            None => {
                assert(!all_digits(d));
                return None;
            },
            Some(v) => {
                proof {
                    lemma_digits_value_step(d, j - start);
                }
                let next: u32 = acc * 10 + (v as u32);
                if next > 65535 {
                    proof {
                        lemma_digits_value_prefix_le(d, j - start + 1);
                    }
                    assert(digits_value(d) > u16::MAX);
                    return None;
                }
                acc = next;
            },
        }
        j = j + 1;
    }
    assert(d.take(l - start) =~= d);
    Some(acc as u16)
}

/// Parses `s` as a decimal thirty-two-bit number, accepting an optional
/// leading `'+'`.
pub fn parse_u32(s: &str) -> (r: Option<u32>)
    ensures
        r is Some <==> is_dec_u32(s@),
        r matches Some(v) ==> v as int == digits_value(strip_plus(s@)),
{
    let l: usize = s.unicode_len();
    let start: usize = if l > 0 && s.get_char(0) == '+' {
        1
    } else {
        0
    };
    let ghost d: Seq<char> = strip_plus(s@);
    proof {
        assert(d =~= s@.subrange(start as int, l as int));
    }
    if start == l {
        return None;
    }
    let mut acc: u64 = 0;
    let mut j: usize = start;
    while j < l
        invariant
            l == s@.len(),
            start <= j <= l,
            start < l,
            start <= 1,
            d == strip_plus(s@),
            d =~= s@.subrange(start as int, l as int),
            acc <= u32::MAX,
            all_digits(d.take(j - start)),
            acc as int == digits_value(d.take(j - start)),
        decreases l - j,
    {
        let c = s.get_char(j);
        assert(d[j - start] == s@[j as int]);
        match digit_of(c) {
            None => {
                assert(!all_digits(d));
                return None;
            },
            Some(v) => {
                proof {
                    lemma_digits_value_step(d, j - start);
                }
                let next: u64 = acc * 10 + (v as u64);
                if next > 0xffff_ffff {
                    proof {
                        lemma_digits_value_prefix_le(d, j - start + 1);
                    }
                    assert(digits_value(d) > u32::MAX);
                    return None;
                }
                acc = next;
            },
        }
        j = j + 1;
    }
    assert(d.take(l - start) =~= d);
    Some(acc as u32)
}

// ---------------------------------------------------------------------------
// Decimal formatting
// ---------------------------------------------------------------------------

/// The ASCII digit character for the value `d`.
pub open spec fn digit_char(d: int) -> char {
    if d == 1 {
        '1'
    } else if d == 2 {
        '2'
    } else if d == 3 {
        '3'
    } else if d == 4 {
        '4'
    } else if d == 5 {
        '5'
    } else if d == 6 {
        '6'
    } else if d == 7 {
        '7'
    } else if d == 8 {
        '8'
    } else if d == 9 {
        '9'
    } else {
        '0'
    }
}

/// The decimal rendering of a non-negative number, most significant digit
/// first, without leading zeros (`0` itself renders as `"0"`).
pub open spec fn dec_str(n: int) -> Seq<char>
    decreases n,
{
    if n < 10 {
        seq![digit_char(n)]
    } else {
        dec_str(n / 10).push(digit_char(n % 10))
    }
}

/// The single-character string for a digit value.
fn digit_str(d: u16) -> (r: &'static str)
    requires
        d <= 9,
    ensures
        r@ =~= seq![digit_char(d as int)],
{
    match d {
        0 => {
            proof {
                reveal_strlit("0");
            }
            "0"
        },
        1 => {
            proof {
                reveal_strlit("1");
            }
            "1"
        },
        2 => {
            proof {
                reveal_strlit("2");
            }
            "2"
        },
        3 => {
            proof {
                reveal_strlit("3");
            }
            "3"
        },
        4 => {
            proof {
                reveal_strlit("4");
            }
            "4"
        },
        5 => {
            proof {
                reveal_strlit("5");
            }
            "5"
        },
        6 => {
            proof {
                reveal_strlit("6");
            }
            "6"
        },
        7 => {
            proof {
                reveal_strlit("7");
            }
            "7"
        },
        8 => {
            proof {
                reveal_strlit("8");
            }
            "8"
        },
        _ => {
            proof {
                reveal_strlit("9");
            }
            "9"
        },
    }
}

/// Renders `n` in decimal.
pub fn u16_to_string(n: u16) -> (r: String)
    ensures
        r@ == dec_str(n as int),
    decreases n,
{
    if n < 10 {
        String::from_str(digit_str(n))
    } else {
        let prefix = u16_to_string(n / 10);
        prefix.concat(digit_str(n % 10))
    }
}

// ---------------------------------------------------------------------------
// First occurrences and leading tokens
// ---------------------------------------------------------------------------

/// `i` is the position of the first occurrence of `n` in `h`.
pub open spec fn is_first_match_at(h: Seq<char>, n: Seq<char>, i: int) -> bool {
    match_at(h, n, i) && forall|k: int| 0 <= k < i ==> !match_at(h, n, k)
}

/// The position of the first occurrence of `n` in `h` (meaningful only
/// when `h` contains `n`).
pub open spec fn first_match_index(h: Seq<char>, n: Seq<char>) -> int {
    choose|i: int| is_first_match_at(h, n, i)
}

/// A contained needle has a first occurrence, and only one.
pub proof fn lemma_first_match_works(h: Seq<char>, n: Seq<char>, i: int)
    requires
        is_first_match_at(h, n, i),
    ensures
        first_match_index(h, n) == i,
{
    let j = first_match_index(h, n);
    assert(is_first_match_at(h, n, j));
    if i < j {
        assert(match_at(h, n, i));
    } else if j < i {
        assert(match_at(h, n, j));
    }
}

/// The run of characters at the front of `s` up to, and not including,
/// its first whitespace character.
pub open spec fn leading_token(s: Seq<char>) -> Seq<char>
    decreases s.len(),
{
    if s.len() > 0 && !is_space_char(s[0]) {
        seq![s[0]] + leading_token(s.skip(1))
    } else {
        Seq::empty()
    }
}

/// When the first `b` characters are non-whitespace and the next one (if
/// any) is whitespace, the leading token is exactly those characters.
pub proof fn lemma_leading_token_take(s: Seq<char>, b: int)
    requires
        0 <= b <= s.len(),
        forall|k: int| 0 <= k < b ==> !is_space_char(#[trigger] s[k]),
        b < s.len() ==> is_space_char(s[b]),
    ensures
        leading_token(s) =~= s.take(b),
    decreases b,
{
    if b > 0 {
        assert(!is_space_char(s[0]));
        lemma_leading_token_take(s.skip(1), b - 1);
        assert(s.skip(1).take(b - 1) =~= s.take(b).skip(1));
        assert(leading_token(s) =~= seq![s[0]] + s.skip(1).take(b - 1));
    } else {
        if s.len() > 0 {
            assert(is_space_char(s[0]));
        }
    }
}

// ---------------------------------------------------------------------------
// Whitespace trimming
// ---------------------------------------------------------------------------

/// Whether `c` is an ASCII whitespace character.
pub open spec fn is_space_char(c: char) -> bool {
    c == ' ' || c == '\t' || c == '\r' || c == '\n'
}

/// `s` with leading ASCII whitespace removed.
pub open spec fn trim_front(s: Seq<char>) -> Seq<char>
    decreases s.len(),
{
    if s.len() > 0 && is_space_char(s[0]) {
        trim_front(s.skip(1))
    } else {
        s
    }
}

/// `s` with trailing ASCII whitespace removed.
pub open spec fn trim_back(s: Seq<char>) -> Seq<char>
    decreases s.len(),
{
    if s.len() > 0 && is_space_char(s.last()) {
        trim_back(s.drop_last())
    } else {
        s
    }
}

/// `s` with leading and trailing ASCII whitespace removed.
pub open spec fn trim_seq(s: Seq<char>) -> Seq<char> {
    trim_back(trim_front(s))
}

/// A run of leading spaces makes `trim_front` skip exactly that run.
pub proof fn lemma_trim_front_skip(s: Seq<char>, a: int)
    requires
        0 <= a <= s.len(),
        forall|k: int| 0 <= k < a ==> is_space_char(#[trigger] s[k]),
        a < s.len() ==> !is_space_char(s[a]),
    ensures
        trim_front(s) =~= s.skip(a),
    decreases a,
{
    if a > 0 {
        assert(is_space_char(s[0]));
        lemma_trim_front_skip(s.skip(1), a - 1);
        assert(trim_front(s) == trim_front(s.skip(1)));
        assert(s.skip(1).skip(a - 1) =~= s.skip(a));
    } else {
        if s.len() > 0 {
            assert(!is_space_char(s[0]));
        }
    }
}

/// A run of trailing spaces makes `trim_back` drop exactly that run.
proof fn lemma_trim_back_take(s: Seq<char>, b: int)
    requires
        0 <= b <= s.len(),
        forall|k: int| b <= k < s.len() ==> is_space_char(#[trigger] s[k]),
        b > 0 ==> !is_space_char(s[b - 1]),
    ensures
        trim_back(s) =~= s.take(b),
    decreases s.len() - b,
{
    if b < s.len() {
        assert(is_space_char(s.last()));
        lemma_trim_back_take(s.drop_last(), b);
        assert(trim_back(s) == trim_back(s.drop_last()));
        assert(s.drop_last().take(b) =~= s.take(b));
    } else {
        if s.len() > 0 {
            assert(!is_space_char(s[s.len() - 1]));
        }
        assert(s.take(b) =~= s);
    }
}

/// `s` with leading and trailing ASCII whitespace removed.
pub fn trim_str(s: &str) -> (r: &str)
    ensures
        r@ == trim_seq(s@),
{
    let l: usize = s.unicode_len();
    let mut a: usize = 0;
    while a < l && is_space_exec(s.get_char(a))
        invariant
            l == s@.len(),
            0 <= a <= l,
            forall|k: int| 0 <= k < a ==> is_space_char(#[trigger] s@[k]),
        decreases l - a,
    {
        a = a + 1;
    }
    proof {
        lemma_trim_front_skip(s@, a as int);
    }
    if a == l {
        let r = s.substring_char(a, l);
        proof {
            assert(trim_front(s@) =~= s@.subrange(a as int, l as int));
            assert(trim_front(s@).len() == 0);
            assert(trim_back(trim_front(s@)) =~= trim_front(s@));
        }
        return r;
    }
    let mut b: usize = l;
    while b > a && is_space_exec(s.get_char(b - 1))
        invariant
            l == s@.len(),
            0 <= a <= b <= l,
            a < l,
            !is_space_char(s@[a as int]),
            forall|k: int| b <= k < l ==> is_space_char(#[trigger] s@[k]),
        decreases b,
    {
        b = b - 1;
    }
    let r = s.substring_char(a, b);
    proof {
        let t = trim_front(s@);
        assert(t =~= s@.skip(a as int));
        assert(b > a);
        assert(!is_space_char(s@[b - 1]));
        assert(forall|k: int| b - a <= k < t.len() ==> is_space_char(#[trigger] t[k]));
        assert(!is_space_char(t[b - a - 1]));
        lemma_trim_back_take(t, b - a);
        assert(t.take(b - a) =~= s@.subrange(a as int, b as int));
    }
    r
}

/// Whether `c` is an ASCII whitespace character.
pub fn is_space_exec(c: char) -> (r: bool)
    ensures
        r == is_space_char(c),
{
    c == ' ' || c == '\t' || c == '\r' || c == '\n'
}

} // verus!
