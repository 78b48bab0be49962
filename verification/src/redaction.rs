//! Hiding credentials in free-form diagnostic text.
//!
//! Values that follow a sensitive key (`token=`, `password:` and the like,
//! matched without regard to ASCII case) and values that follow `bearer ` are
//! replaced by `[REDACTED]`. A value runs up to the next whitespace or one of
//! `& , ; } ]`.
use vstd::prelude::*;

use crate::text::{is_whitespace, is_whitespace_spec, chars_of, string_from_chars};

verus! {

/// The text that replaces a hidden value.
pub open spec fn redacted() -> Seq<char> {
    "[REDACTED]"@
}

/// `c` with ASCII upper-case letters mapped to lower case.
pub open spec fn ascii_lower(c: char) -> char {
    if 'A' <= c <= 'Z' {
        ((c as u32) + 32) as char
    } else {
        c
    }
}

/// The lower-case pattern `pat` occurs in `s` at `i`, ignoring ASCII case.
pub open spec fn matches_at(s: Seq<char>, pat: Seq<char>, i: int) -> bool {
    &&& 0 <= i
    &&& i + pat.len() <= s.len()
    &&& forall|k: int| 0 <= k < pat.len() ==> ascii_lower(#[trigger] s[i + k]) == pat[k]
}

/// The first position at or after `from` where `pat` occurs.
pub open spec fn find_from(s: Seq<char>, pat: Seq<char>, from: int) -> Option<int>
    decreases s.len() - from,
{
    if from < 0 || from + pat.len() > s.len() {
        None
    } else if matches_at(s, pat, from) {
        Some(from)
    } else {
        find_from(s, pat, from + 1)
    }
}

/// The first position at or after `i` that does not hold whitespace.
pub open spec fn skip_whitespace(s: Seq<char>, i: int) -> int
    decreases s.len() - i,
{
    if i >= s.len() || i < 0 {
        i
    } else if is_whitespace_spec(s[i]) {
        skip_whitespace(s, i + 1)
    } else {
        i
    }
}

/// Whether `c` ends a sensitive value.
pub open spec fn ends_value(c: char) -> bool {
    is_whitespace_spec(c) || c == '&' || c == ',' || c == ';' || c == '}' || c == ']'
}

/// The end of the value that starts at `i`.
pub open spec fn value_end(s: Seq<char>, i: int) -> int
    decreases s.len() - i,
{
    if i >= s.len() || i < 0 {
        s.len() as int
    } else if ends_value(s[i]) {
        i
    } else {
        value_end(s, i + 1)
    }
}

/// The end of a sensitive value starting at `i`; a leading `bearer ` is
/// part of the value.
pub open spec fn sensitive_value_end(s: Seq<char>, i: int) -> int {
    if matches_at(s, "bearer "@, i) {
        value_end(s, i + 7)
    } else {
        value_end(s, i)
    }
}

/// `s` with the part from `a` to `b` replaced by `[REDACTED]`.
pub open spec fn splice(s: Seq<char>, a: int, b: int) -> Seq<char> {
    s.subrange(0, a) + redacted() + s.subrange(b, s.len() as int)
}

/// Hides the value after every occurrence of the key pattern `pat` at or
/// after `from`; the search resumes after each inserted `[REDACTED]`.
pub open spec fn redact_key(s: Seq<char>, pat: Seq<char>, from: int) -> Seq<char>
    recommends
        pat.len() > 0,
    decreases s.len() - from,
    when pat.len() > 0 && 0 <= from <= s.len()
{
    match find_from(s, pat, from) {
        None => s,
        Some(start) => {
            let vs = skip_whitespace(s, start + pat.len());
            let end = sensitive_value_end(s, vs);
            let next = splice(s, vs, end);
            let resume = vs + 10;
            if resume >= next.len() {
                next
            } else {
                proof {
                    lemma_key_step(s, pat, from);
                }
                redact_key(next, pat, resume)
            }
        },
    }
}

/// One step of [`redact_key`] leaves less text to search.
pub proof fn lemma_key_step(s: Seq<char>, pat: Seq<char>, from: int)
    requires
        pat.len() > 0,
        0 <= from <= s.len(),
        find_from(s, pat, from) is Some,
    ensures
        ({
            let start = find_from(s, pat, from)->0;
            let vs = skip_whitespace(s, start + pat.len());
            let end = sensitive_value_end(s, vs);
            &&& from <= start
            &&& start + pat.len() <= vs <= end <= s.len()
            &&& splice(s, vs, end).len() == vs + 10 + (s.len() - end)
        }),
{
    lemma_find_in_range(s, pat, from);
    let start = find_from(s, pat, from)->0;
    lemma_skip_in_range(s, start + pat.len());
    let vs = skip_whitespace(s, start + pat.len());
    lemma_sensitive_end_in_range(s, vs);
    reveal_strlit("[REDACTED]");
}

pub proof fn lemma_sensitive_end_in_range(s: Seq<char>, i: int)
    requires
        0 <= i <= s.len(),
    ensures
        i <= sensitive_value_end(s, i) <= s.len(),
{
    reveal_strlit("bearer ");
    if matches_at(s, "bearer "@, i) {
        lemma_value_end_in_range(s, i + 7);
    } else {
        lemma_value_end_in_range(s, i);
    }
}

/// Hides the value after every `bearer ` at or after `from`.
pub open spec fn redact_bearer(s: Seq<char>, from: int) -> Seq<char>
    decreases s.len() - from,
    when 0 <= from <= s.len()
{
    match find_from(s, "bearer "@, from) {
        None => s,
        Some(p) => {
            let start = p + 7;
            let end = value_end(s, start);
            let next = splice(s, start, end);
            let resume = start + 10;
            if resume >= next.len() {
                next
            } else {
                proof {
                    lemma_bearer_step(s, from);
                }
                redact_bearer(next, resume)
            }
        },
    }
}

/// One step of [`redact_bearer`] leaves less text to search.
pub proof fn lemma_bearer_step(s: Seq<char>, from: int)
    requires
        0 <= from <= s.len(),
        find_from(s, "bearer "@, from) is Some,
    ensures
        ({
            let start = find_from(s, "bearer "@, from)->0 + 7;
            let end = value_end(s, start);
            &&& from < start <= end <= s.len()
            &&& splice(s, start, end).len() == start + 10 + (s.len() - end)
        }),
{
    reveal_strlit("bearer ");
    reveal_strlit("[REDACTED]");
    lemma_find_in_range(s, "bearer "@, from);
    let start = find_from(s, "bearer "@, from)->0 + 7;
    lemma_value_end_in_range(s, start);
}

/// The sensitive keys, in the order they are handled.
pub open spec fn sensitive_key(i: int) -> &'static str {
    if i == 0 {
        "password"
    } else if i == 1 {
        "passwd"
    } else if i == 2 {
        "pwd"
    } else if i == 3 {
        "secret"
    } else if i == 4 {
        "token"
    } else if i == 5 {
        "api_key"
    } else if i == 6 {
        "apikey"
    } else if i == 7 {
        "access_key"
    } else if i == 8 {
        "private_key"
    } else if i == 9 {
        "authorization"
    } else {
        "credential"
    }
}

/// The number of sensitive keys.
pub const SENSITIVE_KEY_COUNT: usize = 11;

/// The `i`-th key pattern: each key followed by `=`, then by `:`.
pub open spec fn key_pattern(i: int) -> Seq<char> {
    sensitive_key(i / 2)@ + if i % 2 == 0 {
        "="@
    } else {
        ":"@
    }
}

/// The text after the first `n` key patterns have been handled.
pub open spec fn redact_keys(s: Seq<char>, n: nat) -> Seq<char>
    decreases n,
{
    if n == 0 {
        s
    } else {
        redact_key(redact_keys(s, (n - 1) as nat), key_pattern(n - 1), 0)
    }
}

/// The redacted form of `s`: every key pattern in turn, then `bearer `.
pub open spec fn redact_spec(s: Seq<char>) -> Seq<char> {
    redact_bearer(redact_keys(s, (2 * SENSITIVE_KEY_COUNT) as nat), 0)
}

fn sensitive_key_str(i: usize) -> (k: &'static str)
    requires
        i < SENSITIVE_KEY_COUNT,
    ensures
        k@ == sensitive_key(i as int)@,
{
    if i == 0 {
        "password"
    } else if i == 1 {
        "passwd"
    } else if i == 2 {
        "pwd"
    } else if i == 3 {
        "secret"
    } else if i == 4 {
        "token"
    } else if i == 5 {
        "api_key"
    } else if i == 6 {
        "apikey"
    } else if i == 7 {
        "access_key"
    } else if i == 8 {
        "private_key"
    } else if i == 9 {
        "authorization"
    } else {
        "credential"
    }
}

fn lower(c: char) -> (l: char)
    ensures
        l == ascii_lower(c),
{
    if 'A' <= c && c <= 'Z' {
        let v = (c as u32 + 32) as u8;
        v as char
    } else {
        c
    }
}

fn matches_at_exec(s: &Vec<char>, pat: &Vec<char>, i: usize) -> (b: bool)
    ensures
        b == matches_at(s@, pat@, i as int),
{
    if i > s.len() || pat.len() > s.len() - i {
        return false;
    }
    let n = s.len();
    let mut k: usize = 0;
    while k < pat.len()
        invariant
            n == s@.len(),
            k <= pat@.len(),
            i <= s@.len(),
            i + pat@.len() <= s@.len(),
            forall|j: int| 0 <= j < k ==> ascii_lower(#[trigger] s@[i + j]) == pat@[j],
        decreases pat@.len() - k,
    {
        if lower(s[i + k]) != pat[k] {
            return false;
        }
        k += 1;
    }
    true
}

fn find_from_exec(s: &Vec<char>, pat: &Vec<char>, from: usize) -> (r: Option<usize>)
    ensures
        r matches Some(q) ==> find_from(s@, pat@, from as int) == Some(q as int),
        r is None ==> find_from(s@, pat@, from as int) is None,
{
    let mut i = from;
    while i <= s.len() && pat.len() <= s.len() - i
        invariant
            from <= i,
            find_from(s@, pat@, from as int) == find_from(s@, pat@, i as int),
        decreases s@.len() - i,
    {
        if matches_at_exec(s, pat, i) {
            return Some(i);
        }
        i += 1;
    }
    None
}

fn skip_whitespace_exec(s: &Vec<char>, i: usize) -> (j: usize)
    requires
        i <= s@.len(),
    ensures
        j == skip_whitespace(s@, i as int),
        i <= j <= s@.len(),
{
    let mut j = i;
    while j < s.len() && is_whitespace(s[j])
        invariant
            i <= j <= s@.len(),
            skip_whitespace(s@, i as int) == skip_whitespace(s@, j as int),
        decreases s@.len() - j,
    {
        j += 1;
    }
    j
}

fn ends_value_exec(c: char) -> (b: bool)
    ensures
        b == ends_value(c),
{
    is_whitespace(c) || c == '&' || c == ',' || c == ';' || c == '}' || c == ']'
}

fn value_end_exec(s: &Vec<char>, i: usize) -> (j: usize)
    requires
        i <= s@.len(),
    ensures
        j == value_end(s@, i as int),
        i <= j <= s@.len(),
{
    let mut j = i;
    while j < s.len() && !ends_value_exec(s[j])
        invariant
            i <= j <= s@.len(),
            value_end(s@, i as int) == value_end(s@, j as int),
        decreases s@.len() - j,
    {
        j += 1;
    }
    j
}

fn splice_exec(s: &Vec<char>, a: usize, b: usize, replacement: &Vec<char>) -> (r: Vec<char>)
    requires
        a <= b <= s@.len(),
        replacement@ == redacted(),
    ensures
        r@ == splice(s@, a as int, b as int),
{
    let mut r: Vec<char> = Vec::new();
    let mut i: usize = 0;
    while i < a
        invariant
            i <= a <= b <= s@.len(),
            r@ == s@.subrange(0, i as int),
        decreases a - i,
    {
        r.push(s[i]);
        i += 1;
    }
    let mut k: usize = 0;
    while k < replacement.len()
        invariant
            k <= replacement@.len(),
            r@ == s@.subrange(0, a as int) + replacement@.subrange(0, k as int),
        decreases replacement@.len() - k,
    {
        r.push(replacement[k]);
        k += 1;
    }
    let mut j = b;
    while j < s.len()
        invariant
            b <= j <= s@.len(),
            r@ == s@.subrange(0, a as int) + replacement@ + s@.subrange(b as int, j as int),
        decreases s@.len() - j,
    {
        r.push(s[j]);
        j += 1;
    }
    assert(replacement@.subrange(0, replacement@.len() as int) =~= replacement@);
    r
}

pub proof fn lemma_find_in_range(s: Seq<char>, pat: Seq<char>, from: int)
    ensures
        find_from(s, pat, from) matches Some(p) ==> from <= p && matches_at(s, pat, p),
    decreases s.len() - from,
{
    if !(from < 0 || from + pat.len() > s.len()) && !matches_at(s, pat, from) {
        lemma_find_in_range(s, pat, from + 1);
    }
}

pub proof fn lemma_skip_in_range(s: Seq<char>, i: int)
    requires
        0 <= i <= s.len(),
    ensures
        i <= skip_whitespace(s, i) <= s.len(),
    decreases s.len() - i,
{
    if i < s.len() && is_whitespace_spec(s[i]) {
        lemma_skip_in_range(s, i + 1);
    }
}

pub proof fn lemma_value_end_in_range(s: Seq<char>, i: int)
    requires
        0 <= i <= s.len(),
    ensures
        i <= value_end(s, i) <= s.len(),
    decreases s.len() - i,
{
    if i < s.len() && !ends_value(s[i]) {
        lemma_value_end_in_range(s, i + 1);
    }
}

fn redact_key_exec(s: Vec<char>, pat: &Vec<char>, bearer: &Vec<char>, replacement: &Vec<char>) -> (r:
    Vec<char>)
    requires
        pat@.len() > 0,
        bearer@ == "bearer "@,
        replacement@ == redacted(),
    ensures
        r@ == redact_key(s@, pat@, 0),
{
    let ghost initial = s@;
    let mut cur = s;
    let mut from: usize = 0;
    loop
        invariant
            pat@.len() > 0,
            bearer@ == "bearer "@,
            replacement@ == redacted(),
            from <= cur@.len(),
            initial == s@,
            redact_key(cur@, pat@, from as int) == redact_key(initial, pat@, 0),
        decreases cur@.len() - from,
    {
        let n = cur.len();
        proof {
            lemma_find_in_range(cur@, pat@, from as int);
        }
        let start = match find_from_exec(&cur, pat, from) {
            Some(p) => p,
            None => { return cur },
        };
        proof {
            lemma_key_step(cur@, pat@, from as int);
            reveal_strlit("bearer ");
        }
        let after = start + pat.len();
        let vs = skip_whitespace_exec(&cur, after);
        proof {
            lemma_skip_in_range(cur@, after as int);
        }
        let end = if matches_at_exec(&cur, bearer, vs) {
            proof {
                lemma_value_end_in_range(cur@, vs + 7);
            }
            value_end_exec(&cur, vs + 7)
        } else {
            proof {
                lemma_value_end_in_range(cur@, vs as int);
            }
            value_end_exec(&cur, vs)
        };
        assert(end == sensitive_value_end(cur@, vs as int));
        let next = splice_exec(&cur, vs, end, replacement);
        if next.len() <= vs + 10 {
            return next;
        }
        cur = next;
        from = vs + 10;
    }
}

fn redact_bearer_exec(s: Vec<char>, bearer: &Vec<char>, replacement: &Vec<char>) -> (r: Vec<char>)
    requires
        bearer@ == "bearer "@,
        replacement@ == redacted(),
    ensures
        r@ == redact_bearer(s@, 0),
{
    let ghost initial = s@;
    let mut cur = s;
    let mut from: usize = 0;
    loop
        invariant
            bearer@ == "bearer "@,
            replacement@ == redacted(),
            from <= cur@.len(),
            initial == s@,
            redact_bearer(cur@, from as int) == redact_bearer(initial, 0),
        decreases cur@.len() - from,
    {
        proof {
            lemma_find_in_range(cur@, bearer@, from as int);
        }
        let n = cur.len();
        let p = match find_from_exec(&cur, bearer, from) {
            Some(p) => p,
            None => { return cur },
        };
        proof {
            lemma_bearer_step(cur@, from as int);
            reveal_strlit("bearer ");
        }
        let start = p + 7;
        proof {
            lemma_value_end_in_range(cur@, start as int);
        }
        let end = value_end_exec(&cur, start);
        let next = splice_exec(&cur, start, end, replacement);
        if next.len() <= start + 10 {
            return next;
        }
        cur = next;
        from = start + 10;
    }
}

/// `input` with every sensitive value replaced by `[REDACTED]`.
pub fn redact(input: &str) -> (r: String)
    ensures
        r@ == redact_spec(input@),
{
    let bearer = chars_of("bearer ");
    let replacement = chars_of("[REDACTED]");
    let mut cur = chars_of(input);
    let ghost s0 = input@;
    let mut i: usize = 0;
    while i < 2 * SENSITIVE_KEY_COUNT
        invariant
            i <= 2 * SENSITIVE_KEY_COUNT,
            bearer@ == "bearer "@,
            replacement@ == redacted(),
            cur@ == redact_keys(s0, i as nat),
        decreases 2 * SENSITIVE_KEY_COUNT - i,
    {
        let mut pat = chars_of(sensitive_key_str(i / 2));
        if i % 2 == 0 {
            pat.push('=');
        } else {
            pat.push(':');
        }
        proof {
            reveal_strlit("=");
            reveal_strlit(":");
            assert(pat@ =~= key_pattern(i as int));
            assert(sensitive_key(i as int / 2)@.len() > 0) by {
                reveal_strlit("password");
                reveal_strlit("passwd");
                reveal_strlit("pwd");
                reveal_strlit("secret");
                reveal_strlit("token");
                reveal_strlit("api_key");
                reveal_strlit("apikey");
                reveal_strlit("access_key");
                reveal_strlit("private_key");
                reveal_strlit("authorization");
                reveal_strlit("credential");
            }
        }
        cur = redact_key_exec(cur, &pat, &bearer, &replacement);
        i += 1;
    }
    let out = redact_bearer_exec(cur, &bearer, &replacement);
    string_from_chars(out.as_slice())
}

} // verus!
