//! Verified text scanning primitives for the chat-log grammar:
//! substring search, prefix tests, whitespace trimming and token
//! extraction, each specified over `Seq<char>`.

use vstd::prelude::*;
use vstd::string::*;

verus! {

/// Whitespace characters recognized by the log grammar.
pub open spec fn is_ws_char(c: char) -> bool {
    c == ' ' || c == '\t' || c == '\r' || c == '\n'
}

/// `pat` occurs in `s` at position `i`.
pub open spec fn match_at<T>(s: Seq<T>, pat: Seq<T>, i: int) -> bool {
    &&& 0 <= i
    &&& i + pat.len() <= s.len()
    &&& s.subrange(i, i + pat.len() as int) == pat
}

/// Position of the first occurrence of `pat` in `s` at or after `i`.
pub open spec fn first_match_from<T>(s: Seq<T>, pat: Seq<T>, i: int) -> Option<int>
    decreases s.len() + 1 - i,
{
    if i + pat.len() > s.len() {
        None
    } else if match_at(s, pat, i) {
        Some(i)
    } else {
        first_match_from(s, pat, i + 1)
    }
}

/// Position of the first occurrence of `pat` in `s`.
pub open spec fn first_match<T>(s: Seq<T>, pat: Seq<T>) -> Option<int> {
    first_match_from(s, pat, 0)
}

/// `pat` occurs somewhere in `s`.
pub open spec fn contains_sub<T>(s: Seq<T>, pat: Seq<T>) -> bool {
    first_match(s, pat) is Some
}

/// `s` begins with `pat`.
pub open spec fn starts_with_spec<T>(s: Seq<T>, pat: Seq<T>) -> bool {
    pat.len() <= s.len() && s.subrange(0, pat.len() as int) == pat
}

/// What `first_match_from` returns: the first occurrence at or after
/// the start position, or a guarantee that there is none.
pub proof fn lemma_first_match_from<T>(s: Seq<T>, pat: Seq<T>, i: int)
    requires
        0 <= i,
    ensures
        match first_match_from(s, pat, i) {
            Some(j) => {
                &&& i <= j
                &&& match_at(s, pat, j)
                &&& forall|k: int| i <= k < j ==> !match_at(s, pat, k)
            },
            None => forall|k: int| i <= k ==> !match_at(s, pat, k),
        },
    decreases s.len() + 1 - i,
{
    if i + pat.len() > s.len() {
        assert forall|k: int| i <= k implies !match_at(s, pat, k) by {}
    } else if match_at(s, pat, i) {
    } else {
        lemma_first_match_from(s, pat, i + 1);
    }
}

/// Searching from a position that does not match is the same as
/// searching from the next position.
pub proof fn lemma_first_match_step<T>(s: Seq<T>, pat: Seq<T>, i: int)
    requires
        0 <= i,
        !match_at(s, pat, i),
        i + pat.len() <= s.len(),
    ensures
        first_match_from(s, pat, i) == first_match_from(s, pat, i + 1),
{
}

/// Exact occurrence test at one position.
pub fn matches_at_exec(s: &str, pat: &str, i: usize) -> (b: bool)
    requires
        i + pat@.len() <= s@.len(),
        s@.len() <= usize::MAX,
    ensures
        b == match_at(s@, pat@, i as int),
{
    let m = pat.unicode_len();
    let mut j: usize = 0;
    while j < m
        invariant
            j <= m,
            m == pat@.len(),
            i + m <= s@.len(),
            s@.len() <= usize::MAX,
            forall|k: int| 0 <= k < j ==> s@[i + k] == pat@[k],
        decreases m - j,
    {
        if s.get_char(i + j) != pat.get_char(j) {
            assert(s@.subrange(i as int, i + m as int)[j as int] != pat@[j as int]);
            return false;
        }
        j += 1;
    }
    assert(s@.subrange(i as int, i + m as int) =~= pat@);
    true
}

/// First occurrence of `pat` in `s` at or after `start`, in character
/// positions.
pub fn find_sub_from(s: &str, pat: &str, start: usize) -> (r: Option<usize>)
    requires
        start <= s@.len(),
    ensures
        match r {
            Some(j) => first_match_from(s@, pat@, start as int) == Some(j as int),
            None => first_match_from(s@, pat@, start as int) is None,
        },
{
    let n = s.unicode_len();
    let m = pat.unicode_len();
    if m > n || start > n - m {
        assert(first_match_from(s@, pat@, start as int) is None);
        return None;
    }
    let limit = n - m;
    let mut i: usize = start;
    while i <= limit
        invariant
            start <= i,
            i <= limit + 1,
            limit == n - m,
            m <= n,
            n == s@.len(),
            m == pat@.len(),
            first_match_from(s@, pat@, start as int) == first_match_from(s@, pat@, i as int),
        decreases limit + 1 - i,
    {
        if matches_at_exec(s, pat, i) {
            return Some(i);
        }
        proof {
            lemma_first_match_step(s@, pat@, i as int);
        }
        if i == limit {
            assert(first_match_from(s@, pat@, i + 1 as int) is None);
            return None;
        }
        i += 1;
    }
    assert(first_match_from(s@, pat@, i as int) is None);
    None
}

/// First occurrence of `pat` in `s`.
pub fn find_sub(s: &str, pat: &str) -> (r: Option<usize>)
    ensures
        match r {
            Some(j) => first_match(s@, pat@) == Some(j as int),
            None => first_match(s@, pat@) is None,
        },
{
    find_sub_from(s, pat, 0)
}

/// Whether `pat` occurs in `s`.
pub fn contains_str(s: &str, pat: &str) -> (b: bool)
    ensures
        b == contains_sub(s@, pat@),
{
    find_sub(s, pat).is_some()
}

/// Whether `s` begins with `pat`.
pub fn starts_with(s: &str, pat: &str) -> (b: bool)
    ensures
        b == starts_with_spec(s@, pat@),
{
    let n = s.unicode_len();
    let m = pat.unicode_len();
    if m > n {
        return false;
    }
    matches_at_exec(s, pat, 0)
}

/// `s` with leading whitespace removed.
pub open spec fn trim_start_spec(s: Seq<char>) -> Seq<char>
    decreases s.len(),
{
    if s.len() > 0 && is_ws_char(s[0]) {
        trim_start_spec(s.drop_first())
    } else {
        s
    }
}

/// `s` with trailing whitespace removed.
pub open spec fn trim_end_spec(s: Seq<char>) -> Seq<char>
    decreases s.len(),
{
    if s.len() > 0 && is_ws_char(s.last()) {
        trim_end_spec(s.drop_last())
    } else {
        s
    }
}

/// `s` with leading and trailing whitespace removed.
pub open spec fn trim_spec(s: Seq<char>) -> Seq<char> {
    trim_end_spec(trim_start_spec(s))
}

proof fn lemma_trim_start(s: Seq<char>, a: int)
    requires
        0 <= a <= s.len(),
        forall|k: int| 0 <= k < a ==> is_ws_char(s[k]),
        a == s.len() || !is_ws_char(s[a]),
    ensures
        trim_start_spec(s) == s.subrange(a, s.len() as int),
    decreases a,
{
    if a == 0 {
        if s.len() == 0 || !is_ws_char(s[0]) {
            assert(s.subrange(0, s.len() as int) =~= s);
        }
    } else {
        lemma_trim_start(s.drop_first(), a - 1);
        assert(s.drop_first().subrange(a - 1, s.drop_first().len() as int) =~= s.subrange(
            a,
            s.len() as int,
        ));
    }
}

proof fn lemma_trim_end(s: Seq<char>, b: int)
    requires
        0 <= b <= s.len(),
        forall|k: int| b <= k < s.len() ==> is_ws_char(s[k]),
        b == 0 || !is_ws_char(s[b - 1]),
    ensures
        trim_end_spec(s) == s.subrange(0, b),
    decreases s.len(),
{
    if b == s.len() {
        if s.len() == 0 || !is_ws_char(s.last()) {
            assert(s.subrange(0, b) =~= s);
        }
    } else {
        assert(is_ws_char(s.last()));
        lemma_trim_end(s.drop_last(), b);
        assert(s.drop_last().subrange(0, b) =~= s.subrange(0, b));
    }
}

/// Whitespace test for one character.
pub fn is_ws(c: char) -> (b: bool)
    ensures
        b == is_ws_char(c),
{
    c == ' ' || c == '\t' || c == '\r' || c == '\n'
}

/// `s` without leading and trailing whitespace.
pub fn trim<'a>(s: &'a str) -> (r: &'a str)
    ensures
        r@ == trim_spec(s@),
{
    let n = s.unicode_len();
    let mut a: usize = 0;
    while a < n && is_ws(s.get_char(a))
        invariant
            a <= n,
            n == s@.len(),
            forall|k: int| 0 <= k < a ==> is_ws_char(s@[k]),
        decreases n - a,
    {
        a += 1;
    }
    let mut b: usize = n;
    while b > a && is_ws(s.get_char(b - 1))
        invariant
            a <= b <= n,
            n == s@.len(),
            forall|k: int| b <= k < n ==> is_ws_char(s@[k]),
        decreases b,
    {
        b -= 1;
    }
    proof {
        lemma_trim_start(s@, a as int);
        let t = s@.subrange(a as int, n as int);
        lemma_trim_end(t, b - a);
        assert(t.subrange(0, b - a) =~= s@.subrange(a as int, b as int));
    }
    s.substring_char(a, b)
}

/// `s` with one leading `'*'` removed, if present.
pub open spec fn strip_star_spec(s: Seq<char>) -> Seq<char> {
    if s.len() > 0 && s[0] == '*' {
        s.drop_first()
    } else {
        s
    }
}

/// Removes one leading `'*'`, if present.
pub fn strip_star<'a>(s: &'a str) -> (r: &'a str)
    ensures
        r@ == strip_star_spec(s@),
{
    let n = s.unicode_len();
    if n > 0 && s.get_char(0) == '*' {
        let r = s.substring_char(1, n);
        proof {
            assert(s@.subrange(1, n as int) =~= s@.drop_first());
        }
        r
    } else {
        s
    }
}

/// Length of the leading run of non-whitespace characters.
pub open spec fn token_len(t: Seq<char>) -> int
    decreases t.len(),
{
    if t.len() == 0 || is_ws_char(t[0]) {
        0
    } else {
        1 + token_len(t.drop_first())
    }
}

/// The first whitespace-delimited token of `s`, or `s` itself when `s`
/// holds nothing but whitespace.
pub open spec fn split_first_token_spec(s: Seq<char>) -> Seq<char> {
    let t = trim_start_spec(s);
    if t.len() == 0 {
        s
    } else {
        t.subrange(0, token_len(t))
    }
}

proof fn lemma_token_len(t: Seq<char>, j: int)
    requires
        0 <= j <= t.len(),
        forall|k: int| 0 <= k < j ==> !is_ws_char(t[k]),
        j == t.len() || is_ws_char(t[j]),
    ensures
        token_len(t) == j,
    decreases j,
{
    if j == 0 {
    } else {
        lemma_token_len(t.drop_first(), j - 1);
    }
}

/// First whitespace-delimited token, as the original line classifier
/// uses it: the whole string when no token exists.
pub fn split_first_token<'a>(s: &'a str) -> (r: &'a str)
    ensures
        r@ == split_first_token_spec(s@),
{
    let n = s.unicode_len();
    let mut a: usize = 0;
    while a < n && is_ws(s.get_char(a))
        invariant
            a <= n,
            n == s@.len(),
            forall|k: int| 0 <= k < a ==> is_ws_char(s@[k]),
        decreases n - a,
    {
        a += 1;
    }
    proof {
        lemma_trim_start(s@, a as int);
    }
    if a == n {
        proof {
            assert(trim_start_spec(s@) =~= s@.subrange(a as int, n as int));
        }
        return s;
    }
    let mut e: usize = a;
    while e < n && !is_ws(s.get_char(e))
        invariant
            a <= e <= n,
            n == s@.len(),
            forall|k: int| a <= k < e ==> !is_ws_char(s@[k]),
        decreases n - e,
    {
        e += 1;
    }
    proof {
        let t = s@.subrange(a as int, n as int);
        lemma_token_len(t, e - a);
        assert(t.subrange(0, e - a) =~= s@.subrange(a as int, e as int));
    }
    s.substring_char(a, e)
}

} // verus!
