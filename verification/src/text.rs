//! Small executable helpers for comparing content-type strings, together with
//! the spec-level views of `(String, String)` content-type pairs.

use vstd::prelude::*;

verus! {

/// Spec view of an optional content-type pair.
pub open spec fn opt_content_type_view(o: Option<(String, String)>) -> Option<
    (Seq<char>, Seq<char>),
> {
    match o {
        Some(ct) => Some((ct.0@, ct.1@)),
        None => None,
    }
}

/// Spec view of an optional borrowed content-type pair.
pub open spec fn opt_str_pair_view(o: Option<(&str, &str)>) -> Option<(Seq<char>, Seq<char>)> {
    match o {
        Some(ct) => Some((ct.0@, ct.1@)),
        None => None,
    }
}

/// Turns a borrowed content-type pair into an owned one.
pub fn as_string_option(tup: Option<(&'static str, &'static str)>) -> (r: Option<(String, String)>)
    ensures
        opt_content_type_view(r) == opt_str_pair_view(tup),
{
    match tup {
        None => None,
        Some(tp) => Some((tp.0.to_owned(), tp.1.to_owned())),
    }
}

/// A copy of an optional string.
pub fn clone_opt_string(s: &Option<String>) -> (r: Option<String>)
    ensures
        r == *s,
{
    match s {
        None => None,
        Some(v) => Some(v.clone()),
    }
}

/// True when `s` and `t` are the same character sequence.
pub fn str_eq(s: &str, t: &str) -> (r: bool)
    ensures
        r == (s@ == t@),
{
    let n = s.unicode_len();
    if n != t.unicode_len() {
        assert(s@ =~= t@ ==> s@.len() == t@.len());
        return false;
    }
    let mut i: usize = 0;
    while i < n
        invariant
            n == s@.len(),
            n == t@.len(),
            0 <= i <= n,
            forall|k: int| 0 <= k < i ==> s@[k] == t@[k],
        decreases n - i,
    {
        if s.get_char(i) != t.get_char(i) {
            assert(s@[i as int] != t@[i as int]);
            return false;
        }
        i += 1;
    }
    assert(s@ =~= t@);
    true
}

/// True when the string `s` equals the literal `lit`.
pub fn string_eq_lit(s: &String, lit: &str) -> (r: bool)
    ensures
        r == (s@ == lit@),
{
    str_eq(s.as_str(), lit)
}

/// True when `s` ends with the suffix `suffix`.
pub open spec fn ends_with(s: Seq<char>, suffix: Seq<char>) -> bool {
    s.len() >= suffix.len() && s.subrange(s.len() - suffix.len(), s.len() as int) == suffix
}

/// True when `s` ends with the suffix `suffix`.
pub fn str_ends_with(s: &str, suffix: &str) -> (r: bool)
    ensures
        r == ends_with(s@, suffix@),
{
    let n = s.unicode_len();
    let m = suffix.unicode_len();
    if n < m {
        return false;
    }
    let mut i: usize = 0;
    while i < m
        invariant
            n == s@.len(),
            m == suffix@.len(),
            m <= n,
            0 <= i <= m,
            forall|k: int| 0 <= k < i ==> s@[n - m + k] == suffix@[k],
        decreases m - i,
    {
        if s.get_char(n - m + i) != suffix.get_char(i) {
            assert(s@.subrange(n - m, n as int) =~= suffix@ ==> s@[n - m + i] == suffix@[i as int]);
            return false;
        }
        i += 1;
    }
    assert(s@.subrange(n - m, n as int) =~= suffix@);
    true
}

} // verus!
