//! Prefix operations on strings, stated over sequences of characters.

use vstd::prelude::*;
use vstd::string::*;

verus! {

/// `prefix` occurs at the start of `s`.
pub open spec fn starts_with(s: Seq<char>, prefix: Seq<char>) -> bool {
    prefix.len() <= s.len() && s.subrange(0, prefix.len() as int) == prefix
}

/// `s` without one leading `prefix`, where it begins with it; `s` itself
/// where it does not.
pub open spec fn without_prefix(s: Seq<char>, prefix: Seq<char>) -> Seq<char> {
    if starts_with(s, prefix) {
        s.subrange(prefix.len() as int, s.len() as int)
    } else {
        s
    }
}

/// A prefix put in front is the prefix that is taken off again.
pub proof fn lemma_without_prefix_undoes_prepend(s: Seq<char>, prefix: Seq<char>)
    ensures
        starts_with(prefix + s, prefix),
        without_prefix(prefix + s, prefix) == s,
{
    let whole = prefix + s;
    assert(whole.subrange(0, prefix.len() as int) =~= prefix);
    assert(whole.subrange(prefix.len() as int, whole.len() as int) =~= s);
}

/// Whether the characters of `s` from position `at` on begin with `prefix`.
pub fn has_prefix_at(s: &str, at: usize, prefix: &str) -> (found: bool)
    requires
        at <= s@.len(),
    ensures
        found == starts_with(s@.subrange(at as int, s@.len() as int), prefix@),
{
    let n: usize = s.unicode_len();
    let m: usize = prefix.unicode_len();
    if m > n - at {
        return false;
    }
    let ghost rest = s@.subrange(at as int, n as int);
    let mut i: usize = 0;
    while i < m
        invariant
            n == s@.len(),
            m == prefix@.len(),
            at <= n,
            m <= n - at,
            i <= m,
            rest == s@.subrange(at as int, n as int),
            forall|k: int| 0 <= k < i ==> rest[k] == prefix@[k],
        decreases m - i,
    {
        if s.get_char(at + i) != prefix.get_char(i) {
            proof {
                assert(rest[i as int] == s@[at + i]);
                assert(rest.subrange(0, m as int)[i as int] != prefix@[i as int]);
            }
            return false;
        }
        assert(rest[i as int] == s@[at + i]);
        i = i + 1;
    }
    assert(rest.subrange(0, m as int) =~= prefix@);
    true
}

/// Whether two strings hold the same characters.
pub fn same_text(a: &str, b: &str) -> (same: bool)
    ensures
        same == (a@ == b@),
{
    assert(a@.subrange(0, a@.len() as int) =~= a@);
    if a.unicode_len() != b.unicode_len() {
        return false;
    }
    let same = has_prefix_at(a, 0, b);
    assert(same ==> a@ =~= b@);
    same
}

/// Removes one leading `prefix` from `s`; `None` when `s` does not begin
/// with it.
pub fn strip_prefix(s: &str, prefix: &str) -> (rest: Option<String>)
    ensures
        rest.is_some() == starts_with(s@, prefix@),
        rest.is_some() ==> rest.unwrap()@ == s@.subrange(prefix@.len() as int, s@.len() as int),
{
    assert(s@.subrange(0, s@.len() as int) =~= s@);
    if has_prefix_at(s, 0, prefix) {
        let n: usize = s.unicode_len();
        let m: usize = prefix.unicode_len();
        Some(String::from_str(s.substring_char(m, n)))
    } else {
        None
    }
}

/// Removes one leading `prefix` from `s`, where it begins with it, and
/// leaves `s` as it is where it does not.
pub fn remove_prefix(s: &str, prefix: &str) -> (rest: String)
    ensures
        rest@ == without_prefix(s@, prefix@),
{
    match strip_prefix(s, prefix) {
        Some(rest) => rest,
        None => String::from_str(s),
    }
}

} // verus!
