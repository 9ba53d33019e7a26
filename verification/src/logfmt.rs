//! The pieces of a log line that are computed from text.

use vstd::prelude::*;
use vstd::string::*;

verus! {

/// `at` is the first place in `s` that holds `c`.
pub open spec fn spec_is_first(s: Seq<char>, c: char, at: int) -> bool {
    &&& 0 <= at < s.len()
    &&& s[at] == c
    &&& forall|k: int| 0 <= k < at ==> s[k] != c
}

/// `at` is the last place in `s` that holds `c`.
pub open spec fn spec_is_last(s: Seq<char>, c: char, at: int) -> bool {
    &&& 0 <= at < s.len()
    &&& s[at] == c
    &&& forall|k: int| at < k < s.len() ==> s[k] != c
}

/// The first place in `s` that holds `c`.
pub fn find_first(s: &str, c: char) -> (found: Option<usize>)
    ensures
        found matches Some(at) ==> spec_is_first(s@, c, at as int),
        found is None ==> forall|k: int| 0 <= k < s@.len() ==> s@[k] != c,
{
    let n: usize = s.unicode_len();
    let mut i: usize = 0;
    while i < n
        invariant
            n == s@.len(),
            i <= n,
            forall|k: int| 0 <= k < i ==> s@[k] != c,
        decreases n - i,
    {
        if s.get_char(i) == c {
            return Some(i);
        }
        i = i + 1;
    }
    None
}

/// The last place in `s` that holds `c`.
pub fn find_last(s: &str, c: char) -> (found: Option<usize>)
    ensures
        found matches Some(at) ==> spec_is_last(s@, c, at as int),
        found is None ==> forall|k: int| 0 <= k < s@.len() ==> s@[k] != c,
{
    let n: usize = s.unicode_len();
    let mut i: usize = n;
    while i > 0
        invariant
            n == s@.len(),
            i <= n,
            forall|k: int| i <= k < n ==> s@[k] != c,
        decreases i,
    {
        i = i - 1;
        if s.get_char(i) == c {
            return Some(i);
        }
    }
    None
}

/// The number inside the printed form of a thread's identifier: what
/// stands between the first opening and the last closing parenthesis. A text
/// without such a pair, in this order, is returned whole.
pub fn parse_thread_id(printed: &str) -> (id: String)
    ensures
        forall|open: int, close: int|
            spec_is_first(printed@, '(', open) && spec_is_last(printed@, ')', close) && open
                < close ==> id@ == printed@.subrange(open + 1, close),
        (forall|open: int, close: int|
            !(spec_is_first(printed@, '(', open) && spec_is_last(printed@, ')', close) && open
                < close)) ==> id@ == printed@,
{
    match (find_first(printed, '('), find_last(printed, ')')) {
        (Some(open), Some(close)) => {
            if open < close {
                assert forall|a: int, b: int|
                    spec_is_first(printed@, '(', a) && spec_is_last(printed@, ')', b) && a
                        < b implies a == open && b == close by {
                    if a < open {
                        assert(printed@[a] != '(');
                    }
                    if open < a {
                        assert(printed@[open as int] != '(');
                    }
                    if b < close {
                        assert(printed@[close as int] != ')');
                    }
                    if close < b {
                        assert(printed@[b] != ')');
                    }
                }
                String::from_str(printed.substring_char(open + 1, close))
            } else {
                assert forall|a: int, b: int|
                    !(spec_is_first(printed@, '(', a) && spec_is_last(printed@, ')', b) && a
                        < b) by {
                    if spec_is_first(printed@, '(', a) && spec_is_last(printed@, ')', b) && a < b {
                        if a < open {
                            assert(printed@[a] != '(');
                        }
                        if open < a {
                            assert(printed@[open as int] != '(');
                        }
                        if b < close {
                            assert(printed@[close as int] != ')');
                        }
                        if close < b {
                            assert(printed@[b] != ')');
                        }
                    }
                }
                String::from_str(printed)
            }
        },
        _ => String::from_str(printed),
    }
}

} // verus!
