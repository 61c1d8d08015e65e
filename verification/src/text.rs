//! Small verified operations on text, each specified over the string's view
//! as a sequence of characters.

use vstd::prelude::*;

verus! {

/// The view of an optional borrowed text.
pub open spec fn borrowed_view(text: Option<&str>) -> Option<Seq<char>> {
    match text {
        Some(t) => Some(t@),
        None => None,
    }
}

/// The view of an optional owned text.
pub open spec fn owned_view(text: Option<String>) -> Option<Seq<char>> {
    match text {
        Some(t) => Some(t@),
        None => None,
    }
}

/// `s` holds two dots side by side: the parent-directory token.
pub open spec fn has_parent_token(s: Seq<char>) -> bool {
    exists|i: int| 0 <= i && i + 1 < s.len() && #[trigger] s[i] == '.' && s[i + 1] == '.'
}

/// The position of the last `needle` in `s`, if there is one.
pub open spec fn last_position(s: Seq<char>, needle: char) -> Option<int>
    decreases s.len(),
{
    if s.len() == 0 {
        None
    } else if s.last() == needle {
        Some(s.len() - 1)
    } else {
        last_position(s.drop_last(), needle)
    }
}

/// What `last_position` returns is where the last `needle` stands: it is in
/// range, holds `needle`, and nothing after it does; `None` means that `s`
/// holds no `needle` at all.
pub proof fn last_position_is_last(s: Seq<char>, needle: char)
    ensures
        match last_position(s, needle) {
            Some(p) => 0 <= p < s.len() && s[p] == needle && forall|j: int|
                p < j < s.len() ==> s[j] != needle,
            None => !s.contains(needle),
        },
    decreases s.len(),
{
    if s.len() > 0 && s.last() != needle {
        let front = s.drop_last();
        last_position_is_last(front, needle);
        assert forall|j: int| 0 <= j < front.len() implies front[j] == s[j] by {}
        match last_position(front, needle) {
            Some(p) => {},
            None => {
                assert forall|j: int| 0 <= j < s.len() implies s[j] != needle by {
                    if j < front.len() {
                        assert(front[j] == s[j]);
                        assert(!front.contains(needle));
                    }
                }
            },
        }
    } else if s.len() == 0 {
    } else {
        assert(s[s.len() - 1] == needle);
    }
}

/// A `needle` after which no other stands is the last one.
pub proof fn last_position_at(s: Seq<char>, needle: char, p: int)
    requires
        0 <= p < s.len(),
        s[p] == needle,
        forall|j: int| p < j < s.len() ==> s[j] != needle,
    ensures
        last_position(s, needle) == Some(p),
{
    last_position_is_last(s, needle);
    match last_position(s, needle) {
        Some(q) => {
            if q < p {
                assert(s[p] != needle);
            }
        },
        None => {
            assert(s.contains(needle));
        },
    }
}

/// Whether two texts hold the same characters.
pub fn same_text(a: &str, b: &str) -> (same: bool)
    ensures
        same == (a@ == b@),
{
    let n: usize = a.unicode_len();
    if b.unicode_len() != n {
        return false;
    }
    let mut i: usize = 0;
    while i < n
        invariant
            i <= n,
            n == a@.len(),
            n == b@.len(),
            forall|j: int| 0 <= j < i ==> a@[j] == b@[j],
        decreases n - i,
    {
        if a.get_char(i) != b.get_char(i) {
            return false;
        }
        i += 1;
    }
    assert(a@ =~= b@);
    true
}

/// Whether `s` begins with `prefix`.
pub fn starts_with(s: &str, prefix: &str) -> (found: bool)
    ensures
        found == prefix@.is_prefix_of(s@),
{
    let n: usize = prefix.unicode_len();
    if s.unicode_len() < n {
        return false;
    }
    let mut i: usize = 0;
    while i < n
        invariant
            i <= n,
            n == prefix@.len(),
            n <= s@.len(),
            forall|j: int| 0 <= j < i ==> s@[j] == prefix@[j],
        decreases n - i,
    {
        if s.get_char(i) != prefix.get_char(i) {
            assert(s@.subrange(0, n as int)[i as int] != prefix@[i as int]);
            return false;
        }
        i += 1;
    }
    assert(s@.subrange(0, n as int) =~= prefix@);
    true
}

/// Whether `needle` occurs in `s`.
pub fn contains_char(s: &str, needle: char) -> (found: bool)
    ensures
        found == s@.contains(needle),
{
    let n: usize = s.unicode_len();
    let mut i: usize = 0;
    while i < n
        invariant
            i <= n,
            n == s@.len(),
            forall|j: int| 0 <= j < i ==> s@[j] != needle,
        decreases n - i,
    {
        if s.get_char(i) == needle {
            return true;
        }
        i += 1;
    }
    false
}

/// Whether `s` holds the parent-directory token `..`.
pub fn contains_parent_token(s: &str) -> (found: bool)
    ensures
        found == has_parent_token(s@),
{
    let n: usize = s.unicode_len();
    if n < 2 {
        return false;
    }
    let mut i: usize = 0;
    while i + 1 < n
        invariant
            i + 1 <= n,
            n == s@.len(),
            forall|j: int| 0 <= j < i ==> !(#[trigger] s@[j] == '.' && s@[j + 1] == '.'),
        decreases n - i,
    {
        if s.get_char(i) == '.' && s.get_char(i + 1) == '.' {
            return true;
        }
        i += 1;
    }
    false
}

/// The position of the last `needle` in `s`, if there is one.
pub fn find_last(s: &str, needle: char) -> (found: Option<usize>)
    ensures
        match found {
            Some(p) => last_position(s@, needle) == Some(p as int),
            None => last_position(s@, needle) is None,
        },
{
    let n: usize = s.unicode_len();
    let mut i: usize = n;
    assert(s@.take(n as int) =~= s@);
    while i > 0
        invariant
            i <= n,
            n == s@.len(),
            last_position(s@, needle) == last_position(s@.take(i as int), needle),
        decreases i,
    {
        if s.get_char(i - 1) == needle {
            assert(s@.take(i as int).last() == needle);
            return Some(i - 1);
        }
        assert(s@.take(i as int).drop_last() =~= s@.take(i - 1));
        i -= 1;
    }
    None
}

/// `a` followed by `b`.
pub fn join(a: &str, b: &str) -> (joined: String)
    ensures
        joined@ == a@ + b@,
{
    let mut joined = String::from_str(a);
    joined.append(b);
    joined
}

} // verus!
