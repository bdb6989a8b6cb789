//! Verified string helpers: prefix tests, equality, and slicing on the
//! character level.

use vstd::prelude::*;
use vstd::string::StrSliceExecFns;
use crate::starts_with_spec;

verus! {

broadcast use vstd::string::group_string_axioms;

/// True exactly when `p` is a prefix of `s`.
pub fn starts_with(s: &str, p: &str) -> (r: bool)
    ensures
        r == starts_with_spec(s@, p@),
{
    let n = p.unicode_len();
    let m = s.unicode_len();
    if n > m {
        assert(!starts_with_spec(s@, p@));
        return false;
    }
    let mut i: usize = 0;
    while i < n
        invariant
            i <= n,
            n <= m,
            n == p@.len(),
            m == s@.len(),
            forall|j: int| 0 <= j < i ==> s@[j] == p@[j],
        decreases n - i,
    {
        if s.get_char(i) != p.get_char(i) {
            assert(s@.subrange(0, p@.len() as int)[i as int] != p@[i as int]);
            return false;
        }
        i += 1;
    }
    assert(s@.subrange(0, p@.len() as int) =~= p@);
    true
}

/// True exactly when the two strings hold the same characters.
pub fn str_eq(a: &str, b: &str) -> (r: bool)
    ensures
        r == (a@ == b@),
{
    let n = a.unicode_len();
    let m = b.unicode_len();
    if n != m {
        return false;
    }
    let mut i: usize = 0;
    while i < n
        invariant
            i <= n,
            n == a@.len(),
            n == b@.len(),
            forall|j: int| 0 <= j < i ==> a@[j] == b@[j],
        decreases n - i,
    {
        if a.get_char(i) != b.get_char(i) {
            return false;
        }
        i += 1;
    }
    assert(a@ =~= b@);
    true
}

/// Relies on std's `String::push`: appends one character at the end.
#[verifier::external_body]
fn push_char(s: &mut String, c: char)
    ensures
        final(s)@ == old(s)@.push(c),
{
    s.push(c);
}

/// An ASCII lowercase letter mapped to its uppercase form; anything else
/// kept as it is.
pub open spec fn upper_char(c: char) -> char {
    if 'a' <= c && c <= 'z' {
        ((c as u8) - 32) as char
    } else {
        c
    }
}

fn upper_char_exec(c: char) -> (r: char)
    ensures
        r == upper_char(c),
{
    if 'a' <= c && c <= 'z' {
        ((c as u8) - 32) as char
    } else {
        c
    }
}

/// A kebab-case name turned into words: every dash becomes a space, and the
/// character opening each word is uppercased.
pub open spec fn title_case_spec(s: Seq<char>) -> Seq<char> {
    Seq::new(
        s.len(),
        |i: int|
            if s[i] == '-' {
                ' '
            } else if i == 0 || s[i - 1] == '-' {
                upper_char(s[i])
            } else {
                s[i]
            },
    )
}

/// Turns a kebab-case route segment into a title-cased display name.
pub fn title_case(s: &str) -> (r: String)
    ensures
        r@ == title_case_spec(s@),
{
    let n = s.unicode_len();
    let mut r = String::new();
    let mut i: usize = 0;
    while i < n
        invariant
            i <= n,
            n == s@.len(),
            r@ == title_case_spec(s@).take(i as int),
        decreases n - i,
    {
        let c = s.get_char(i);
        let out = if c == '-' {
            ' '
        } else if i == 0 || s.get_char(i - 1) == '-' {
            upper_char_exec(c)
        } else {
            c
        };
        push_char(&mut r, out);
        proof {
            assert(r@ =~= title_case_spec(s@).take(i as int + 1));
        }
        i += 1;
    }
    proof {
        assert(title_case_spec(s@).take(n as int) =~= title_case_spec(s@));
    }
    r
}

/// The first index at or after `from` holding `c`, or the length when no
/// such index exists.
pub open spec fn find_from(s: Seq<char>, c: char, from: int) -> int
    decreases s.len() - from,
{
    if from < 0 || from >= s.len() {
        s.len() as int
    } else if s[from] == c {
        from
    } else {
        find_from(s, c, from + 1)
    }
}

fn find_char(s: &str, c: char, from: usize) -> (r: usize)
    requires
        from <= s@.len(),
    ensures
        r == find_from(s@, c, from as int),
        from <= r <= s@.len(),
        r < s@.len() ==> s@[r as int] == c,
    decreases s@.len() - from,
{
    let n = s.unicode_len();
    if from >= n {
        n
    } else if s.get_char(from) == c {
        from
    } else {
        find_char(s, c, from + 1)
    }
}

/// The route segment between the first slash and the one after it: what the
/// displayed location's first path segment reads.
pub open spec fn first_segment_spec(s: Seq<char>) -> Seq<char> {
    let a = find_from(s, '/', 0);
    if a == s.len() {
        Seq::<char>::empty()
    } else {
        s.subrange(a + 1, find_from(s, '/', a + 1))
    }
}

/// Extracts the first path segment of a location; empty when the location
/// holds no slash at all.
pub fn first_segment(s: &str) -> (r: String)
    ensures
        r@ == first_segment_spec(s@),
{
    let n = s.unicode_len();
    let a = find_char(s, '/', 0);
    if a == n {
        String::new()
    } else {
        let b = find_char(s, '/', a + 1);
        let seg = s.substring_char(a + 1, b);
        seg.to_owned()
    }
}

/// What is left of `s` after a prefix `p`, or `s` itself where `p` is no
/// prefix of it.
pub open spec fn strip_prefix_spec(s: Seq<char>, p: Seq<char>) -> Seq<char> {
    if starts_with_spec(s, p) {
        s.subrange(p.len() as int, s.len() as int)
    } else {
        s
    }
}

/// Removes a leading `p` from `s`; hands `s` back unchanged when it does not
/// start with `p`.
pub fn strip_prefix_or_self(s: &str, p: &str) -> (r: String)
    ensures
        r@ == strip_prefix_spec(s@, p@),
{
    if starts_with(s, p) {
        let n = s.unicode_len();
        let k = p.unicode_len();
        let rest = s.substring_char(k, n);
        rest.to_owned()
    } else {
        s.to_owned()
    }
}

} // verus!
