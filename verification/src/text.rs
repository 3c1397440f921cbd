//! Character-level string helpers with exact contracts.

use vstd::prelude::*;
use vstd::string::*;

verus! {

/// Whether `a` and `b` hold the same characters.
pub fn str_eq(a: &str, b: &str) -> (r: bool)
    ensures
        r == (a@ == b@),
{
    let n = a.unicode_len();
    if n != b.unicode_len() {
        return false;
    }
    let mut i: usize = 0;
    while i < n
        invariant
            n == a@.len(),
            n == b@.len(),
            0 <= i <= n,
            forall|j: int| 0 <= j < i ==> a@[j] == b@[j],
        decreases n - i,
    {
        if a.get_char(i) != b.get_char(i) {
            return false;
        }
        i += 1;
    }
    assert(a@ =~= b@);
    true
}

/// Whether `s` begins with `prefix`.
pub fn starts_with(s: &str, prefix: &str) -> (r: bool)
    ensures
        r == prefix@.is_prefix_of(s@),
{
    let n = prefix.unicode_len();
    if n > s.unicode_len() {
        return false;
    }
    let mut i: usize = 0;
    while i < n
        invariant
            n == prefix@.len(),
            n <= s@.len(),
            0 <= i <= n,
            forall|j: int| 0 <= j < i ==> prefix@[j] == s@[j],
        decreases n - i,
    {
        if prefix.get_char(i) != s.get_char(i) {
            return false;
        }
        i += 1;
    }
    true
}

/// Whether `needle` occurs in `hay` at position `i`.
pub open spec fn occurs_at(hay: Seq<char>, needle: Seq<char>, i: int) -> bool {
    0 <= i && i + needle.len() <= hay.len() && hay.subrange(i, i + needle.len()) == needle
}

/// Whether `needle` occurs anywhere in `hay`.
pub open spec fn occurs_in(hay: Seq<char>, needle: Seq<char>) -> bool {
    exists|i: int| #[trigger] occurs_at(hay, needle, i)
}

fn matches_at(hay: &str, needle: &str, start: usize) -> (r: bool)
    requires
        start + needle@.len() <= hay@.len(),
        hay@.len() <= usize::MAX,
    ensures
        r == occurs_at(hay@, needle@, start as int),
{
    let n = needle.unicode_len();
    let mut i: usize = 0;
    while i < n
        invariant
            n == needle@.len(),
            start + n <= hay@.len(),
            hay@.len() <= usize::MAX,
            0 <= i <= n,
            forall|j: int| 0 <= j < i ==> needle@[j] == hay@[start + j],
        decreases n - i,
    {
        if needle.get_char(i) != hay.get_char(start + i) {
            assert(hay@.subrange(start as int, start + n)[i as int] != needle@[i as int]);
            return false;
        }
        i += 1;
    }
    assert(hay@.subrange(start as int, start + n) =~= needle@);
    true
}

/// Whether `needle` occurs in `hay` (`str::contains`).
pub fn contains(hay: &str, needle: &str) -> (r: bool)
    ensures
        r == occurs_in(hay@, needle@),
{
    let h = hay.unicode_len();
    let n = needle.unicode_len();
    if n > h {
        assert forall|i: int| !occurs_at(hay@, needle@, i) by {}
        return false;
    }
    let mut start: usize = 0;
    while start < h - n
        invariant
            h == hay@.len(),
            n == needle@.len(),
            n <= h,
            0 <= start <= h - n,
            forall|i: int| 0 <= i < start ==> !occurs_at(hay@, needle@, i),
        decreases h - n - start,
    {
        if matches_at(hay, needle, start) {
            return true;
        }
        start += 1;
    }
    if matches_at(hay, needle, start) {
        return true;
    }
    assert forall|i: int| !occurs_at(hay@, needle@, i) by {}
    false
}

/// A fresh `String` holding the characters of `s`.
pub fn owned(s: &str) -> (r: String)
    ensures
        r@ == s@,
{
    String::from_str(s)
}

/// `a` followed by `b`.
pub fn concat2(a: &str, b: &str) -> (r: String)
    ensures
        r@ == a@ + b@,
{
    let mut r = String::from_str(a);
    r.append(b);
    r
}

/// `a`, `b` and `c` in a row.
pub fn concat3(a: &str, b: &str, c: &str) -> (r: String)
    ensures
        r@ == a@ + b@ + c@,
{
    let mut r = String::from_str(a);
    r.append(b);
    r.append(c);
    r
}

/// Whether `c` has the Unicode `White_Space` property (`char::is_whitespace`).
pub open spec fn is_white_space(c: char) -> bool {
    let u = c as u32;
    (0x9 <= u <= 0xD) || u == 0x20 || u == 0x85 || u == 0xA0 || u == 0x1680 || (0x2000 <= u
        <= 0x200A) || u == 0x2028 || u == 0x2029 || u == 0x202F || u == 0x205F || u == 0x3000
}

/// `s` without its leading white space.
pub open spec fn trim_start_of(s: Seq<char>) -> Seq<char>
    decreases s.len(),
{
    if s.len() > 0 && is_white_space(s[0]) {
        trim_start_of(s.drop_first())
    } else {
        s
    }
}

/// `s` without its trailing white space.
pub open spec fn trim_end_of(s: Seq<char>) -> Seq<char>
    decreases s.len(),
{
    if s.len() > 0 && is_white_space(s.last()) {
        trim_end_of(s.drop_last())
    } else {
        s
    }
}

/// `s` without leading and trailing white space (`str::trim`).
pub open spec fn trim_of(s: Seq<char>) -> Seq<char> {
    trim_end_of(trim_start_of(s))
}

fn white_space(c: char) -> (r: bool)
    ensures
        r == is_white_space(c),
{
    let u = c as u32;
    (0x9 <= u && u <= 0xD) || u == 0x20 || u == 0x85 || u == 0xA0 || u == 0x1680 || (0x2000 <= u
        && u <= 0x200A) || u == 0x2028 || u == 0x2029 || u == 0x202F || u == 0x205F || u == 0x3000
}

proof fn lemma_trim_start_sub(s: Seq<char>, i: int)
    requires
        0 <= i <= s.len(),
        forall|j: int| 0 <= j < i ==> is_white_space(#[trigger] s[j]),
    ensures
        trim_start_of(s) == trim_start_of(s.subrange(i, s.len() as int)),
    decreases i,
{
    if i > 0 {
        assert forall|j: int| 0 <= j < i - 1 implies is_white_space(
            #[trigger] s.drop_first()[j],
        ) by {
            assert(s.drop_first()[j] == s[j + 1]);
        }
        lemma_trim_start_sub(s.drop_first(), i - 1);
        assert(s.drop_first().subrange(i - 1, s.len() - 1) =~= s.subrange(i, s.len() as int));
    } else {
        assert(s.subrange(0, s.len() as int) =~= s);
    }
}

proof fn lemma_trim_end_sub(s: Seq<char>, k: int)
    requires
        0 <= k <= s.len(),
        forall|j: int| k <= j < s.len() ==> is_white_space(#[trigger] s[j]),
    ensures
        trim_end_of(s) == trim_end_of(s.subrange(0, k)),
    decreases s.len() - k,
{
    if k < s.len() {
        assert forall|j: int| k <= j < s.len() - 1 implies is_white_space(
            #[trigger] s.drop_last()[j],
        ) by {
            assert(s.drop_last()[j] == s[j]);
        }
        assert(is_white_space(s[s.len() - 1]));
        lemma_trim_end_sub(s.drop_last(), k);
        assert(s.drop_last().subrange(0, k) =~= s.subrange(0, k));
    } else {
        assert(s.subrange(0, k) =~= s);
    }
}

/// `s` without leading and trailing white space.
pub fn trim(s: &str) -> (r: String)
    ensures
        r@ == trim_of(s@),
{
    let n = s.unicode_len();
    let mut a: usize = 0;
    while a < n && white_space(s.get_char(a))
        invariant
            n == s@.len(),
            0 <= a <= n,
            forall|j: int| 0 <= j < a ==> is_white_space(#[trigger] s@[j]),
        decreases n - a,
    {
        a += 1;
    }
    proof {
        lemma_trim_start_sub(s@, a as int);
    }
    let ghost t = s@.subrange(a as int, n as int);
    assert(trim_start_of(t) == t) by {
        if t.len() > 0 {
            assert(t[0] == s@[a as int]);
        }
    }
    let mut b: usize = n;
    while b > a && white_space(s.get_char(b - 1))
        invariant
            n == s@.len(),
            0 <= a <= b <= n,
            forall|j: int| b <= j < n ==> is_white_space(#[trigger] s@[j]),
        decreases b - a,
    {
        b -= 1;
    }
    proof {
        assert forall|j: int| b - a <= j < t.len() implies is_white_space(#[trigger] t[j]) by {
            assert(t[j] == s@[a + j]);
        }
        lemma_trim_end_sub(t, b - a);
        let u = t.subrange(0, b - a);
        assert(trim_end_of(u) == u) by {
            if u.len() > 0 {
                assert(u.last() == s@[b - 1]);
            }
        }
        assert(u =~= s@.subrange(a as int, b as int));
    }
    owned(s.substring_char(a, b))
}

} // verus!
