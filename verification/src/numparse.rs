//! Decimal parsing of unsigned integers and booleans, with the grammar of
//! Rust's `FromStr` for those types: an optional `+` and then one or more
//! ASCII digits, the value at most the type's maximum; `true` or `false`.

use vstd::prelude::*;
use vstd::string::*;

verus! {

/// Whether `c` is an ASCII decimal digit.
pub open spec fn is_digit(c: char) -> bool {
    '0' <= c <= '9'
}

/// The value of the ASCII decimal digit `c`.
pub open spec fn digit_value(c: char) -> int {
    c as int - '0' as int
}

/// Whether every character of `s` is an ASCII decimal digit.
pub open spec fn all_digits(s: Seq<char>) -> bool {
    forall|i: int| 0 <= i < s.len() ==> is_digit(#[trigger] s[i])
}

/// The number that a run of decimal digits denotes.
pub open spec fn decimal_value(s: Seq<char>) -> int
    decreases s.len(),
{
    if s.len() == 0 {
        0
    } else {
        decimal_value(s.drop_last()) * 10 + digit_value(s.last())
    }
}

/// The digits of `s`: `s` without one leading `+`.
pub open spec fn unsigned_digits(s: Seq<char>) -> Seq<char> {
    if s.len() > 0 && s[0] == '+' {
        s.drop_first()
    } else {
        s
    }
}

/// The unsigned integer that `s` spells, if it spells one no greater than
/// `max`.
pub open spec fn spec_parse_unsigned(s: Seq<char>, max: int) -> Option<int> {
    let d = unsigned_digits(s);
    if d.len() > 0 && all_digits(d) && decimal_value(d) <= max {
        Some(decimal_value(d))
    } else {
        None
    }
}

/// The boolean that `s` spells: exactly `true` or `false`.
pub open spec fn spec_parse_bool(s: Seq<char>) -> Option<bool> {
    if s == "true"@ {
        Some(true)
    } else if s == "false"@ {
        Some(false)
    } else {
        None
    }
}

/// A run of decimal digits denotes a number no less than zero.
pub proof fn lemma_decimal_nonneg(s: Seq<char>)
    requires
        all_digits(s),
    ensures
        decimal_value(s) >= 0,
    decreases s.len(),
{
    if s.len() > 0 {
        assert(all_digits(s.drop_last())) by {
            assert forall|i: int| 0 <= i < s.drop_last().len() implies is_digit(
                #[trigger] s.drop_last()[i],
            ) by {
                assert(s.drop_last()[i] == s[i]);
            }
        }
        lemma_decimal_nonneg(s.drop_last());
        assert(is_digit(s[s.len() - 1]));
    }
}

/// Parses `s` as an unsigned decimal integer no greater than `max`.
pub fn parse_unsigned(s: &str, max: u64) -> (r: Option<u64>)
    ensures
        match spec_parse_unsigned(s@, max as int) {
            Some(v) => r == Some(v as u64),
            None => r is None,
        },
        spec_parse_unsigned(s@, max as int) matches Some(v) ==> 0 <= v <= max,
{
    proof {
        if spec_parse_unsigned(s@, max as int) is Some {
            lemma_decimal_nonneg(unsigned_digits(s@));
        }
    }
    let len = s.unicode_len();
    let mut start: usize = 0;
    if len > 0 && s.get_char(0) == '+' {
        start = 1;
    }
    let ghost d = unsigned_digits(s@);
    assert(d =~= s@.subrange(start as int, len as int));
    if start >= len {
        return None;
    }
    let cap: u128 = max as u128 + 1;
    let mut acc: u128 = 0;
    let mut i: usize = start;
    while i < len
        invariant
            len == s@.len(),
            start <= i <= len,
            d =~= s@.subrange(start as int, len as int),
            d == unsigned_digits(s@),
            cap == max + 1,
            all_digits(s@.subrange(start as int, i as int)),
            acc == if decimal_value(s@.subrange(start as int, i as int)) < cap {
                decimal_value(s@.subrange(start as int, i as int))
            } else {
                cap as int
            },
        decreases len - i,
    {
        let c = s.get_char(i);
        let ghost prev = s@.subrange(start as int, i as int);
        let ghost next = s@.subrange(start as int, i + 1);
        assert(next.drop_last() =~= prev);
        assert(next.last() == c);
        if !('0' <= c && c <= '9') {
            assert(!all_digits(d)) by {
                assert(d[i - start] == c);
            }
            return None;
        }
        let dg: u128 = (c as u32 - '0' as u32) as u128;
        proof {
            lemma_decimal_nonneg(prev);
        }
        let t: u128 = acc * 10 + dg;
        if t < cap {
            acc = t;
        } else {
            acc = cap;
        }
        i += 1;
        assert(all_digits(s@.subrange(start as int, i as int))) by {
            assert forall|j: int| 0 <= j < next.len() implies is_digit(#[trigger] next[j]) by {
                if j < prev.len() {
                    assert(next[j] == prev[j]);
                }
            }
        }
    }
    assert(s@.subrange(start as int, len as int) =~= d);
    if acc < cap {
        Some(acc as u64)
    } else {
        None
    }
}

/// Parses `s` as `true` or `false`.
pub fn parse_bool(s: &str) -> (r: Option<bool>)
    ensures
        r == spec_parse_bool(s@),
{
    if crate::text::str_eq(s, "true") {
        Some(true)
    } else if crate::text::str_eq(s, "false") {
        Some(false)
    } else {
        None
    }
}

/// The character of the decimal digit `d`.
pub open spec fn digit_char(d: int) -> char {
    seq!['0', '1', '2', '3', '4', '5', '6', '7', '8', '9'][d]
}

/// The shortest decimal spelling of `n`.
pub open spec fn decimal_digits(n: nat) -> Seq<char>
    decreases n,
{
    if n < 10 {
        seq![digit_char(n as int)]
    } else {
        decimal_digits(n / 10).push(digit_char(n as int % 10))
    }
}

fn append_digit(s: &mut String, d: u64)
    requires
        d < 10,
    ensures
        final(s)@ == old(s)@.push(digit_char(d as int)),
{
    proof {
        reveal_strlit("0");
        reveal_strlit("1");
        reveal_strlit("2");
        reveal_strlit("3");
        reveal_strlit("4");
        reveal_strlit("5");
        reveal_strlit("6");
        reveal_strlit("7");
        reveal_strlit("8");
        reveal_strlit("9");
    }
    let t = match d {
        0 => "0",
        1 => "1",
        2 => "2",
        3 => "3",
        4 => "4",
        5 => "5",
        6 => "6",
        7 => "7",
        8 => "8",
        _ => "9",
    };
    assert(t@ =~= seq![digit_char(d as int)]);
    s.append(t);
}

/// Appends the decimal spelling of `n` to `s`.
pub fn append_decimal(s: &mut String, n: u64)
    ensures
        final(s)@ == old(s)@ + decimal_digits(n as nat),
    decreases n,
{
    if n >= 10 {
        append_decimal(s, n / 10);
    }
    append_digit(s, n % 10);
    assert(old(s)@ + decimal_digits(n as nat) =~= (if n >= 10 {
        old(s)@ + decimal_digits((n / 10) as nat)
    } else {
        old(s)@
    }).push(digit_char((n % 10) as int)));
}

/// The decimal spelling of `n` (`n.to_string()`).
pub fn decimal_string(n: u64) -> (r: String)
    ensures
        r@ == decimal_digits(n as nat),
{
    let mut s = String::new();
    append_decimal(&mut s, n);
    assert(Seq::<char>::empty() + decimal_digits(n as nat) =~= decimal_digits(n as nat));
    s
}

proof fn lemma_decimal_digits(n: nat)
    ensures
        decimal_digits(n).len() > 0,
        all_digits(decimal_digits(n)),
        decimal_value(decimal_digits(n)) == n,
        decimal_digits(n)[0] != '+',
    decreases n,
{
    let d = decimal_digits(n);
    let k = n as int % 10;
    assert(digit_value(digit_char(k)) == k && is_digit(digit_char(k))) by {
        assert(0 <= k < 10);
        if k == 0 {} else if k == 1 {} else if k == 2 {} else if k == 3 {} else if k == 4 {}
        else if k == 5 {} else if k == 6 {} else if k == 7 {} else if k == 8 {} else {}
    }
    if n < 10 {
        assert(d.drop_last() =~= Seq::<char>::empty());
        assert(decimal_value(Seq::<char>::empty()) == 0);
    }
    if n >= 10 {
        lemma_decimal_digits(n / 10);
        let p = decimal_digits(n / 10);
        assert(d.drop_last() =~= p);
        assert forall|i: int| 0 <= i < d.len() implies is_digit(#[trigger] d[i]) by {
            if i < p.len() {
                assert(d[i] == p[i]);
            }
        }
        assert(d[0] == p[0]);
    }
}

/// Spelling a number in decimal and parsing it back gives the number, for
/// every bound the number fits under.
pub proof fn law_decimal_roundtrip(n: nat, max: int)
    requires
        n <= max,
    ensures
        spec_parse_unsigned(decimal_digits(n), max) == Some(n as int),
{
    lemma_decimal_digits(n);
    assert(unsigned_digits(decimal_digits(n)) == decimal_digits(n));
}

} // verus!
