//! IPv4 addresses in dotted-decimal notation, and the broadcast addresses
//! that discovery announcements go to.

use vstd::prelude::*;
use vstd::string::*;
use crate::numparse::{all_digits, decimal_value, digit_value, is_digit, lemma_decimal_nonneg};

verus! {

/// The dot-separated parts of `s`, empty ones included.
pub open spec fn split_dots(s: Seq<char>) -> Seq<Seq<char>>
    decreases s.len(),
{
    if s.len() == 0 {
        seq![Seq::<char>::empty()]
    } else {
        let p = split_dots(s.drop_last());
        if s.last() == '.' {
            p.push(Seq::<char>::empty())
        } else {
            p.update(p.len() - 1, p.last().push(s.last()))
        }
    }
}

/// Whether `p` spells an octet the way IPv4 parsing accepts it: one to
/// three decimal digits, no leading zero unless it is `0` itself, and a
/// value no greater than 255.
pub open spec fn is_octet(p: Seq<char>) -> bool {
    &&& 1 <= p.len() <= 3
    &&& all_digits(p)
    &&& !(p.len() > 1 && p[0] == '0')
    &&& decimal_value(p) <= 255
}

/// The address that `s` spells in dotted-decimal notation: exactly four
/// octets separated by dots, nothing before or after.
pub open spec fn spec_parse_ipv4(s: Seq<char>) -> Option<Seq<u8>> {
    let p = split_dots(s);
    if p.len() == 4 && is_octet(p[0]) && is_octet(p[1]) && is_octet(p[2]) && is_octet(p[3]) {
        Some(
            seq![
                decimal_value(p[0]) as u8,
                decimal_value(p[1]) as u8,
                decimal_value(p[2]) as u8,
                decimal_value(p[3]) as u8,
            ],
        )
    } else {
        None
    }
}

/// The limited broadcast address `255.255.255.255`.
pub open spec fn global_broadcast() -> Seq<u8> {
    seq![255u8, 255u8, 255u8, 255u8]
}

/// The broadcast address of the `/24` subnet of `local_ip`, or the limited
/// broadcast address where `local_ip` is no IPv4 address.
pub open spec fn spec_subnet_broadcast(local_ip: Seq<char>) -> Seq<u8> {
    match spec_parse_ipv4(local_ip) {
        Some(a) => seq![a[0], a[1], a[2], 255u8],
        None => global_broadcast(),
    }
}

proof fn lemma_split_nonempty(s: Seq<char>)
    ensures
        split_dots(s).len() >= 1,
        split_dots(s).len() <= s.len() + 1,
    decreases s.len(),
{
    if s.len() > 0 {
        lemma_split_nonempty(s.drop_last());
    }
}

/// Parses `s` as an IPv4 address in dotted-decimal notation
/// (`Ipv4Addr::from_str`).
pub fn parse_ipv4(s: &str) -> (r: Option<[u8; 4]>)
    ensures
        match spec_parse_ipv4(s@) {
            Some(a) => r matches Some(b) && b@ == a,
            None => r is None,
        },
{
    let len = s.unicode_len();
    let mut done: Vec<u8> = Vec::new();
    let mut dots: usize = 0;
    let mut all_ok: bool = true;
    let mut cur_len: usize = 0;
    let mut cur_digits: bool = true;
    let mut cur_lead_zero: bool = false;
    let mut cur_val: u32 = 0;
    let mut i: usize = 0;
    proof {
        assert(s@.subrange(0, 0) =~= Seq::<char>::empty());
    }
    while i < len
        invariant
            len == s@.len(),
            0 <= i <= len,
            dots <= i,
            cur_len <= i,
            ({
                let parts = split_dots(s@.subrange(0, i as int));
                let last = parts.last();
                &&& parts.len() == dots + 1
                &&& all_ok == (forall|j: int| 0 <= j < dots ==> is_octet(#[trigger] parts[j]))
                &&& done@.len() == if dots < 3 { dots as int } else { 3 }
                &&& forall|j: int|
                    0 <= j < done@.len() ==> is_octet(#[trigger] parts[j]) ==> done@[j]
                        == decimal_value(parts[j])
                &&& cur_len == last.len()
                &&& cur_digits == all_digits(last)
                &&& last.len() > 0 ==> cur_lead_zero == (last[0] == '0')
                &&& cur_digits ==> cur_val == if decimal_value(last) < 256 {
                    decimal_value(last)
                } else {
                    256
                }
                &&& cur_val <= 256
            }),
        decreases len - i,
    {
        let c = s.get_char(i);
        let ghost prefix = s@.subrange(0, i as int);
        let ghost next = s@.subrange(0, i + 1);
        let ghost parts = split_dots(prefix);
        proof {
            assert(next.drop_last() =~= prefix);
            assert(next.last() == c);
            lemma_split_nonempty(prefix);
        }
        if c == '.' {
            let part_ok = cur_digits && 1 <= cur_len && cur_len <= 3 && !(cur_len > 1
                && cur_lead_zero) && cur_val <= 255;
            assert(part_ok == is_octet(parts.last()));
            all_ok = all_ok && part_ok;
            if done.len() < 3 {
                if cur_val <= 255 {
                    done.push(cur_val as u8);
                } else {
                    done.push(0);
                }
            }
            dots = dots + 1;
            cur_len = 0;
            cur_digits = true;
            cur_lead_zero = false;
            cur_val = 0;
            proof {
                let np = split_dots(next);
                assert(np == parts.push(Seq::<char>::empty()));
                assert(all_ok == (forall|j: int| 0 <= j < dots ==> is_octet(#[trigger] np[j])))
                    by {
                    if all_ok {
                        assert forall|j: int| 0 <= j < dots implies is_octet(#[trigger] np[j]) by {
                            if j < dots - 1 {
                                assert(np[j] == parts[j]);
                            } else {
                                assert(np[j] == parts.last());
                            }
                        }
                    } else {
                        if !part_ok {
                            assert(np[dots - 1] == parts.last());
                        } else {
                            let k = choose|k: int| 0 <= k < dots - 1 && !is_octet(parts[k]);
                            assert(np[k] == parts[k]);
                        }
                    }
                }
                assert(np.last() =~= Seq::<char>::empty());
                assert(all_digits(np.last()));
                assert forall|j: int|
                    0 <= j < done@.len() && is_octet(#[trigger] np[j]) implies done@[j]
                        == decimal_value(np[j]) by {
                    if j < dots - 1 {
                        assert(np[j] == parts[j]);
                    } else {
                        assert(np[j] == parts.last());
                    }
                }
            }
        } else {
            let ghost last = parts.last();
            let ghost nlast = last.push(c);
            let is_dig = '0' <= c && c <= '9';
            if cur_len == 0 {
                cur_lead_zero = c == '0';
            }
            if cur_digits && is_dig {
                let d: u32 = c as u32 - '0' as u32;
                proof {
                    lemma_decimal_nonneg(last);
                    assert(nlast.drop_last() =~= last);
                    assert(decimal_value(nlast) == decimal_value(last) * 10 + digit_value(c));
                }
                let t: u32 = cur_val * 10 + d;
                if t < 256 {
                    cur_val = t;
                } else {
                    cur_val = 256;
                }
            }
            cur_digits = cur_digits && is_dig;
            cur_len = cur_len + 1;
            proof {
                let np = split_dots(next);
                assert(np == parts.update(parts.len() - 1, nlast));
                assert(np.last() == nlast);
                assert(all_digits(nlast) == (all_digits(last) && is_digit(c))) by {
                    if all_digits(last) && is_digit(c) {
                        assert forall|j: int| 0 <= j < nlast.len() implies is_digit(
                            #[trigger] nlast[j],
                        ) by {
                            if j < last.len() {
                                assert(nlast[j] == last[j]);
                            }
                        }
                    }
                    if all_digits(nlast) {
                        assert(nlast[nlast.len() - 1] == c);
                        assert forall|j: int| 0 <= j < last.len() implies is_digit(
                            #[trigger] last[j],
                        ) by {
                            assert(nlast[j] == last[j]);
                        }
                    }
                }
                if last.len() > 0 {
                    assert(nlast[0] == last[0]);
                }
                assert(all_ok == (forall|j: int| 0 <= j < dots ==> is_octet(#[trigger] np[j])))
                    by {
                    assert forall|j: int| 0 <= j < dots implies np[j] == parts[j] by {}
                }
                assert forall|j: int|
                    0 <= j < done@.len() && is_octet(#[trigger] np[j]) implies done@[j]
                        == decimal_value(np[j]) by {
                    assert(np[j] == parts[j]);
                }
            }
        }
        i += 1;
    }
    let ghost parts = split_dots(s@.subrange(0, len as int));
    assert(s@.subrange(0, len as int) =~= s@);
    let last_ok = cur_digits && 1 <= cur_len && cur_len <= 3 && !(cur_len > 1 && cur_lead_zero)
        && cur_val <= 255;
    assert(last_ok == is_octet(parts.last()));
    if dots == 3 && all_ok && last_ok {
        let r = [done[0], done[1], done[2], cur_val as u8];
        assert(parts[3] == parts.last());
        assert(r@ =~= spec_parse_ipv4(s@)->Some_0);
        Some(r)
    } else {
        proof {
            if dots == 3 && !all_ok {
                let k = choose|k: int| 0 <= k < 3 && !is_octet(parts[k]);
            }
        }
        None
    }
}

/// The broadcast address for the subnet of `local_ip`: its first three
/// octets and 255, or `255.255.255.255` where `local_ip` is no address.
pub fn subnet_broadcast(local_ip: &str) -> (r: [u8; 4])
    ensures
        r@ == spec_subnet_broadcast(local_ip@),
{
    match parse_ipv4(local_ip) {
        Some(a) => {
            let r = [a[0], a[1], a[2], 255];
            assert(r@ =~= spec_subnet_broadcast(local_ip@));
            r
        },
        None => {
            let r = [255, 255, 255, 255];
            assert(r@ =~= global_broadcast());
            r
        },
    }
}

/// The addresses a discovery announcement is sent to: the limited
/// broadcast address, then the subnet's broadcast address where it differs.
pub fn broadcast_addresses(local_ip: &str) -> (r: Vec<[u8; 4]>)
    ensures
        r@.len() >= 1,
        r@[0]@ == global_broadcast(),
        spec_subnet_broadcast(local_ip@) == global_broadcast() ==> r@.len() == 1,
        spec_subnet_broadcast(local_ip@) != global_broadcast() ==> r@.len() == 2 && r@[1]@
            == spec_subnet_broadcast(local_ip@),
{
    let global: [u8; 4] = [255, 255, 255, 255];
    assert(global@ =~= global_broadcast());
    let subnet = subnet_broadcast(local_ip);
    let mut r: Vec<[u8; 4]> = Vec::new();
    r.push(global);
    let same = subnet[0] == 255 && subnet[1] == 255 && subnet[2] == 255 && subnet[3] == 255;
    if !same {
        assert(subnet@ != global_broadcast()) by {
            if subnet@ == global_broadcast() {
                assert(subnet@[0] == 255 && subnet@[1] == 255);
            }
        }
        r.push(subnet);
    } else {
        assert(subnet@ =~= global_broadcast());
    }
    r
}

} // verus!
