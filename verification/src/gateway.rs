//! The default gateway as the kernel's routing table prints it: a
//! hexadecimal number holding the IPv4 address in little-endian byte order.

use vstd::prelude::*;
use vstd::string::StrSliceExecFns;
use crate::arp::Ipv4Address;

verus! {

/// The value of a hexadecimal digit (either case), if `c` is one.
pub open spec fn hex_digit_value(c: char) -> Option<nat> {
    if '0' <= c && c <= '9' {
        Some((c as nat - '0' as nat) as nat)
    } else if 'a' <= c && c <= 'f' {
        Some((c as nat - 'a' as nat + 10) as nat)
    } else if 'A' <= c && c <= 'F' {
        Some((c as nat - 'A' as nat + 10) as nat)
    } else {
        None
    }
}

/// Every character is a hexadecimal digit.
pub open spec fn all_hex(s: Seq<char>) -> bool {
    forall|i: int| 0 <= i < s.len() ==> (#[trigger] hex_digit_value(s[i])) is Some
}

/// The number the hexadecimal digits spell (most significant first).
pub open spec fn hex_value(s: Seq<char>) -> nat
    decreases s.len(),
{
    if s.len() == 0 {
        0
    } else {
        hex_value(s.drop_last()) * 16 + hex_digit_value(s.last()).unwrap()
    }
}

/// The digits of a number: the text without one leading `+`.
pub open spec fn digits_of(s: Seq<char>) -> Seq<char> {
    if s.len() > 0 && s[0] == '+' {
        s.drop_first()
    } else {
        s
    }
}

/// What `u32::from_str_radix(s, 16)` accepts: an optional `+`, then at
/// least one hexadecimal digit and nothing else, spelling a number that
/// fits in 32 bits.
pub open spec fn parse_hex_u32(s: Seq<char>) -> Option<u32> {
    let d = digits_of(s);
    if d.len() > 0 && all_hex(d) && hex_value(d) <= u32::MAX {
        Some(hex_value(d) as u32)
    } else {
        None
    }
}

/// The octets of `v` in little-endian order (least significant first).
pub open spec fn le_octets(v: u32) -> Seq<u8> {
    seq![
        (v % 256) as u8,
        ((v / 256) % 256) as u8,
        ((v / 65536) % 256) as u8,
        (v / 16777216) as u8,
    ]
}

proof fn lemma_hex_value_prefix(s: Seq<char>, k: int)
    requires
        0 <= k <= s.len(),
        all_hex(s),
    ensures
        hex_value(s) >= hex_value(s.take(k)),
    decreases s.len(),
{
    if k < s.len() {
        assert(all_hex(s.drop_last())) by {
            assert forall|i: int| 0 <= i < s.drop_last().len() implies (#[trigger] hex_digit_value(
                s.drop_last()[i],
            )) is Some by {
                assert(hex_digit_value(s[i]) is Some);
            }
        }
        lemma_hex_value_prefix(s.drop_last(), k);
        assert(s.drop_last().take(k) =~= s.take(k));
    } else {
        assert(s.take(k) =~= s);
    }
}

fn hex_digit(c: char) -> (r: Option<u64>)
    ensures
        r matches Some(v) ==> hex_digit_value(c) == Some(v as nat),
        r is None ==> hex_digit_value(c) is None,
{
    if '0' <= c && c <= '9' {
        Some((c as u64) - ('0' as u64))
    } else if 'a' <= c && c <= 'f' {
        Some((c as u64) - ('a' as u64) + 10)
    } else if 'A' <= c && c <= 'F' {
        Some((c as u64) - ('A' as u64) + 10)
    } else {
        None
    }
}

/// The value of a hexadecimal number, as `u32::from_str_radix(s, 16)`
/// computes it.
pub fn parse_hex_u32_exec(s: &str) -> (r: Option<u32>)
    ensures
        r == parse_hex_u32(s@),
{
    let n = s.unicode_len();
    let mut start: usize = 0;
    if n > 0 && s.get_char(0) == '+' {
        start = 1;
    }
    let ghost d = digits_of(s@);
    assert(d =~= s@.subrange(start as int, n as int));
    if start >= n {
        return None;
    }
    let mut acc: u64 = 0;
    let mut i: usize = start;
    while i < n
        invariant
            n == s@.len(),
            start <= i <= n,
            d == s@.subrange(start as int, n as int),
            d == digits_of(s@),
            acc as int == hex_value(d.take(i - start)),
            acc <= u32::MAX,
            all_hex(d.take(i - start)),
        decreases n - i,
    {
        let c = s.get_char(i);
        let ghost k = i - start;
        assert(d[k] == c);
        match hex_digit(c) {
            None => {
                assert(hex_digit_value(d[k]) is None);
                assert(!all_hex(d));
                return None;
            },
            Some(v) => {
                assert(d.take(k + 1).drop_last() =~= d.take(k));
                assert(d.take(k + 1).last() == c);
                acc = acc * 16 + v;
                assert(all_hex(d.take(k + 1))) by {
                    assert forall|j: int| 0 <= j < d.take(k + 1).len() implies (
                    #[trigger] hex_digit_value(d.take(k + 1)[j])) is Some by {
                        if j < k {
                            assert(d.take(k + 1)[j] == d.take(k)[j]);
                            assert(hex_digit_value(d.take(k)[j]) is Some);
                        }
                    }
                }
                if acc > 0xffff_ffffu64 {
                    proof {
                        if all_hex(d) {
                            lemma_hex_value_prefix(d, k + 1);
                        }
                    }
                    return None;
                }
            },
        }
        i += 1;
    }
    assert(d.take(n - start) =~= d);
    Some(acc as u32)
}

/// Parse a hex gateway string (little-endian format) to an IPv4 address:
/// "0100000A" is 10.0.0.1. `None` when the text is not a 32-bit
/// hexadecimal number.
pub fn parse_hex_gateway(hex_str: &str) -> (r: Option<Ipv4Address>)
    ensures
        r is Some <==> parse_hex_u32(hex_str@) is Some,
        r matches Some(ip) ==> ip.octets_spec() == le_octets(parse_hex_u32(hex_str@).unwrap()),
{
    match parse_hex_u32_exec(hex_str) {
        None => None,
        Some(v) => {
            let ip = Ipv4Address::new(
                (v % 256) as u8,
                ((v / 256) % 256) as u8,
                ((v / 65536) % 256) as u8,
                (v / 16777216) as u8,
            );
            Some(ip)
        },
    }
}

} // verus!
