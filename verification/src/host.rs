//! Reading the host's network configuration from the text the kernel
//! exposes: whitespace-separated fields of `/proc/net/route` (whose default
//! route gives the gateway) and the PCI address in a sysfs device link.

use vstd::prelude::*;
use vstd::string::StrSliceExecFns;
use crate::arp::Ipv4Address;
use crate::gateway::{le_octets, parse_hex_gateway, parse_hex_u32};

verus! {

/// Unicode white space (the `White_Space` property, as `char::is_whitespace`
/// tests it).
pub open spec fn is_ws(c: char) -> bool {
    ||| ('\u{9}' <= c && c <= '\u{D}')
    ||| c == ' '
    ||| c == '\u{85}'
    ||| c == '\u{A0}'
    ||| c == '\u{1680}'
    ||| ('\u{2000}' <= c && c <= '\u{200A}')
    ||| c == '\u{2028}'
    ||| c == '\u{2029}'
    ||| c == '\u{202F}'
    ||| c == '\u{205F}'
    ||| c == '\u{3000}'
}

/// Whether `c` is white space.
pub fn is_whitespace(c: char) -> (r: bool)
    ensures
        r == is_ws(c),
{
    ('\u{9}' <= c && c <= '\u{D}') || c == ' ' || c == '\u{85}' || c == '\u{A0}' || c == '\u{1680}'
        || ('\u{2000}' <= c && c <= '\u{200A}') || c == '\u{2028}' || c == '\u{2029}' || c
        == '\u{202F}' || c == '\u{205F}' || c == '\u{3000}'
}

/// The maximal runs of non-white-space characters of `s`, in order (what
/// `str::split_whitespace` yields).
pub open spec fn fields(s: Seq<char>) -> Seq<Seq<char>>
    decreases s.len(),
{
    if s.len() == 0 {
        Seq::empty()
    } else {
        let prev = fields(s.drop_last());
        let c = s.last();
        if is_ws(c) {
            prev
        } else if s.len() >= 2 && !is_ws(s[s.len() - 2]) {
            prev.update(prev.len() - 1, prev.last().push(c))
        } else {
            prev.push(seq![c])
        }
    }
}

/// Split `s` into its whitespace-separated fields.
pub fn split_fields(s: &str) -> (r: Vec<String>)
    ensures
        r.deep_view() == fields(s@),
{
    let n = s.unicode_len();
    let mut out: Vec<String> = Vec::new();
    let mut in_field = false;
    let mut start: usize = 0;
    let mut i: usize = 0;
    while i < n
        invariant
            n == s@.len(),
            i <= n,
            start <= i,
            in_field ==> start < i && !is_ws(s@[i - 1]),
            !in_field ==> (i == 0 || is_ws(s@[i - 1])),
            in_field ==> fields(s@.take(i as int)) == out.deep_view().push(
                s@.subrange(start as int, i as int),
            ),
            !in_field ==> fields(s@.take(i as int)) == out.deep_view(),
        decreases n - i,
    {
        let c = s.get_char(i);
        let ghost t = s@.take(i + 1);
        assert(t.drop_last() =~= s@.take(i as int));
        assert(t.last() == c);
        if is_whitespace(c) {
            if in_field {
                let piece = String::from_str(s.substring_char(start, i));
                let ghost before = out.deep_view();
                out.push(piece);
                assert(out.deep_view() =~= before.push(s@.subrange(start as int, i as int)));
                in_field = false;
            }
        } else {
            if in_field {
                assert(t[t.len() - 2] == s@[i - 1]);
                assert(s@.subrange(start as int, i + 1) =~= s@.subrange(start as int, i as int).push(c));
                let ghost prev = fields(s@.take(i as int));
                assert(prev.update(prev.len() - 1, prev.last().push(c)) =~= out.deep_view().push(
                    s@.subrange(start as int, i + 1),
                ));
            } else {
                if i > 0 {
                    assert(t[t.len() - 2] == s@[i - 1]);
                }
                start = i;
                assert(s@.subrange(start as int, i + 1) =~= seq![c]);
                assert(out.deep_view().push(seq![c]) =~= out.deep_view().push(
                    s@.subrange(start as int, i + 1),
                ));
                in_field = true;
            }
        }
        i += 1;
    }
    assert(s@.take(n as int) =~= s@);
    if in_field {
        let piece = String::from_str(s.substring_char(start, n));
        let ghost before = out.deep_view();
        out.push(piece);
        assert(out.deep_view() =~= before.push(s@.subrange(start as int, n as int)));
    }
    out
}

/// The number of the default route's gateway in the lines of the routing
/// table that follow its header: the first line with at least three fields
/// whose destination (second field) is `00000000` decides, by its gateway
/// (third field) as a hexadecimal number; `None` when there is no such line
/// or its gateway is not a 32-bit hexadecimal number.
pub open spec fn default_route_gateway(lines: Seq<Seq<char>>) -> Option<u32>
    decreases lines.len(),
{
    if lines.len() == 0 {
        None
    } else {
        let f = fields(lines[0]);
        if f.len() >= 3 && f[1] == "00000000"@ {
            parse_hex_u32(f[2])
        } else {
            default_route_gateway(lines.drop_first())
        }
    }
}

/// Get the default gateway from the lines of `/proc/net/route` (the first
/// line is the header): the little-endian hexadecimal gateway of the first
/// default route.
pub fn default_gateway_from_route_table(lines: &Vec<String>) -> (r: Option<Ipv4Address>)
    ensures
        lines@.len() == 0 ==> r is None,
        lines@.len() > 0 ==> (r is Some <==> default_route_gateway(lines.deep_view().drop_first()) is Some),
        r matches Some(ip) ==> lines@.len() > 0 && ip.octets_spec() == le_octets(
            default_route_gateway(lines.deep_view().drop_first()).unwrap(),
        ),
{
    if lines.len() == 0 {
        return None;
    }
    let zero = String::from_str("00000000");
    let ghost all = lines.deep_view().drop_first();
    let mut i: usize = 1;
    assert(all.subrange(0, all.len() as int) =~= all);
    while i < lines.len()
        invariant
            1 <= i <= lines@.len(),
            all == lines.deep_view().drop_first(),
            zero@ == "00000000"@,
            default_route_gateway(all) == default_route_gateway(all.subrange(i - 1, all.len() as int)),
        decreases lines.len() - i,
    {
        let f = split_fields(lines[i].as_str());
        let ghost rest = all.subrange(i - 1, all.len() as int);
        assert(rest[0] == lines@[i as int]@);
        assert(rest.drop_first() =~= all.subrange(i as int, all.len() as int));
        if f.len() >= 3 {
            assert(f.deep_view()[1] == f@[1]@);
            if f[1] == zero {
                assert(f.deep_view()[2] == f@[2]@);
                return parse_hex_gateway(f[2].as_str());
            }
        }
        i += 1;
    }
    None
}

/// The text looks like a PCI address: it contains both a `:` and a `.`
/// (as in `0000:00:04.0`).
pub open spec fn looks_like_pci(s: Seq<char>) -> bool {
    s.contains(':') && s.contains('.')
}

/// Whether the text looks like a PCI address.
pub fn is_pci_addr_like(s: &str) -> (r: bool)
    ensures
        r == looks_like_pci(s@),
{
    let n = s.unicode_len();
    let mut colon = false;
    let mut dot = false;
    let mut i: usize = 0;
    while i < n
        invariant
            n == s@.len(),
            i <= n,
            colon == s@.take(i as int).contains(':'),
            dot == s@.take(i as int).contains('.'),
        decreases n - i,
    {
        let c = s.get_char(i);
        let ghost t = s@.take(i + 1);
        assert(t =~= s@.take(i as int).push(c));
        if c == ':' {
            colon = true;
        }
        if c == '.' {
            dot = true;
        }
        proof {
            if t.contains(':') && !s@.take(i as int).contains(':') {
                let k = choose|k: int| 0 <= k < t.len() && t[k] == ':';
                if k < i {
                    assert(s@.take(i as int)[k] == ':');
                }
            }
            if t.contains('.') && !s@.take(i as int).contains('.') {
                let k = choose|k: int| 0 <= k < t.len() && t[k] == '.';
                if k < i {
                    assert(s@.take(i as int)[k] == '.');
                }
            }
            if colon && !s@.take(i as int).contains(':') {
                assert(t[i as int] == ':');
            }
            if dot && !s@.take(i as int).contains('.') {
                assert(t[i as int] == '.');
            }
            if s@.take(i as int).contains(':') {
                let k = choose|k: int| 0 <= k < i && s@.take(i as int)[k] == ':';
                assert(t[k] == ':');
            }
            if s@.take(i as int).contains('.') {
                let k = choose|k: int| 0 <= k < i && s@.take(i as int)[k] == '.';
                assert(t[k] == '.');
            }
        }
        i += 1;
    }
    assert(s@.take(n as int) =~= s@);
    colon && dot
}

/// The name of a lower-device link of a bonded or virtual interface
/// starts with `lower_`.
pub open spec fn names_lower_link(name: Seq<char>) -> bool {
    name.len() >= 6 && name.subrange(0, 6) == "lower_"@
}

/// Whether a sysfs entry name is a lower-device link (`lower_*`).
pub fn is_lower_link(name: &str) -> (r: bool)
    ensures
        r == names_lower_link(name@),
{
    let prefix = "lower_";
    proof {
        reveal_strlit("lower_");
    }
    let n = name.unicode_len();
    if n < 6 {
        return false;
    }
    let mut i: usize = 0;
    while i < 6
        invariant
            n == name@.len(),
            6 <= n,
            i <= 6,
            prefix@ == "lower_"@,
            prefix@.len() == 6,
            forall|k: int| 0 <= k < i ==> name@[k] == prefix@[k],
        decreases 6 - i,
    {
        if name.get_char(i) != prefix.get_char(i) {
            assert(name@.subrange(0, 6)[i as int] != "lower_"@[i as int]);
            return false;
        }
        i += 1;
    }
    assert(name@.subrange(0, 6) =~= "lower_"@);
    true
}

/// The `/`-separated components of a path, empty ones included (what
/// `str::split('/')` yields).
pub open spec fn components(s: Seq<char>) -> Seq<Seq<char>>
    decreases s.len(),
{
    if s.len() == 0 {
        seq![Seq::empty()]
    } else {
        let prev = components(s.drop_last());
        if s.last() == '/' {
            prev.push(Seq::empty())
        } else {
            prev.update(prev.len() - 1, prev.last().push(s.last()))
        }
    }
}

/// The first component that looks like a PCI address, if any.
pub open spec fn first_pci_component(comps: Seq<Seq<char>>) -> Option<Seq<char>>
    decreases comps.len(),
{
    if comps.len() == 0 {
        None
    } else if looks_like_pci(comps[0]) {
        Some(comps[0])
    } else {
        first_pci_component(comps.drop_first())
    }
}

/// Split a path at every `/`.
pub fn split_components(s: &str) -> (r: Vec<String>)
    ensures
        r.deep_view() == components(s@),
{
    let n = s.unicode_len();
    let mut out: Vec<String> = Vec::new();
    let mut start: usize = 0;
    let mut i: usize = 0;
    assert(s@.take(0) =~= Seq::<char>::empty());
    assert(s@.subrange(0, 0) =~= Seq::<char>::empty());
    assert(out.deep_view() =~= Seq::<Seq<char>>::empty());
    while i < n
        invariant
            n == s@.len(),
            start <= i <= n,
            components(s@.take(i as int)) == out.deep_view().push(s@.subrange(start as int, i as int)),
        decreases n - i,
    {
        let c = s.get_char(i);
        let ghost t = s@.take(i + 1);
        assert(t.drop_last() =~= s@.take(i as int));
        assert(t.last() == c);
        if c == '/' {
            let piece = String::from_str(s.substring_char(start, i));
            let ghost before = out.deep_view();
            out.push(piece);
            assert(out.deep_view() =~= before.push(s@.subrange(start as int, i as int)));
            start = i + 1;
            assert(s@.subrange(start as int, i + 1) =~= Seq::<char>::empty());
        } else {
            assert(s@.subrange(start as int, i + 1) =~= s@.subrange(start as int, i as int).push(c));
            let ghost prev = components(s@.take(i as int));
            assert(prev.update(prev.len() - 1, prev.last().push(c)) =~= out.deep_view().push(
                s@.subrange(start as int, i + 1),
            ));
        }
        i += 1;
    }
    assert(s@.take(n as int) =~= s@);
    let piece = String::from_str(s.substring_char(start, n));
    let ghost before = out.deep_view();
    out.push(piece);
    assert(out.deep_view() =~= before.push(s@.subrange(start as int, n as int)));
    out
}

/// Find the PCI address in the target of a lower-device link, such as
/// `../../../pci79ba:00/79ba:00:02.0/net/enP31162s2`: the first path
/// component that looks like a PCI address.
pub fn pci_addr_in_link_path(path: &str) -> (r: Option<String>)
    ensures
        r matches Some(a) ==> first_pci_component(components(path@)) == Some(a@),
        r is None ==> first_pci_component(components(path@)) is None,
{
    let comps = split_components(path);
    let ghost all = comps.deep_view();
    let mut k: usize = 0;
    assert(all.subrange(0, all.len() as int) =~= all);
    while k < comps.len()
        invariant
            all == comps.deep_view(),
            all == components(path@),
            k <= comps.len(),
            first_pci_component(all) == first_pci_component(all.subrange(k as int, all.len() as int)),
        decreases comps.len() - k,
    {
        let ghost rest = all.subrange(k as int, all.len() as int);
        assert(rest[0] == comps@[k as int]@);
        assert(rest.drop_first() =~= all.subrange(k + 1, all.len() as int));
        if is_pci_addr_like(comps[k].as_str()) {
            return Some(String::from_str(comps[k].as_str()));
        }
        k += 1;
    }
    assert(all.subrange(k as int, all.len() as int) =~= Seq::<Seq<char>>::empty());
    None
}

} // verus!
