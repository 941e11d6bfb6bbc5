//! ARP for multi-queue setups: recognizing ARP replies in raw Ethernet
//! frames, building the ARP replies that teach a queue's stack a neighbor,
//! and the cache of learned IPv4-to-MAC bindings that queue 0 fills and
//! every queue reads.

use vstd::prelude::*;
use std::collections::HashMap;
use vstd::std_specs::iter::IteratorSpec;

verus! {

broadcast use vstd::std_specs::hash::group_hash_axioms;

/// A MAC address (6 bytes).
pub type MacAddress = [u8; 6];

/// An IPv4 address, by its four octets in network order.
#[derive(Debug, Clone, Copy, PartialEq, Eq, Hash, Structural)]
pub struct Ipv4Address {
    a: u8,
    b: u8,
    c: u8,
    d: u8,
}

/// The 32-bit number of the address `a.b.c.d` (`a` most significant).
pub open spec fn bits_of(a: u8, b: u8, c: u8, d: u8) -> int {
    a as int * 16777216 + b as int * 65536 + c as int * 256 + d as int
}

impl Ipv4Address {
    /// The four octets, most significant first.
    pub closed spec fn octets_spec(&self) -> Seq<u8> {
        seq![self.a, self.b, self.c, self.d]
    }

    /// The address as a 32-bit number.
    pub closed spec fn bits(&self) -> u32 {
        bits_of(self.a, self.b, self.c, self.d) as u32
    }

    /// The address `a.b.c.d`.
    pub fn new(a: u8, b: u8, c: u8, d: u8) -> (r: Self)
        ensures
            r.octets_spec() == seq![a, b, c, d],
            r.bits() == bits_of(a, b, c, d),
    {
        Ipv4Address { a, b, c, d }
    }

    /// The four octets, most significant first.
    pub fn octets(&self) -> (r: [u8; 4])
        ensures
            r@ == self.octets_spec(),
    {
        let r = [self.a, self.b, self.c, self.d];
        assert(r@ =~= self.octets_spec());
        r
    }

    /// The address as a 32-bit number (`a` in the most significant byte).
    pub fn to_bits(&self) -> (r: u32)
        ensures
            r == self.bits(),
    {
        proof {
            lemma_bits_in_range(self.a, self.b, self.c, self.d);
        }
        (self.a as u32) * 16777216 + (self.b as u32) * 65536 + (self.c as u32) * 256 + (
        self.d as u32)
    }

    /// The address whose 32-bit number is `bits`.
    pub fn from_bits(bits: u32) -> (r: Self)
        ensures
            r.bits() == bits,
    {
        let a = (bits / 16777216) as u8;
        let b = ((bits / 65536) % 256) as u8;
        let c = ((bits / 256) % 256) as u8;
        let d = (bits % 256) as u8;
        assert(bits_of(a, b, c, d) == bits) by (nonlinear_arith)
            requires
                a == bits / 16777216,
                b == (bits / 65536) % 256,
                c == (bits / 256) % 256,
                d == bits % 256,
        ;
        Ipv4Address { a, b, c, d }
    }
}

proof fn lemma_bits_in_range(a: u8, b: u8, c: u8, d: u8)
    ensures
        0 <= bits_of(a, b, c, d) <= u32::MAX,
{
    assert(0 <= bits_of(a, b, c, d) <= u32::MAX) by (nonlinear_arith)
        requires
            a <= 255,
            b <= 255,
            c <= 255,
            d <= 255,
    ;
}

/// Different addresses have different numbers.
pub proof fn lemma_bits_injective(x: Ipv4Address, y: Ipv4Address)
    ensures
        x.bits() == y.bits() <==> x == y,
{
    lemma_bits_in_range(x.a, x.b, x.c, x.d);
    lemma_bits_in_range(y.a, y.b, y.c, y.d);
    if x.bits() == y.bits() {
        let (xa, xb, xc, xd, ya, yb, yc, yd) = (x.a, x.b, x.c, x.d, y.a, y.b, y.c, y.d);
        assert(xa == ya && xb == yb && xc == yc && xd == yd) by (nonlinear_arith)
            requires
                bits_of(xa, xb, xc, xd) == bits_of(ya, yb, yc, yd),
                xa <= 255,
                xb <= 255,
                xc <= 255,
                xd <= 255,
                ya <= 255,
                yb <= 255,
                yc <= 255,
                yd <= 255,
        ;
    }
}

/// Two addresses with the same octets are the same address.
pub proof fn lemma_octets_injective(x: Ipv4Address, y: Ipv4Address)
    ensures
        x.octets_spec() == y.octets_spec() <==> x == y,
{
    if x.octets_spec() == y.octets_spec() {
        assert(x.octets_spec()[0] == y.octets_spec()[0]);
        assert(x.octets_spec()[1] == y.octets_spec()[1]);
        assert(x.octets_spec()[2] == y.octets_spec()[2]);
        assert(x.octets_spec()[3] == y.octets_spec()[3]);
    }
}

/// Length of an Ethernet frame carrying an ARP packet: Ethernet header
/// (14) + ARP (28).
pub const ARP_FRAME_LEN: usize = 42;

/// The frame is an ARP reply: long enough, EtherType ARP (0x0806) and ARP
/// operation 2 (reply).
pub open spec fn is_arp_reply(p: Seq<u8>) -> bool {
    &&& p.len() >= 42
    &&& p[12] == 0x08u8
    &&& p[13] == 0x06u8
    &&& p[20] == 0x00u8
    &&& p[21] == 0x02u8
}

/// What an ARP reply teaches: the sender's IPv4 octets (bytes 28..32) and
/// MAC (bytes 22..28); nothing for any other frame.
pub open spec fn arp_reply_fields(p: Seq<u8>) -> Option<(Seq<u8>, Seq<u8>)> {
    if is_arp_reply(p) {
        Some((p.subrange(28, 32), p.subrange(22, 28)))
    } else {
        None
    }
}

/// Check if a packet is an ARP reply and extract the sender's IP and MAC.
pub fn parse_arp_reply(packet: &[u8]) -> (r: Option<(Ipv4Address, MacAddress)>)
    ensures
        r is Some <==> is_arp_reply(packet@),
        r matches Some((ip, mac)) ==> arp_reply_fields(packet@) == Some(
            (ip.octets_spec(), mac@),
        ),
{
    if packet.len() < 42 {
        return None;
    }
    if packet[12] != 0x08 || packet[13] != 0x06 {
        return None;
    }
    if packet[20] != 0x00 || packet[21] != 0x02 {
        return None;
    }
    let sender_mac: MacAddress = [
        packet[22],
        packet[23],
        packet[24],
        packet[25],
        packet[26],
        packet[27],
    ];
    let sender_ip = Ipv4Address::new(packet[28], packet[29], packet[30], packet[31]);
    assert(sender_mac@ =~= packet@.subrange(22, 28));
    assert(sender_ip.octets_spec() =~= packet@.subrange(28, 32));
    Some((sender_ip, sender_mac))
}

/// The Ethernet frame of an ARP reply from `peer` to `our` interface:
/// destination `our_mac`, source `peer_mac`, EtherType ARP; hardware type
/// Ethernet, protocol IPv4, address lengths 6 and 4, operation reply;
/// sender `peer_mac`/`peer_ip`, target `our_mac`/`our_ip`.
pub open spec fn arp_reply_frame(
    our_mac: Seq<u8>,
    our_ip: Seq<u8>,
    peer_mac: Seq<u8>,
    peer_ip: Seq<u8>,
) -> Seq<u8> {
    our_mac + peer_mac + seq![0x08u8, 0x06u8] + seq![
        0x00u8,
        0x01u8,
        0x08u8,
        0x00u8,
        6u8,
        4u8,
        0x00u8,
        0x02u8,
    ] + peer_mac + peer_ip + our_mac + our_ip
}

fn push_bytes(v: &mut Vec<u8>, bytes: &[u8])
    ensures
        final(v)@ == old(v)@ + bytes@,
{
    let mut i: usize = 0;
    while i < bytes.len()
        invariant
            i <= bytes@.len(),
            v@ == old(v)@ + bytes@.take(i as int),
        decreases bytes.len() - i,
    {
        v.push(bytes[i]);
        assert(v@ =~= old(v)@ + bytes@.take(i + 1));
        i += 1;
    }
    assert(bytes@.take(bytes@.len() as int) =~= bytes@);
}

/// Build an ARP reply packet for injection into the network stack: it
/// looks as if it came from `peer_ip`/`peer_mac` and is addressed to our
/// interface, so processing it populates the neighbor cache.
pub fn build_arp_reply_for_injection(
    our_mac: MacAddress,
    our_ip: Ipv4Address,
    peer_mac: MacAddress,
    peer_ip: Ipv4Address,
) -> (r: Vec<u8>)
    ensures
        r@ == arp_reply_frame(our_mac@, our_ip.octets_spec(), peer_mac@, peer_ip.octets_spec()),
        r@.len() == ARP_FRAME_LEN,
{
    let mut packet: Vec<u8> = Vec::new();
    let our_ip_octets = our_ip.octets();
    let peer_ip_octets = peer_ip.octets();
    push_bytes(&mut packet, &our_mac);
    push_bytes(&mut packet, &peer_mac);
    push_bytes(&mut packet, &[0x08u8, 0x06u8]);
    push_bytes(&mut packet, &[0x00u8, 0x01u8, 0x08u8, 0x00u8, 6u8, 4u8, 0x00u8, 0x02u8]);
    push_bytes(&mut packet, &peer_mac);
    push_bytes(&mut packet, &peer_ip_octets);
    push_bytes(&mut packet, &our_mac);
    push_bytes(&mut packet, &our_ip_octets);
    assert(packet@ =~= arp_reply_frame(
        our_mac@,
        our_ip.octets_spec(),
        peer_mac@,
        peer_ip.octets_spec(),
    ));
    packet
}

/// Parsing the ARP reply built for a peer gives back exactly that peer's
/// IPv4 and MAC address.
pub proof fn lemma_parse_built_arp_reply(
    our_mac: MacAddress,
    our_ip: Ipv4Address,
    peer_mac: MacAddress,
    peer_ip: Ipv4Address,
)
    ensures
        arp_reply_fields(
            arp_reply_frame(our_mac@, our_ip.octets_spec(), peer_mac@, peer_ip.octets_spec()),
        ) == Some((peer_ip.octets_spec(), peer_mac@)),
{
    let f = arp_reply_frame(our_mac@, our_ip.octets_spec(), peer_mac@, peer_ip.octets_spec());
    assert(our_mac@.len() == 6 && peer_mac@.len() == 6);
    assert(peer_ip.octets_spec().len() == 4 && our_ip.octets_spec().len() == 4);
    assert(f.len() == 42);
    assert(f[12] == 0x08u8 && f[13] == 0x06u8 && f[20] == 0x00u8 && f[21] == 0x02u8);
    assert(f.subrange(22, 28) =~= peer_mac@);
    assert(f.subrange(28, 32) =~= peer_ip.octets_spec());
}

/// A parsed ARP reply determines the sender exactly: any two results
/// describing the same bytes are equal.
pub proof fn lemma_arp_fields_determine_sender(
    ip1: Ipv4Address,
    mac1: MacAddress,
    ip2: Ipv4Address,
    mac2: MacAddress,
)
    requires
        ip1.octets_spec() == ip2.octets_spec(),
        mac1@ == mac2@,
    ensures
        ip1 == ip2,
        mac1 == mac2,
{
    lemma_octets_injective(ip1, ip2);
    assert(mac1 =~= mac2);
}

/// The IPv4-to-MAC bindings a map keyed by address numbers holds.
pub open spec fn bindings_of(m: Map<u32, MacAddress>) -> Map<Ipv4Address, MacAddress> {
    Map::new(|ip: Ipv4Address| m.contains_key(ip.bits()), |ip: Ipv4Address| m[ip.bits()])
}

/// The MAC bound to `ip`, if any.
pub open spec fn lookup(bindings: Map<Ipv4Address, MacAddress>, ip: Ipv4Address) -> Option<MacAddress> {
    if bindings.contains_key(ip) {
        Some(bindings[ip])
    } else {
        None
    }
}

/// Reading the cache right after an insert finds the inserted MAC, and
/// the bindings of every other address are unaffected.
pub proof fn lemma_insert_then_lookup(
    bindings: Map<Ipv4Address, MacAddress>,
    ip: Ipv4Address,
    mac: MacAddress,
    other: Ipv4Address,
)
    ensures
        lookup(bindings.insert(ip, mac), ip) == Some(mac),
        other != ip ==> lookup(bindings.insert(ip, mac), other) == lookup(bindings, other),
{
}

/// The counter after one more insert (it wraps around like an atomic
/// `fetch_add`).
pub open spec fn next_version(v: usize) -> usize {
    if v == usize::MAX {
        0
    } else {
        (v + 1) as usize
    }
}

/// Cache of learned IPv4-to-MAC bindings shared between the queues of a
/// multi-queue setup. Queue 0 inserts the bindings it sees in ARP replies;
/// every queue reads them. A version counter grows with every insert (also
/// when the binding was already present) so that readers can tell that
/// something changed.
pub struct SharedArpCache {
    map: HashMap<u32, MacAddress>,
    version: usize,
}

impl SharedArpCache {
    /// The IPv4-to-MAC bindings in the cache.
    pub closed spec fn bindings(&self) -> Map<Ipv4Address, MacAddress> {
        bindings_of(self.map@)
    }

    /// The number of inserts so far (wrapping).
    pub closed spec fn version_spec(&self) -> usize {
        self.version
    }

    /// Create a new empty shared ARP cache.
    pub fn new() -> (r: Self)
        ensures
            r.bindings() == Map::<Ipv4Address, MacAddress>::empty(),
            r.version_spec() == 0,
    {
        let r = SharedArpCache { map: HashMap::new(), version: 0 };
        assert(r.bindings() =~= Map::<Ipv4Address, MacAddress>::empty());
        r
    }

    /// Look up a MAC address for an IP.
    pub fn get(&self, ip: &Ipv4Address) -> (r: Option<MacAddress>)
        ensures
            r == lookup(self.bindings(), *ip),
    {
        let key = ip.to_bits();
        match self.map.get(&key) {
            Some(mac) => Some(*mac),
            None => None,
        }
    }

    /// Insert or update a MAC address for an IP; the version counter grows
    /// in either case (also when the binding was already there, so that
    /// readers refresh neighbor entries that expire on their side).
    pub fn insert(&mut self, ip: Ipv4Address, mac: MacAddress)
        ensures
            final(self).bindings() == old(self).bindings().insert(ip, mac),
            final(self).version_spec() == next_version(old(self).version_spec()),
    {
        let key = ip.to_bits();
        let same = match self.map.get(&key) {
            Some(current) => same_mac(current, &mac),
            None => false,
        };
        if !same {
            self.map.insert(key, mac);
        }
        self.version = if self.version == usize::MAX {
            0
        } else {
            self.version + 1
        };
        assert forall|x: Ipv4Address| #[trigger] self.bindings().contains_key(x) == old(
            self,
        ).bindings().insert(ip, mac).contains_key(x) by {
            lemma_bits_injective(x, ip);
        }
        assert forall|x: Ipv4Address| #[trigger] self.bindings().contains_key(x) implies self.bindings()[x]
            == old(self).bindings().insert(ip, mac)[x] by {
            lemma_bits_injective(x, ip);
            if same && x == ip {
                assert(mac =~= old(self).map@[key]);
            }
        }
        assert(self.bindings() =~= old(self).bindings().insert(ip, mac));
    }

    /// Check if an IP is in the cache.
    pub fn contains(&self, ip: &Ipv4Address) -> (r: bool)
        ensures
            r == self.bindings().contains_key(*ip),
    {
        let key = ip.to_bits();
        self.map.contains_key(&key)
    }

    /// Get the version counter (grows on every insert/update).
    pub fn version(&self) -> (r: usize)
        ensures
            r == self.version_spec(),
    {
        self.version
    }

    /// Check if the cache is empty.
    pub fn is_empty(&self) -> (r: bool)
        ensures
            r == (self.bindings() =~= Map::<Ipv4Address, MacAddress>::empty()),
    {
        let e = self.map.is_empty();
        proof {
            if !e {
                let k = self.map@.dom().choose();
                assert(self.map@.dom().len() > 0);
                assert(self.map@.dom().contains(k));
                let ip = Ipv4Address::from_bits_spec(k);
                assert(self.bindings().contains_key(ip));
            } else {
                assert(self.map@.dom() =~= Set::<u32>::empty()) by {
                    if exists|k: u32| self.map@.dom().contains(k) {
                        let k = choose|k: u32| self.map@.dom().contains(k);
                        assert(self.map@.dom().remove(k).len() + 1 == self.map@.dom().len());
                    }
                }
            }
        }
        e
    }

    /// A snapshot of all entries, each binding exactly once (in the map's
    /// iteration order).
    pub fn snapshot(&self) -> (r: Vec<(Ipv4Address, MacAddress)>)
        ensures
            r@.len() == self.bindings().dom().len(),
            forall|i: int|
                0 <= i < r@.len() ==> self.bindings().contains_key((#[trigger] r@[i]).0)
                    && self.bindings()[r@[i].0] == r@[i].1,
            forall|ip: Ipv4Address|
                #[trigger] self.bindings().contains_key(ip) ==> exists|i: int|
                    0 <= i < r@.len() && r@[i] == (ip, self.bindings()[ip]),
    {
        let mut out: Vec<(Ipv4Address, MacAddress)> = Vec::new();
        for kv in iter: self.map.iter()
            invariant
                out@.len() == iter.index(),
                iter.seq() == vstd::std_specs::hash::spec_hash_map_iter(&self.map).remaining(),
                forall|i: int|
                    0 <= i < out@.len() ==> (#[trigger] out@[i]).0.bits() == *iter.seq()[i].0
                        && out@[i].1 == *iter.seq()[i].1,
        {
            let (k, v) = kv;
            out.push((Ipv4Address::from_bits(*k), *v));
        }
        proof {
            self.lemma_dom_len();
            assert forall|i: int| 0 <= i < out@.len() implies self.bindings().contains_key(
                (#[trigger] out@[i]).0,
            ) && self.bindings()[out@[i].0] == out@[i].1 by {
                let v = vstd::std_specs::hash::spec_hash_map_iter(&self.map).remaining();
                assert(self.map@.contains_key(*v[i].0));
            }
            assert forall|ip: Ipv4Address| #[trigger] self.bindings().contains_key(ip) implies exists|
                i: int,
            | 0 <= i < out@.len() && out@[i] == (ip, self.bindings()[ip]) by {
                let v = vstd::std_specs::hash::spec_hash_map_iter(&self.map).remaining();
                let k = ip.bits();
                assert(self.map@.contains_key(k));
                assert(v.contains((&k, &self.map@[k])));
                let i = choose|i: int| 0 <= i < v.len() && v[i] == (&k, &self.map@[k]);
                lemma_bits_injective(out@[i].0, ip);
            }
        }
        out
    }

    proof fn lemma_dom_len(&self)
        ensures
            self.bindings().dom().len() == self.map@.dom().len(),
    {
        let x = self.map@.dom();
        let y = self.bindings().dom();
        let f = |k: u32| Ipv4Address::from_bits_spec(k);
        assert(x.finite());
        assert forall|k1: u32, k2: u32| x.contains(k1) && x.contains(k2) && #[trigger] f(k1) == #[trigger] f(k2) implies k1 == k2 by {
            lemma_from_bits_roundtrip(k1);
            lemma_from_bits_roundtrip(k2);
        }
        assert forall|ip: Ipv4Address| #[trigger] x.map(f).contains(ip) == y.contains(ip) by {
            if y.contains(ip) {
                lemma_bits_roundtrip(ip);
                assert(x.contains(ip.bits()));
                assert(f(ip.bits()) == ip);
            }
            if x.map(f).contains(ip) {
                let k = choose|k: u32| x.contains(k) && f(k) == ip;
                lemma_from_bits_roundtrip(k);
            }
        }
        assert(x.map(f) =~= y);
        vstd::set_lib::lemma_map_size(x, y, f);
    }
}

impl Ipv4Address {
    /// The address whose number is `bits`.
    pub closed spec fn from_bits_spec(bits: u32) -> Ipv4Address {
        Ipv4Address {
            a: (bits / 16777216) as u8,
            b: ((bits / 65536) % 256) as u8,
            c: ((bits / 256) % 256) as u8,
            d: (bits % 256) as u8,
        }
    }
}

proof fn lemma_from_bits_roundtrip(k: u32)
    ensures
        Ipv4Address::from_bits_spec(k).bits() == k,
{
    let ip = Ipv4Address::from_bits_spec(k);
    let (a, b, c, d) = (ip.a, ip.b, ip.c, ip.d);
    assert(a == k / 16777216 && b == (k / 65536) % 256 && c == (k / 256) % 256 && d == k % 256) by (nonlinear_arith)
        requires
            a == ((k / 16777216) as u8),
            b == (((k / 65536) % 256) as u8),
            c == (((k / 256) % 256) as u8),
            d == ((k % 256) as u8),
            k <= u32::MAX,
    ;
    assert(bits_of(a, b, c, d) == k) by (nonlinear_arith)
        requires
            a == k / 16777216,
            b == (k / 65536) % 256,
            c == (k / 256) % 256,
            d == k % 256,
    ;
}

proof fn lemma_bits_roundtrip(ip: Ipv4Address)
    ensures
        Ipv4Address::from_bits_spec(ip.bits()) == ip,
{
    lemma_from_bits_roundtrip(ip.bits());
    lemma_bits_injective(Ipv4Address::from_bits_spec(ip.bits()), ip);
}

fn same_mac(x: &MacAddress, y: &MacAddress) -> (r: bool)
    ensures
        r == (x@ == y@),
{
    let mut i: usize = 0;
    while i < 6
        invariant
            i <= 6,
            forall|j: int| 0 <= j < i ==> x@[j] == y@[j],
        decreases 6 - i,
    {
        if x[i] != y[i] {
            return false;
        }
        i += 1;
    }
    assert(x@ =~= y@);
    true
}

} // verus!
