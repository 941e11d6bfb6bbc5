//! A per-host pool of idle client connections: connections are kept per
//! `(address, port)`, a ready one is reused before a new one is made,
//! connections that are no longer ready are discarded when a ready one is
//! looked for, and a host keeps at most a fixed number of them (the oldest
//! leaves first).

use vstd::prelude::*;
use std::collections::HashMap;
use crate::arp::{lemma_bits_injective, Ipv4Address};
use crate::client::{duration_of_secs, ClientConfig, HttpVersion};

verus! {

broadcast use vstd::std_specs::hash::group_hash_axioms;

/// A pooled host: its address and port.
#[derive(Debug, Clone, Copy, PartialEq, Eq, Structural)]
pub struct Host {
    pub addr: Ipv4Address,
    pub port: u16,
}

/// The connections a host keeps after one more is added: the oldest leaves
/// when the host is at its limit.
pub open spec fn kept_before_add<C>(conns: Seq<C>, limit: nat) -> Seq<C> {
    if conns.len() >= limit {
        conns.drop_first()
    } else {
        conns
    }
}

/// The connections whose verdict is `true`, in order.
pub open spec fn kept_where<C>(conns: Seq<C>, verdicts: Seq<bool>) -> Seq<C>
    decreases conns.len(),
{
    if conns.len() == 0 || verdicts.len() == 0 {
        Seq::empty()
    } else {
        let rest = kept_where(conns.drop_last(), verdicts.drop_last());
        if verdicts.last() {
            rest.push(conns.last())
        } else {
            rest
        }
    }
}

/// Each kept connection is one with a `true` verdict.
pub proof fn lemma_kept_where_from<C>(conns: Seq<C>, verdicts: Seq<bool>)
    requires
        conns.len() == verdicts.len(),
    ensures
        forall|j: int|
            0 <= j < kept_where(conns, verdicts).len() ==> exists|i: int|
                0 <= i < conns.len() && verdicts[i] && conns[i] == #[trigger] kept_where(
                    conns,
                    verdicts,
                )[j],
    decreases conns.len(),
{
    if conns.len() > 0 {
        let a = conns.drop_last();
        let v = verdicts.drop_last();
        lemma_kept_where_from(a, v);
        let rest = kept_where(a, v);
        assert forall|j: int| 0 <= j < kept_where(conns, verdicts).len() implies exists|i: int|
            0 <= i < conns.len() && verdicts[i] && conns[i] == #[trigger] kept_where(
                conns,
                verdicts,
            )[j] by {
            if j < rest.len() {
                let i = choose|i: int| 0 <= i < a.len() && v[i] && a[i] == rest[j];
                assert(verdicts[i] && conns[i] == kept_where(conns, verdicts)[j]);
            } else {
                let i = conns.len() - 1;
                assert(verdicts[i] && conns[i] == kept_where(conns, verdicts)[j]);
            }
        }
    }
}

/// The key a host is filed under: its address's 32-bit number above its
/// port.
pub open spec fn host_key(h: Host) -> int {
    h.addr.bits() as int * 65536 + h.port as int
}

/// Different hosts are filed under different keys.
pub proof fn lemma_host_key_injective(g: Host, h: Host)
    ensures
        host_key(g) == host_key(h) <==> g == h,
{
    lemma_bits_injective(g.addr, h.addr);
    let (gb, hb, gp, hp) = (g.addr.bits(), h.addr.bits(), g.port, h.port);
    if host_key(g) == host_key(h) {
        assert(gb == hb && gp == hp) by (nonlinear_arith)
            requires
                gb as int * 65536 + gp as int == hb as int * 65536 + hp as int,
                gp < 65536,
                hp < 65536,
        ;
    }
}

fn key_of(h: Host) -> (k: u64)
    ensures
        k == host_key(h),
{
    let bits = h.addr.to_bits();
    assert(bits as int * 65536 + h.port as int <= u64::MAX) by (nonlinear_arith)
        requires
            bits <= u32::MAX,
            h.port <= u16::MAX,
    ;
    (bits as u64) * 65536 + (h.port as u64)
}

/// The connections filed under `h`'s key in `m`, oldest first.
pub open spec fn filed_under<C>(m: Map<u64, Vec<C>>, h: Host) -> Seq<C> {
    let k = host_key(h) as u64;
    if m.contains_key(k) {
        m[k]@
    } else {
        Seq::empty()
    }
}

/// Filing a list under `h`'s key leaves what every other host has.
proof fn lemma_filing_frames<C>(m: Map<u64, Vec<C>>, h: Host)
    ensures
        forall|v: Vec<C>, g: Host|
            g != h ==> #[trigger] filed_under(m.insert(host_key(h) as u64, v), g) == filed_under(m, g),
{
    assert forall|v: Vec<C>, g: Host| g != h implies #[trigger] filed_under(
        m.insert(host_key(h) as u64, v),
        g,
    ) == filed_under(m, g) by {
        lemma_host_key_injective(g, h);
        assert(host_key(g) as u64 != host_key(h) as u64);
    }
}

/// Idle connections, per host, oldest first.
pub struct ConnectionPool<C> {
    config: ClientConfig,
    idle: HashMap<u64, Vec<C>>,
    max_idle_per_host: usize,
}

impl<C> ConnectionPool<C> {
    /// The idle connections kept for `h`, oldest first.
    pub closed spec fn conns(&self, h: Host) -> Seq<C> {
        filed_under(self.idle@, h)
    }

    /// The most connections a host keeps.
    pub closed spec fn limit(&self) -> nat {
        self.max_idle_per_host as nat
    }

    /// The configuration new connections are made with.
    pub closed spec fn cfg(&self) -> ClientConfig {
        self.config
    }

    /// Replacing the list filed under `h`'s key changes what `h` keeps and
    /// nothing else.
    proof fn lemma_only_host_changes(&self, other: &Self, h: Host)
        requires
            other.idle@.remove(host_key(h) as u64) == self.idle@.remove(host_key(h) as u64),
        ensures
            forall|g: Host| g != h ==> other.conns(g) == self.conns(g),
    {
        assert forall|g: Host| g != h implies other.conns(g) == self.conns(g) by {
            lemma_host_key_injective(g, h);
            let kg = host_key(g) as u64;
            let kh = host_key(h) as u64;
            assert(kg != kh);
            assert(other.idle@.remove(kh).contains_key(kg) == other.idle@.contains_key(kg));
            assert(self.idle@.remove(kh).contains_key(kg) == self.idle@.contains_key(kg));
            if self.idle@.contains_key(kg) {
                assert(other.idle@.remove(kh)[kg] == other.idle@[kg]);
                assert(self.idle@.remove(kh)[kg] == self.idle@[kg]);
            }
        }
    }

    /// A pool with the default configuration that keeps up to 8 idle
    /// connections per host.
    pub fn new() -> (r: Self)
        ensures
            r.limit() == 8,
            r.cfg().rx_buffer_size == 16384,
            r.cfg().tx_buffer_size == 16384,
            r.cfg().http_version == HttpVersion::Http1,
            r.cfg().connect_timeout == duration_of_secs(5),
            forall|h: Host| r.conns(h) == Seq::<C>::empty(),
    {
        Self::with_config(ClientConfig::default(), 8)
    }

    /// A pool with a custom configuration.
    pub fn with_config(config: ClientConfig, max_idle_per_host: usize) -> (r: Self)
        ensures
            r.limit() == max_idle_per_host,
            r.cfg() == config,
            forall|h: Host| r.conns(h) == Seq::<C>::empty(),
    {
        ConnectionPool { config, idle: HashMap::new(), max_idle_per_host }
    }

    /// The configuration new connections are made with.
    pub fn config(&self) -> (r: &ClientConfig)
        ensures
            *r == self.cfg(),
    {
        &self.config
    }

    /// The most idle connections a host keeps.
    pub fn max_idle_per_host(&self) -> (r: usize)
        ensures
            r == self.limit(),
    {
        self.max_idle_per_host
    }

    /// Take the list filed under `h` out of the map (an empty one when
    /// there is none).
    fn take_list(&mut self, h: Host) -> (r: Vec<C>)
        ensures
            r@ == old(self).conns(h),
            final(self).idle@ == old(self).idle@.remove(host_key(h) as u64),
            final(self).limit() == old(self).limit(),
            final(self).cfg() == old(self).cfg(),
    {
        let key = key_of(h);
        match self.idle.remove(&key) {
            Some(list) => list,
            None => Vec::new(),
        }
    }

    /// File `list` under `h`, after [`Self::take_list`] took the old one.
    fn put_list(&mut self, h: Host, list: Vec<C>)
        ensures
            final(self).idle@ == old(self).idle@.insert(host_key(h) as u64, list),
            final(self).conns(h) == list@,
            final(self).limit() == old(self).limit(),
            final(self).cfg() == old(self).cfg(),
    {
        let key = key_of(h);
        self.idle.insert(key, list);
    }

    /// Look for a ready connection to `h`: every idle connection to `h` is
    /// put to `is_ready`, those it rejects are discarded, and the others
    /// stay in order. The oldest ready one is then at position 0, which is
    /// returned; `None` when none is ready (and none is left).
    pub fn ready_index<F: Fn(&C) -> bool>(&mut self, h: Host, is_ready: F) -> (r: Option<usize>)
        requires
            forall|c: &C| is_ready.requires((c,)),
        ensures
            exists|verdicts: Seq<bool>|
                {
                    &&& verdicts.len() == old(self).conns(h).len()
                    &&& forall|i: int|
                        0 <= i < verdicts.len() ==> is_ready.ensures(
                            (&old(self).conns(h)[i],),
                            #[trigger] verdicts[i],
                        )
                    &&& final(self).conns(h) == kept_where(old(self).conns(h), verdicts)
                },
            forall|j: int|
                0 <= j < final(self).conns(h).len() ==> is_ready.ensures(
                    (&#[trigger] final(self).conns(h)[j],),
                    true,
                ),
            r is Some <==> final(self).conns(h).len() > 0,
            r matches Some(i) ==> i == 0,
            forall|g: Host| g != h ==> final(self).conns(g) == old(self).conns(g),
            final(self).limit() == old(self).limit(),
            final(self).cfg() == old(self).cfg(),
    {
        let ghost before = *self;
        let ghost orig = self.conns(h);
        let mut list = self.take_list(h);
        let mut kept: Vec<C> = Vec::new();
        let ghost mut verdicts: Seq<bool> = Seq::empty();
        let ghost mut done: int = 0;
        assert(orig.take(0) =~= Seq::<C>::empty());
        assert(list@ =~= orig.subrange(0, orig.len() as int));
        while list.len() > 0
            invariant
                0 <= done <= orig.len(),
                list@ == orig.subrange(done, orig.len() as int),
                verdicts.len() == done,
                forall|i: int|
                    0 <= i < done ==> is_ready.ensures((&orig[i],), #[trigger] verdicts[i]),
                kept@ == kept_where(orig.take(done), verdicts),
                forall|c: &C| is_ready.requires((c,)),
            decreases list@.len(),
        {
            let c = list.remove(0);
            let ok = is_ready(&c);
            proof {
                assert(c == orig[done]);
                let t = orig.take(done + 1);
                assert(t.drop_last() =~= orig.take(done));
                assert(t.last() == c);
                assert(verdicts.push(ok).drop_last() =~= verdicts);
                verdicts = verdicts.push(ok);
                done = done + 1;
            }
            if ok {
                kept.push(c);
            }
            assert(list@ =~= orig.subrange(done, orig.len() as int));
        }
        assert(orig.take(done) =~= orig);
        let found = kept.len() > 0;
        self.put_list(h, kept);
        proof {
            let k = host_key(h) as u64;
            assert(self.idle@.remove(k) =~= before.idle@.remove(k));
            before.lemma_only_host_changes(self, h);
            lemma_kept_where_from(orig, verdicts);
            assert forall|j: int| 0 <= j < self.conns(h).len() implies is_ready.ensures(
                (&#[trigger] self.conns(h)[j],),
                true,
            ) by {
                let i = choose|i: int|
                    0 <= i < orig.len() && verdicts[i] && orig[i] == kept_where(orig, verdicts)[j];
                assert(is_ready.ensures((&orig[i],), verdicts[i]));
            }
        }
        if found {
            Some(0)
        } else {
            None
        }
    }

    /// The idle connection to `h` at position `i`, lent out in place.
    pub fn connection_mut(&mut self, h: Host, i: usize) -> (r: &mut C)
        requires
            i < old(self).conns(h).len(),
        ensures
            *r == old(self).conns(h)[i as int],
            final(self).conns(h) == old(self).conns(h).update(i as int, *final(r)),
            forall|g: Host| g != h ==> final(self).conns(g) == old(self).conns(g),
            final(self).limit() == old(self).limit(),
            final(self).cfg() == old(self).cfg(),
    {
        proof {
            lemma_filing_frames(self.idle@, h);
        }
        let key = key_of(h);
        let list = self.idle.entry(key).or_insert(Vec::new());
        &mut list[i]
    }

    /// Add a new connection to `h`, first dropping the oldest when the host
    /// is at its limit; returns the new connection's position.
    pub fn add(&mut self, h: Host, conn: C) -> (r: usize)
        requires
            old(self).limit() > 0,
        ensures
            final(self).conns(h) == kept_before_add(old(self).conns(h), old(self).limit()).push(conn),
            r + 1 == final(self).conns(h).len(),
            old(self).conns(h).len() <= old(self).limit() ==> final(self).conns(h).len()
                <= final(self).limit(),
            forall|g: Host| g != h ==> final(self).conns(g) == old(self).conns(g),
            final(self).limit() == old(self).limit(),
            final(self).cfg() == old(self).cfg(),
    {
        let ghost before = *self;
        let mut list = self.take_list(h);
        if list.len() >= self.max_idle_per_host {
            list.remove(0);
        }
        list.push(conn);
        let n = list.len();
        assert(list@ =~= kept_before_add(before.conns(h), before.limit()).push(conn));
        self.put_list(h, list);
        proof {
            let k = host_key(h) as u64;
            assert(self.idle@.remove(k) =~= before.idle@.remove(k));
            before.lemma_only_host_changes(self, h);
        }
        n - 1
    }

    /// Drop every idle connection.
    pub fn clear(&mut self)
        ensures
            forall|h: Host| final(self).conns(h) == Seq::<C>::empty(),
            final(self).limit() == old(self).limit(),
            final(self).cfg() == old(self).cfg(),
    {
        self.idle.clear();
    }
}

} // verus!
