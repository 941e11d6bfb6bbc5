//! The per-queue device's own decisions: whether the MTU fits the mbufs,
//! its receive and transmit batches, learning neighbors from ARP replies on
//! queue 0, and handing the learned neighbors to the other queues as
//! injected ARP replies.

use vstd::prelude::*;
use arrayvec::ArrayVec;
use crate::batch::{
    rx_items, rx_len, rx_new, rx_pop, rx_push, tx_as_slice, tx_items, tx_len, tx_new, tx_push,
    RX_BATCH_CAPACITY, TX_BATCH_CAPACITY,
};
use crate::queue::TxQueue;
use crate::arp::{
    arp_reply_fields, arp_reply_frame, build_arp_reply_for_injection, lemma_parse_built_arp_reply,
    parse_arp_reply, Ipv4Address, MacAddress, SharedArpCache,
};

verus! {

/// Maximum packet overhead: Ethernet (14) + IP (20) + TCP with options (60)
pub const MAX_PACKET_OVERHEAD: usize = 94;

/// A queue's device: its MTU and mbuf capacity, its queue ID, the handles
/// of the packets received but not yet handed to the stack and of those
/// waiting to be transmitted, and, in multi-queue setups, its interface
/// addresses and the cache version it last injected.
pub struct DpdkDevice {
    mtu: usize,
    mbuf_capacity: usize,
    queue_id: u16,
    rx_batch: ArrayVec<u64, 64>,
    tx_batch: ArrayVec<u64, 256>,
    arp: Option<(MacAddress, Ipv4Address)>,
    last_cache_version: usize,
}

impl DpdkDevice {
    pub closed spec fn mtu_spec(&self) -> usize {
        self.mtu
    }

    pub closed spec fn capacity_spec(&self) -> usize {
        self.mbuf_capacity
    }

    pub closed spec fn queue_spec(&self) -> u16 {
        self.queue_id
    }

    /// Our interface's MAC and IPv4 address, when the device takes part in
    /// a shared ARP cache.
    pub closed spec fn arp_spec(&self) -> Option<(MacAddress, Ipv4Address)> {
        self.arp
    }

    /// The cache version whose bindings were injected last.
    pub closed spec fn last_version(&self) -> usize {
        self.last_cache_version
    }

    /// The handles of the received packets not yet handed to the stack, in
    /// the order they were stored.
    pub closed spec fn rx_pending(&self) -> Seq<u64> {
        rx_items(self.rx_batch)
    }

    /// The handles of the packets waiting to be transmitted, oldest first.
    pub closed spec fn tx_pending(&self) -> Seq<u64> {
        tx_items(self.tx_batch)
    }

    /// Create a device for one queue. The MTU plus the maximum packet
    /// overhead must fit in an mbuf.
    pub fn new(mtu: usize, mbuf_capacity: usize) -> (r: Self)
        requires
            mtu + MAX_PACKET_OVERHEAD <= mbuf_capacity,
        ensures
            r.mtu_spec() == mtu,
            r.capacity_spec() == mbuf_capacity,
            r.queue_spec() == 0,
            r.arp_spec() is None,
            r.last_version() == 0,
            r.rx_pending() == Seq::<u64>::empty(),
            r.tx_pending() == Seq::<u64>::empty(),
    {
        DpdkDevice {
            mtu,
            mbuf_capacity,
            queue_id: 0,
            rx_batch: rx_new(),
            tx_batch: tx_new(),
            arp: None,
            last_cache_version: 0,
        }
    }

    /// Whether a device with this MTU and mbuf capacity can be created: the
    /// MTU plus the maximum packet overhead fits in an mbuf.
    pub fn mtu_fits(mtu: usize, mbuf_capacity: usize) -> (r: bool)
        ensures
            r == (mtu + MAX_PACKET_OVERHEAD <= mbuf_capacity),
    {
        mtu <= mbuf_capacity && mbuf_capacity - mtu >= MAX_PACKET_OVERHEAD
    }

    /// Take part in a shared ARP cache as queue `queue_id` (queue 0 learns
    /// from ARP replies, the others inject what it learned) with our
    /// interface's addresses.
    pub fn with_shared_arp_cache(self, queue_id: u16, our_mac: MacAddress, our_ip: Ipv4Address) -> (r:
        Self)
        ensures
            r.mtu_spec() == self.mtu_spec(),
            r.capacity_spec() == self.capacity_spec(),
            r.queue_spec() == queue_id,
            r.arp_spec() == Some((our_mac, our_ip)),
            r.last_version() == self.last_version(),
            r.rx_pending() == self.rx_pending(),
            r.tx_pending() == self.tx_pending(),
    {
        DpdkDevice { queue_id, arp: Some((our_mac, our_ip)), ..self }
    }

    /// The MTU the device reports to the network stack.
    pub fn mtu(&self) -> (r: usize)
        ensures
            r == self.mtu_spec(),
    {
        self.mtu
    }

    /// Look at a received frame: queue 0 of a shared-cache setup records
    /// the sender of every ARP reply in the cache; nothing else changes it.
    pub fn learn_from_frame(&self, frame: &[u8], cache: &mut SharedArpCache)
        ensures
            (self.queue_spec() == 0 && self.arp_spec() is Some && is_arp_reply_spec(frame@)) ==> exists|
                ip: Ipv4Address,
                mac: MacAddress,
            |
                arp_reply_fields(frame@) == Some((ip.octets_spec(), mac@))
                    && final(cache).bindings() == old(cache).bindings().insert(ip, mac)
                    && final(cache).version_spec() == crate::arp::next_version(
                    old(cache).version_spec(),
                ),
            !(self.queue_spec() == 0 && self.arp_spec() is Some && is_arp_reply_spec(frame@))
                ==> *final(cache) == *old(cache),
    {
        if self.queue_id == 0 && self.arp.is_some() {
            if let Some((ip, mac)) = parse_arp_reply(frame) {
                cache.insert(ip, mac);
            }
        }
    }

    /// The ARP replies to inject into this queue's receive path so that
    /// its stack learns what queue 0 put in the shared cache, with the
    /// cache version they reflect. Nothing for queue 0 (it sees the real
    /// replies), for a device outside a shared cache, or when the cache has
    /// not changed since the last injection.
    pub fn pending_arp_injections(&self, cache: &SharedArpCache) -> (r: Option<(usize, Vec<Vec<u8>>)>)
        ensures
            (self.queue_spec() == 0 || self.arp_spec() is None || cache.version_spec()
                == self.last_version()) ==> r is None,
            !(self.queue_spec() == 0 || self.arp_spec() is None || cache.version_spec()
                == self.last_version()) ==> (self.arp_spec() matches Some((m, oi)) && r matches Some((v, frames)) && v == cache.version_spec()
                && injections_for(frames@, cache.bindings(), m, oi)),
    {
        if self.queue_id == 0 {
            return None;
        }
        let (our_mac, our_ip) = match self.arp {
            Some(a) => a,
            None => {
                return None;
            },
        };
        let current_version = cache.version();
        if current_version == self.last_cache_version {
            return None;
        }
        let entries = cache.snapshot();
        let mut frames: Vec<Vec<u8>> = Vec::new();
        let mut i: usize = 0;
        while i < entries.len()
            invariant
                i <= entries@.len(),
                self.arp == Some((our_mac, our_ip)),
                frames@.len() == i,
                forall|k: int|
                    0 <= k < entries@.len() ==> cache.bindings().contains_key(
                        (#[trigger] entries@[k]).0,
                    ) && cache.bindings()[entries@[k].0] == entries@[k].1,
                forall|k: int|
                    0 <= k < i ==> #[trigger] frames@[k]@ == arp_reply_frame(
                        our_mac@,
                        our_ip.octets_spec(),
                        entries@[k].1@,
                        entries@[k].0.octets_spec(),
                    ),
            decreases entries.len() - i,
        {
            let (ip, mac) = entries[i];
            frames.push(build_arp_reply_for_injection(our_mac, our_ip, mac, ip));
            i += 1;
        }
        proof {
            let ips = entries@.map_values(|e: (Ipv4Address, MacAddress)| e.0);
            assert forall|ip: Ipv4Address| #[trigger] cache.bindings().contains_key(ip) implies ips.contains(ip) by {
                let k = choose|k: int| 0 <= k < entries@.len() && entries@[k] == (ip, cache.bindings()[ip]);
                assert(ips[k] == ip);
            }
            assert(injections_by(frames@, cache.bindings(), our_mac, our_ip, ips));
        }
        let r = Some((current_version, frames));
        r
    }

    /// Record that every binding of cache version `version` was injected,
    /// so that the next check skips until the cache changes again.
    pub fn mark_injected(&mut self, version: usize)
        ensures
            final(self).last_version() == version,
            final(self).mtu_spec() == old(self).mtu_spec(),
            final(self).capacity_spec() == old(self).capacity_spec(),
            final(self).queue_spec() == old(self).queue_spec(),
            final(self).arp_spec() == old(self).arp_spec(),
            final(self).rx_pending() == old(self).rx_pending(),
            final(self).tx_pending() == old(self).tx_pending(),
    {
        self.last_cache_version = version;
    }

    /// The number of received packets not yet handed to the stack.
    pub fn rx_len(&self) -> (r: usize)
        ensures
            r == self.rx_pending().len(),
    {
        rx_len(&self.rx_batch)
    }

    /// Whether to receive a new burst: only once every packet of the last
    /// one (and every injected one) was handed to the stack.
    pub fn should_poll_rx(&self) -> (r: bool)
        ensures
            r == (self.rx_pending().len() == 0),
    {
        rx_len(&self.rx_batch) == 0
    }

    /// Whether the receive batch has room for one more packet.
    pub fn rx_has_room(&self) -> (r: bool)
        ensures
            r == (self.rx_pending().len() < RX_BATCH_CAPACITY),
    {
        rx_len(&self.rx_batch) < RX_BATCH_CAPACITY
    }

    /// Store the handles of a received burst (or of an injected packet)
    /// after those already waiting, in order.
    pub fn store_received(&mut self, received: &[u64])
        requires
            old(self).rx_pending().len() + received@.len() <= RX_BATCH_CAPACITY,
        ensures
            final(self).rx_pending() == old(self).rx_pending() + received@,
            final(self).tx_pending() == old(self).tx_pending(),
            final(self).settings_unchanged(*old(self)),
    {
        let mut i: usize = 0;
        while i < received.len()
            invariant
                i <= received@.len(),
                old(self).rx_pending().len() + received@.len() <= RX_BATCH_CAPACITY,
                self.rx_pending() == old(self).rx_pending() + received@.take(i as int),
                self.tx_pending() == old(self).tx_pending(),
                self.settings_unchanged(*old(self)),
            decreases received@.len() - i,
        {
            rx_push(&mut self.rx_batch, received[i]);
            assert(received@.take(i + 1) =~= received@.take(i as int).push(received@[i as int]));
            assert(self.rx_pending() =~= old(self).rx_pending() + received@.take(i + 1));
            i += 1;
        }
        assert(received@.take(received@.len() as int) =~= received@);
    }

    /// The next received packet to hand to the stack: the one stored last
    /// (so injected ARP replies, stored after a burst, go first); `None`
    /// when nothing is waiting.
    pub fn next_received(&mut self) -> (r: Option<u64>)
        ensures
            old(self).rx_pending().len() == 0 ==> r is None && final(self).rx_pending() == old(
                self,
            ).rx_pending(),
            old(self).rx_pending().len() > 0 ==> r == Some(old(self).rx_pending().last())
                && final(self).rx_pending() == old(self).rx_pending().drop_last(),
            final(self).tx_pending() == old(self).tx_pending(),
            final(self).settings_unchanged(*old(self)),
    {
        rx_pop(&mut self.rx_batch)
    }

    /// The number of packets waiting to be transmitted.
    pub fn tx_len(&self) -> (r: usize)
        ensures
            r == self.tx_pending().len(),
    {
        tx_len(&self.tx_batch)
    }

    /// Whether the transmit batch has room for one more packet (the stack
    /// then gets a transmit token).
    pub fn tx_has_room(&self) -> (r: bool)
        ensures
            r == (self.tx_pending().len() < TX_BATCH_CAPACITY),
    {
        tx_len(&self.tx_batch) < TX_BATCH_CAPACITY
    }

    /// Queue a filled packet for transmission, after those already waiting.
    pub fn queue_tx(&mut self, h: u64)
        requires
            old(self).tx_pending().len() < TX_BATCH_CAPACITY,
        ensures
            final(self).tx_pending() == old(self).tx_pending().push(h),
            final(self).rx_pending() == old(self).rx_pending(),
            final(self).settings_unchanged(*old(self)),
    {
        tx_push(&mut self.tx_batch, h);
    }

    /// The handles waiting to be transmitted, oldest first.
    pub fn tx_handles(&self) -> (r: &[u64])
        ensures
            r@ == self.tx_pending(),
    {
        tx_as_slice(&self.tx_batch)
    }

    /// Drop the first `sent` waiting packets, which the driver took over,
    /// and return their handles; the rest stay in order for a retry.
    pub fn take_sent(&mut self, sent: u16) -> (r: Vec<u64>)
        requires
            sent <= old(self).tx_pending().len(),
        ensures
            r@ == old(self).tx_pending().subrange(0, sent as int),
            final(self).tx_pending() == old(self).tx_pending().subrange(
                sent as int,
                old(self).tx_pending().len() as int,
            ),
            final(self).rx_pending() == old(self).rx_pending(),
            final(self).settings_unchanged(*old(self)),
    {
        TxQueue::remove_sent(&mut self.tx_batch, sent)
    }

    /// The settings (MTU, mbuf capacity, queue, addresses, injected
    /// version) are those of `other`.
    pub open spec fn settings_unchanged(&self, other: DpdkDevice) -> bool {
        &&& self.mtu_spec() == other.mtu_spec()
        &&& self.capacity_spec() == other.capacity_spec()
        &&& self.queue_spec() == other.queue_spec()
        &&& self.arp_spec() == other.arp_spec()
        &&& self.last_version() == other.last_version()
    }
}

/// `frames` holds one ARP reply per binding of the cache, the i-th from
/// the peer bound at `ips[i]` to our interface, and every bound address is
/// among `ips`.
pub open spec fn injections_by(
    frames: Seq<Vec<u8>>,
    bindings: Map<Ipv4Address, MacAddress>,
    our_mac: MacAddress,
    our_ip: Ipv4Address,
    ips: Seq<Ipv4Address>,
) -> bool {
    &&& frames.len() == bindings.dom().len()
    &&& ips.len() == frames.len()
    &&& forall|i: int|
        0 <= i < frames.len() ==> bindings.contains_key(#[trigger] ips[i]) && frames[i]@
            == arp_reply_frame(our_mac@, our_ip.octets_spec(), bindings[ips[i]]@, ips[i].octets_spec())
    &&& forall|ip: Ipv4Address| #[trigger] bindings.contains_key(ip) ==> ips.contains(ip)
}

/// What an injection teaches a queue: each injected frame is an ARP reply
/// whose sender is a binding of the shared cache, and every binding of the
/// cache is the sender of one of the frames. A queue that receives them
/// thus learns exactly what queue 0 put in the cache.
pub proof fn lemma_injections_teach_cache(
    frames: Seq<Vec<u8>>,
    bindings: Map<Ipv4Address, MacAddress>,
    our_mac: MacAddress,
    our_ip: Ipv4Address,
)
    requires
        injections_for(frames, bindings, our_mac, our_ip),
    ensures
        forall|i: int|
            #![trigger frames[i]]
            0 <= i < frames.len() ==> exists|ip: Ipv4Address|
                #![trigger bindings[ip]]
                bindings.contains_key(ip) && arp_reply_fields(frames[i]@) == Some(
                    (ip.octets_spec(), bindings[ip]@),
                ),
        forall|ip: Ipv4Address|
            #![trigger bindings[ip]]
            bindings.contains_key(ip) ==> exists|i: int|
                #![trigger frames[i]]
                0 <= i < frames.len() && arp_reply_fields(frames[i]@) == Some(
                    (ip.octets_spec(), bindings[ip]@),
                ),
{
    let ips = choose|ips: Seq<Ipv4Address>| injections_by(frames, bindings, our_mac, our_ip, ips);
    assert forall|i: int| #![trigger frames[i]] 0 <= i < frames.len() implies exists|ip: Ipv4Address|
        #![trigger bindings[ip]]
        bindings.contains_key(ip) && arp_reply_fields(frames[i]@) == Some(
            (ip.octets_spec(), bindings[ip]@),
        ) by {
        let ip = ips[i];
        lemma_parse_built_arp_reply(our_mac, our_ip, bindings[ip], ip);
        assert(bindings.contains_key(ip) && arp_reply_fields(frames[i]@) == Some(
            (ip.octets_spec(), bindings[ip]@),
        ));
    }
    assert forall|ip: Ipv4Address| #![trigger bindings[ip]] bindings.contains_key(ip) implies exists|i: int|
        #![trigger frames[i]]
        0 <= i < frames.len() && arp_reply_fields(frames[i]@) == Some(
            (ip.octets_spec(), bindings[ip]@),
        ) by {
        assert(ips.contains(ip));
        let i = choose|i: int| 0 <= i < ips.len() && ips[i] == ip;
        lemma_parse_built_arp_reply(our_mac, our_ip, bindings[ip], ip);
        assert(arp_reply_fields(frames[i]@) == Some((ip.octets_spec(), bindings[ip]@)));
    }
}

/// `frames` holds one ARP reply per binding of the cache, each from the
/// bound peer to our interface.
pub open spec fn injections_for(
    frames: Seq<Vec<u8>>,
    bindings: Map<Ipv4Address, MacAddress>,
    our_mac: MacAddress,
    our_ip: Ipv4Address,
) -> bool {
    exists|ips: Seq<Ipv4Address>| injections_by(frames, bindings, our_mac, our_ip, ips)
}

/// The frame is an ARP reply (see [`crate::arp::is_arp_reply`]).
pub open spec fn is_arp_reply_spec(p: Seq<u8>) -> bool {
    crate::arp::is_arp_reply(p)
}

} // verus!
