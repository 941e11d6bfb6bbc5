//! Port allocation and worker selection: the per-lcore ephemeral port
//! counters, the bridge workers' ephemeral port allocator, and the
//! round-robin choice of a worker.

use vstd::prelude::*;
use crate::lcore::Lcore;

verus! {

/// Start of the per-lcore ephemeral port range.
pub const EPHEMERAL_PORT_START: u16 = 32768;

/// End of the per-lcore ephemeral port range (inclusive).
pub const EPHEMERAL_PORT_END: u16 = 60999;

/// The first port a worker's counter hands out: the start of the range,
/// offset by 256 ports per queue (queue IDs taken modulo 100) so that
/// queues rarely collide.
pub open spec fn first_port_for_queue(queue_id: u16) -> u16 {
    (EPHEMERAL_PORT_START + (queue_id % 100) * 256) as u16
}

/// The port after `port` in the per-lcore range, wrapping from the end of
/// the range (or anything past it) back to its start.
pub open spec fn next_worker_port(port: u16) -> u16 {
    if port >= EPHEMERAL_PORT_END {
        EPHEMERAL_PORT_START
    } else {
        (port + 1) as u16
    }
}

/// What a worker lcore knows about itself: its lcore, its queue, its NUMA
/// socket, and its ephemeral port counter.
pub struct WorkerContext {
    lcore: Lcore,
    queue_id: u16,
    socket_id: u32,
    next_ephemeral_port: u16,
}

impl WorkerContext {
    pub closed spec fn lcore_spec(&self) -> Lcore {
        self.lcore
    }

    pub closed spec fn queue_spec(&self) -> u16 {
        self.queue_id
    }

    pub closed spec fn socket_spec(&self) -> u32 {
        self.socket_id
    }

    /// The lcore this worker is running on.
    pub fn lcore(&self) -> (r: Lcore)
        ensures
            r == self.lcore_spec(),
    {
        self.lcore
    }

    /// Queue ID (0 = main lcore, 1+ = workers), the lcore's index in the
    /// order of `Lcore::all`.
    pub fn queue_id(&self) -> (r: u16)
        ensures
            r == self.queue_spec(),
    {
        self.queue_id
    }

    /// NUMA socket ID for this lcore.
    pub fn socket_id(&self) -> (r: u32)
        ensures
            r == self.socket_spec(),
    {
        self.socket_id
    }

    /// The next port the counter hands out.
    pub closed spec fn next_port(&self) -> u16 {
        self.next_ephemeral_port
    }

    /// Create a new WorkerContext; its port counter starts at the queue's
    /// offset in the ephemeral range.
    pub fn new(lcore: Lcore, queue_id: u16, socket_id: u32) -> (r: Self)
        ensures
            r.lcore_spec() == lcore,
            r.queue_spec() == queue_id,
            r.socket_spec() == socket_id,
            r.next_port() == first_port_for_queue(queue_id),
            EPHEMERAL_PORT_START <= r.next_port() <= EPHEMERAL_PORT_END,
    {
        let start = EPHEMERAL_PORT_START + (queue_id % 100) * 256;
        WorkerContext { lcore, queue_id, socket_id, next_ephemeral_port: start }
    }

    /// Allocate the next ephemeral port for a client TCP connection; the
    /// counter moves on by one, wrapping within the ephemeral range.
    pub fn alloc_ephemeral_port(&mut self) -> (r: u16)
        ensures
            r == old(self).next_port(),
            final(self).next_port() == next_worker_port(r),
            final(self).lcore_spec() == old(self).lcore_spec(),
            final(self).queue_spec() == old(self).queue_spec(),
            final(self).socket_spec() == old(self).socket_spec(),
    {
        let port = self.next_ephemeral_port;
        let next = if port >= EPHEMERAL_PORT_END {
            EPHEMERAL_PORT_START
        } else {
            port + 1
        };
        self.next_ephemeral_port = next;
        port
    }
}

/// Every port a worker hands out lies in the ephemeral range: the first
/// one does, and the counter never leaves the range.
pub proof fn lemma_worker_ports_in_range(queue_id: u16, port: u16)
    ensures
        EPHEMERAL_PORT_START <= first_port_for_queue(queue_id) <= EPHEMERAL_PORT_END,
        EPHEMERAL_PORT_START <= port <= EPHEMERAL_PORT_END ==> EPHEMERAL_PORT_START
            <= next_worker_port(port) <= EPHEMERAL_PORT_END,
        port < EPHEMERAL_PORT_END ==> next_worker_port(port) == port + 1,
        port >= EPHEMERAL_PORT_END ==> next_worker_port(port) == EPHEMERAL_PORT_START,
{
}

/// Queue `q` starts its counter `256 * (q mod 100)` ports above 32768, so
/// the first hundred queues start 256 ports apart and never on the same
/// port.
pub proof fn lemma_queue_offsets(q: u16, p: u16)
    ensures
        first_port_for_queue(q) == 32768 + (q % 100) * 256,
        q < 100 && p < 100 && q != p ==> first_port_for_queue(q) != first_port_for_queue(p),
        first_port_for_queue((q % 100) as u16) == first_port_for_queue(q),
{
}

/// First port of the IANA ephemeral range used by bridge workers.
pub const IANA_EPHEMERAL_START: u16 = 49152;

/// The port after `port` for a bridge worker: the next one, wrapping from
/// 65535 back to 49152.
pub open spec fn next_bridge_port(port: u16) -> u16 {
    if port == 65535 {
        IANA_EPHEMERAL_START
    } else {
        (port + 1) as u16
    }
}

/// Simple per-worker ephemeral port allocator over the IANA ephemeral
/// range (49152-65535).
pub struct EphemeralPorts {
    next: u16,
}

impl EphemeralPorts {
    /// The next port to hand out.
    pub closed spec fn next_port(&self) -> u16 {
        self.next
    }

    /// An allocator starting at 49152.
    pub fn new() -> (r: Self)
        ensures
            r.next_port() == IANA_EPHEMERAL_START,
    {
        EphemeralPorts { next: 49152 }
    }

    /// Hand out the next port and move on, wrapping within the range.
    pub fn allocate(&mut self) -> (r: u16)
        ensures
            r == old(self).next_port(),
            final(self).next_port() == next_bridge_port(r),
    {
        let port = self.next;
        self.next = if self.next == 65535 {
            49152
        } else {
            self.next + 1
        };
        port
    }
}

/// A bridge allocator never leaves the IANA range, and it hands out every
/// port of the range once before repeating one: after `k` allocations from
/// `start` (within the range) the counter is at `start + k`, wrapping.
pub proof fn lemma_bridge_ports_cycle(start: u16, k: nat)
    requires
        IANA_EPHEMERAL_START <= start,
    ensures
        IANA_EPHEMERAL_START <= bridge_port_after(start, k),
        bridge_port_after(start, k) as int == IANA_EPHEMERAL_START + (start - IANA_EPHEMERAL_START
            + k) % 16384,
    decreases k,
{
    if k > 0 {
        lemma_bridge_ports_cycle(start, (k - 1) as nat);
        let prev = bridge_port_after(start, (k - 1) as nat);
        assert(((start - IANA_EPHEMERAL_START + (k - 1)) % 16384 + 1) % 16384 == (start
            - IANA_EPHEMERAL_START + k) % 16384) by (nonlinear_arith)
            requires
                start >= IANA_EPHEMERAL_START,
                k >= 1,
        ;
    }
}

/// The counter after `k` allocations starting at `start`.
pub open spec fn bridge_port_after(start: u16, k: nat) -> u16
    decreases k,
{
    if k == 0 {
        start
    } else {
        next_bridge_port(bridge_port_after(start, (k - 1) as nat))
    }
}

/// Registry of worker channels, picked round-robin.
pub struct WorkerRegistry<T> {
    workers: Vec<T>,
    next: usize,
}

impl<T> WorkerRegistry<T> {
    /// The registered workers, in registration order.
    pub closed spec fn registered(&self) -> Seq<T> {
        self.workers@
    }

    /// The round-robin counter.
    pub closed spec fn counter(&self) -> usize {
        self.next
    }

    /// An empty registry with the counter at 0.
    pub fn new() -> (r: Self)
        ensures
            r.registered() == Seq::<T>::empty(),
            r.counter() == 0,
    {
        WorkerRegistry { workers: Vec::new(), next: 0 }
    }

    /// Register a worker's channel.
    pub fn register(&mut self, worker: T)
        ensures
            final(self).registered() == old(self).registered().push(worker),
            final(self).counter() == old(self).counter(),
    {
        self.workers.push(worker);
    }

    /// Pick the next worker using round-robin: `None` when no worker is
    /// registered; otherwise the worker at the counter modulo the number of
    /// workers, and the counter moves on by one (wrapping).
    pub fn select(&mut self) -> (r: Option<&T>)
        ensures
            final(self).registered() == old(self).registered(),
            old(self).registered().len() == 0 ==> r is None && final(self).counter() == old(
                self,
            ).counter(),
            old(self).registered().len() > 0 ==> r == Some(
                &old(self).registered()[old(self).counter() as int % old(
                    self,
                ).registered().len() as int],
            ) && final(self).counter() == (if old(self).counter() == usize::MAX {
                0
            } else {
                old(self).counter() + 1
            }),
    {
        if self.workers.len() == 0 {
            return None;
        }
        let idx = self.next % self.workers.len();
        self.next = if self.next == usize::MAX {
            0
        } else {
            self.next + 1
        };
        Some(&self.workers[idx])
    }
}

} // verus!
