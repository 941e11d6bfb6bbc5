//! RX/TX queue handles, the sizing of packet bursts, and what a partial
//! transmit leaves in the batch.

use vstd::prelude::*;
use arrayvec::ArrayVec;
use crate::batch::{tx_items, tx_remove};
use crate::eth::{PortId, QueueId};

verus! {

/// Maximum burst size for RX/TX operations
pub const MAX_BURST_SIZE: usize = 64;

/// RX Queue handle for receiving packets
#[derive(Debug, Clone, Copy)]
pub struct RxQueue {
    port_id: PortId,
    queue_id: QueueId,
}

impl RxQueue {
    pub closed spec fn port(&self) -> PortId {
        self.port_id
    }

    pub closed spec fn queue(&self) -> QueueId {
        self.queue_id
    }

    /// Create a new RX queue handle (the queue must already be set up).
    pub fn new(port_id: PortId, queue_id: QueueId) -> (r: Self)
        ensures
            r.port() == port_id,
            r.queue() == queue_id,
    {
        Self { port_id, queue_id }
    }

    /// Get the port ID
    pub fn port_id(&self) -> (r: PortId)
        ensures
            r == self.port(),
    {
        self.port_id
    }

    /// Get the queue ID
    pub fn queue_id(&self) -> (r: QueueId)
        ensures
            r == self.queue(),
    {
        self.queue_id
    }

    /// How many packets one receive burst asks for when `len` of a
    /// batch's `capacity` slots are in use: the free slots, capped at
    /// [`MAX_BURST_SIZE`]; 0 when the batch is full.
    pub fn burst_size(len: usize, capacity: usize) -> (r: u16)
        requires
            len <= capacity,
        ensures
            r as int == if capacity - len < MAX_BURST_SIZE {
                capacity - len
            } else {
                MAX_BURST_SIZE as int
            },
    {
        let free = capacity - len;
        if free == 0 {
            return 0;
        }
        let max_pkts: u16 = if free < 65535 {
            free as u16
        } else {
            65535
        };
        if max_pkts < MAX_BURST_SIZE as u16 {
            max_pkts
        } else {
            MAX_BURST_SIZE as u16
        }
    }
}

/// TX Queue handle for transmitting packets
#[derive(Debug, Clone, Copy)]
pub struct TxQueue {
    port_id: PortId,
    queue_id: QueueId,
}

impl TxQueue {
    pub closed spec fn port(&self) -> PortId {
        self.port_id
    }

    pub closed spec fn queue(&self) -> QueueId {
        self.queue_id
    }

    /// Create a new TX queue handle (the queue must already be set up).
    pub fn new(port_id: PortId, queue_id: QueueId) -> (r: Self)
        ensures
            r.port() == port_id,
            r.queue() == queue_id,
    {
        Self { port_id, queue_id }
    }

    /// Get the port ID
    pub fn port_id(&self) -> (r: PortId)
        ensures
            r == self.port(),
    {
        self.port_id
    }

    /// Get the queue ID
    pub fn queue_id(&self) -> (r: QueueId)
        ensures
            r == self.queue(),
    {
        self.queue_id
    }

    /// How many of `pending` queued packets one transmit burst hands to
    /// the driver: all of them, capped at [`MAX_BURST_SIZE`].
    pub fn burst_size(pending: usize) -> (r: u16)
        ensures
            r as int == if pending < MAX_BURST_SIZE {
                pending as int
            } else {
                MAX_BURST_SIZE as int
            },
    {
        if pending < MAX_BURST_SIZE {
            pending as u16
        } else {
            MAX_BURST_SIZE as u16
        }
    }

    /// Take the handles of the first `sent` packets out of the batch, which
    /// the driver took over, and return them; the packets it did not send
    /// stay, in order, for a retry.
    pub(crate) fn remove_sent(batch: &mut ArrayVec<u64, 256>, sent: u16) -> (r: Vec<u64>)
        requires
            sent <= tx_items(*old(batch)).len(),
        ensures
            r@ == tx_items(*old(batch)).subrange(0, sent as int),
            tx_items(*final(batch)) == tx_items(*old(batch)).subrange(
                sent as int,
                tx_items(*old(batch)).len() as int,
            ),
            r@ + tx_items(*final(batch)) == tx_items(*old(batch)),
    {
        let ghost orig = tx_items(*batch);
        let mut taken: Vec<u64> = Vec::new();
        let mut i: u16 = 0;
        while i < sent
            invariant
                i <= sent,
                sent <= orig.len(),
                taken@ == orig.subrange(0, i as int),
                tx_items(*batch) == orig.subrange(i as int, orig.len() as int),
            decreases sent - i,
        {
            let first = tx_remove(batch, 0);
            taken.push(first);
            assert(taken@ =~= orig.subrange(0, i + 1));
            assert(tx_items(*batch) =~= orig.subrange(i + 1, orig.len() as int));
            i += 1;
        }
        assert(taken@ + tx_items(*batch) =~= orig);
        taken
    }
}

} // verus!
