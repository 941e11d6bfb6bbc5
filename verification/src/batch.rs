//! The receive and transmit batches of a queue's device: fixed-capacity
//! arrays (`arrayvec::ArrayVec`) of packet-buffer handles. A handle is the
//! number by which the driver's buffer is found again.

use vstd::prelude::*;
use arrayvec::ArrayVec;

verus! {

/// Room of a receive batch.
pub const RX_BATCH_CAPACITY: usize = 64;

/// Room of a transmit batch.
pub const TX_BATCH_CAPACITY: usize = 256;

/// `arrayvec`'s fixed-capacity vector, carried as an opaque value.
#[verifier::external_type_specification]
#[verifier::external_body]
#[verifier::reject_recursive_types(T)]
pub struct ExArrayVec<T, const CAP: usize>(ArrayVec<T, CAP>);

/// The handles a receive batch holds, in the order they were pushed.
pub uninterp spec fn rx_items(v: ArrayVec<u64, 64>) -> Seq<u64>;

/// The handles a transmit batch holds, in the order they were pushed.
pub uninterp spec fn tx_items(v: ArrayVec<u64, 256>) -> Seq<u64>;

/// `ArrayVec::new`: an empty receive batch.
#[verifier::external_body]
pub(crate) fn rx_new() -> (r: ArrayVec<u64, 64>)
    ensures
        rx_items(r) == Seq::<u64>::empty(),
{
    ArrayVec::new()
}

/// `ArrayVec::len` of a receive batch: the number of handles it holds.
#[verifier::external_body]
pub(crate) fn rx_len(v: &ArrayVec<u64, 64>) -> (r: usize)
    ensures
        r == rx_items(*v).len(),
{
    v.len()
}

/// `ArrayVec::push` on a receive batch: the handle goes last (the call
/// panics on a full batch, which `requires` rules out).
#[verifier::external_body]
pub(crate) fn rx_push(v: &mut ArrayVec<u64, 64>, h: u64)
    requires
        rx_items(*old(v)).len() < RX_BATCH_CAPACITY,
    ensures
        rx_items(*final(v)) == rx_items(*old(v)).push(h),
{
    v.push(h)
}

/// `ArrayVec::pop` on a receive batch: the last handle leaves, `None` when
/// the batch is empty.
#[verifier::external_body]
pub(crate) fn rx_pop(v: &mut ArrayVec<u64, 64>) -> (r: Option<u64>)
    ensures
        rx_items(*old(v)).len() == 0 ==> r is None && rx_items(*final(v)) == rx_items(*old(v)),
        rx_items(*old(v)).len() > 0 ==> r == Some(rx_items(*old(v)).last()) && rx_items(*final(v))
            == rx_items(*old(v)).drop_last(),
{
    v.pop()
}

/// `ArrayVec::new`: an empty transmit batch.
#[verifier::external_body]
pub(crate) fn tx_new() -> (r: ArrayVec<u64, 256>)
    ensures
        tx_items(r) == Seq::<u64>::empty(),
{
    ArrayVec::new()
}

/// `ArrayVec::len` of a transmit batch: the number of handles it holds.
#[verifier::external_body]
pub(crate) fn tx_len(v: &ArrayVec<u64, 256>) -> (r: usize)
    ensures
        r == tx_items(*v).len(),
{
    v.len()
}

/// `ArrayVec::push` on a transmit batch: the handle goes last (the call
/// panics on a full batch, which `requires` rules out).
#[verifier::external_body]
pub(crate) fn tx_push(v: &mut ArrayVec<u64, 256>, h: u64)
    requires
        tx_items(*old(v)).len() < TX_BATCH_CAPACITY,
    ensures
        tx_items(*final(v)) == tx_items(*old(v)).push(h),
{
    v.push(h)
}

/// `ArrayVec::remove` on a transmit batch: the handle at `index` leaves
/// and the later ones shift down (the call panics on an index past the
/// end, which `requires` rules out).
#[verifier::external_body]
pub(crate) fn tx_remove(v: &mut ArrayVec<u64, 256>, index: usize) -> (r: u64)
    requires
        index < tx_items(*old(v)).len(),
    ensures
        r == tx_items(*old(v))[index as int],
        tx_items(*final(v)) == tx_items(*old(v)).remove(index as int),
{
    v.remove(index)
}

/// `ArrayVec::as_slice` of a transmit batch: its handles in order.
#[verifier::external_body]
pub(crate) fn tx_as_slice(v: &ArrayVec<u64, 256>) -> (r: &[u64])
    ensures
        r@ == tx_items(*v),
{
    v.as_slice()
}

} // verus!
