//! Length bookkeeping of packet buffers (mbufs): which lengths DPDK's
//! mbuf calls accept, and the data and packet lengths after growing or
//! shrinking a buffer in place.

use vstd::prelude::*;

verus! {

/// The length argument of DPDK's append, prepend, adj and trim calls
/// (a `u16`), or `None` when `len` does not fit: the call is then refused
/// without reaching DPDK.
pub fn len_arg(len: usize) -> (r: Option<u16>)
    ensures
        r is Some <==> len <= u16::MAX,
        r matches Some(v) ==> v == len,
{
    if len <= 65535 {
        Some(len as u16)
    } else {
        None
    }
}

/// The total room of a buffer: its data length plus its tailroom.
pub fn capacity(data_len: u16, tailroom: u16) -> (r: usize)
    ensures
        r == data_len + tailroom,
{
    data_len as usize + tailroom as usize
}

/// The data and packet lengths after growing the data by `len` bytes into
/// the tailroom (the caller guarantees the tailroom suffices).
pub fn extended_lengths(data_len: u16, pkt_len: u32, tailroom: u16, len: usize) -> (r: (u16, u32))
    requires
        len <= tailroom,
        data_len + tailroom <= u16::MAX,
        pkt_len + len <= u32::MAX,
    ensures
        r.0 == data_len + len,
        r.1 == pkt_len + len,
{
    ((data_len as usize + len) as u16, (pkt_len as usize + len) as u32)
}

/// The data and packet lengths after dropping `len` bytes from the end of
/// the data; each stops at zero.
pub fn shrunk_lengths(data_len: u16, pkt_len: u32, len: usize) -> (r: (u16, u32))
    ensures
        r.0 == (if len <= data_len {
            data_len - len
        } else {
            0
        }),
        r.1 == (if len <= pkt_len {
            pkt_len - len
        } else {
            0
        }),
{
    let d: u16 = if len <= data_len as usize {
        data_len - len as u16
    } else {
        0
    };
    let p: u32 = if len <= pkt_len as usize {
        (pkt_len as usize - len) as u32
    } else {
        0
    };
    (d, p)
}

} // verus!
