//! Configuration of packet-buffer (mbuf) pools.

use vstd::prelude::*;

verus! {

/// Default data room of an mbuf (`RTE_MBUF_DEFAULT_DATAROOM`).
pub const RTE_MBUF_DEFAULT_DATAROOM: u16 = 2048;

/// Headroom reserved at the front of each mbuf (`RTE_PKTMBUF_HEADROOM`).
pub const RTE_PKTMBUF_HEADROOM: u16 = 128;

/// Configuration for creating a MemPool
#[derive(Debug, Clone, Copy)]
pub struct MemPoolConfig {
    /// Number of mbufs in the pool (optimum: 2^q - 1)
    pub num_mbufs: u32,
    /// Per-core cache size (0 to disable caching)
    pub cache_size: u32,
    /// Private area size between rte_mbuf struct and data buffer
    pub priv_size: u16,
    /// Data room size including RTE_PKTMBUF_HEADROOM
    pub data_room_size: u16,
    /// NUMA socket ID (-1 for SOCKET_ID_ANY)
    pub socket_id: i32,
}

/// The default pool: 8191 mbufs (2^13 - 1), a 256-entry per-core cache,
/// no private area, the default data room plus headroom, any socket.
pub open spec fn is_default_pool(c: MemPoolConfig) -> bool {
    &&& c.num_mbufs == 8191
    &&& c.cache_size == 256
    &&& c.priv_size == 0
    &&& c.data_room_size == RTE_MBUF_DEFAULT_DATAROOM + RTE_PKTMBUF_HEADROOM
    &&& c.socket_id == -1
}

/// The default pool holds 8191 mbufs with a 256-mbuf per-lcore cache, no
/// private area, 2048 bytes of data room plus 128 bytes of headroom (2176
/// in all), on any NUMA socket.
pub proof fn lemma_default_pool_values(c: MemPoolConfig)
    requires
        is_default_pool(c),
    ensures
        c.num_mbufs == 8191,
        c.cache_size == 256,
        c.priv_size == 0,
        c.data_room_size == 2176,
        c.socket_id == -1,
{
}

impl Default for MemPoolConfig {
    fn default() -> (r: Self)
        ensures
            is_default_pool(r),
    {
        MemPoolConfig {
            num_mbufs: 8191,
            cache_size: 256,
            priv_size: 0,
            data_room_size: RTE_MBUF_DEFAULT_DATAROOM + RTE_PKTMBUF_HEADROOM,
            socket_id: -1,
        }
    }
}

impl MemPoolConfig {
    /// Create a new MemPoolConfig with default values.
    pub fn new() -> (r: Self)
        ensures
            is_default_pool(r),
    {
        Self::default()
    }

    /// Set the number of mbufs in the pool.
    pub fn num_mbufs(self, n: u32) -> (r: Self)
        ensures
            r == (MemPoolConfig { num_mbufs: n, ..self }),
    {
        MemPoolConfig { num_mbufs: n, ..self }
    }

    /// Set the per-core cache size (0 disables caching).
    pub fn cache_size(self, size: u32) -> (r: Self)
        ensures
            r == (MemPoolConfig { cache_size: size, ..self }),
    {
        MemPoolConfig { cache_size: size, ..self }
    }

    /// Set the private area size between rte_mbuf struct and data buffer.
    pub fn priv_size(self, size: u16) -> (r: Self)
        ensures
            r == (MemPoolConfig { priv_size: size, ..self }),
    {
        MemPoolConfig { priv_size: size, ..self }
    }

    /// Set the data room size (including RTE_PKTMBUF_HEADROOM).
    pub fn data_room_size(self, size: u16) -> (r: Self)
        ensures
            r == (MemPoolConfig { data_room_size: size, ..self }),
    {
        MemPoolConfig { data_room_size: size, ..self }
    }

    /// Set the NUMA socket ID (-1 for any socket).
    pub fn socket_id(self, id: i32) -> (r: Self)
        ensures
            r == (MemPoolConfig { socket_id: id, ..self }),
    {
        MemPoolConfig { socket_id: id, ..self }
    }

    /// The default configuration with the given number of mbufs.
    pub fn with_num_mbufs(num_mbufs: u32) -> (r: Self)
        ensures
            r.num_mbufs == num_mbufs,
            r.cache_size == 256 && r.priv_size == 0 && r.socket_id == -1,
            r.data_room_size == RTE_MBUF_DEFAULT_DATAROOM + RTE_PKTMBUF_HEADROOM,
    {
        MemPoolConfig { num_mbufs, ..Self::default() }
    }
}

} // verus!
