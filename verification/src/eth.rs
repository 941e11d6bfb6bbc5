//! Ethernet device configuration: RX/TX modes, RSS settings, queue
//! configuration, the RSS redirection table, and the order of steps that
//! bring a port up.

use vstd::prelude::*;
use crate::text::{hex_byte, push_hex_byte};

pub mod rss_hf;

verus! {

/// Ethernet device port ID
pub type PortId = u16;

/// Queue ID for RX/TX queues
pub type QueueId = u16;

/// RX queue multi-queue mode
#[derive(Debug, Clone, Copy, PartialEq, Eq, Structural)]
pub enum RxMqMode {
    /// No multi-queue mode
    Disabled,
    /// Receive Side Scaling
    Rss,
    /// Data Center Bridging
    Dcb,
    /// DCB + RSS
    DcbRss,
    /// VMDq only
    Vmdq,
    /// VMDq + DCB
    VmdqDcb,
    /// VMDq + RSS
    VmdqRss,
    /// VMDq + DCB + RSS
    VmdqDcbRss,
}

impl RxMqMode {
    /// The `RTE_ETH_MQ_RX_*` number of this mode.
    pub open spec fn code(self) -> u32 {
        match self {
            RxMqMode::Disabled => 0,
            RxMqMode::Rss => 1,
            RxMqMode::Dcb => 2,
            RxMqMode::DcbRss => 3,
            RxMqMode::Vmdq => 4,
            RxMqMode::VmdqDcb => 5,
            RxMqMode::VmdqRss => 6,
            RxMqMode::VmdqDcbRss => 7,
        }
    }

    /// The `RTE_ETH_MQ_RX_*` number of this mode.
    pub fn value(&self) -> (r: u32)
        ensures
            r == self.code(),
            *self == RxMqMode::Disabled ==> r == 0,
            *self == RxMqMode::Rss ==> r == 1,
            *self == RxMqMode::Dcb ==> r == 2,
            *self == RxMqMode::DcbRss ==> r == 3,
            *self == RxMqMode::Vmdq ==> r == 4,
            *self == RxMqMode::VmdqDcb ==> r == 5,
            *self == RxMqMode::VmdqRss ==> r == 6,
            *self == RxMqMode::VmdqDcbRss ==> r == 7,
    {
        match self {
            RxMqMode::Disabled => 0,
            RxMqMode::Rss => 1,
            RxMqMode::Dcb => 2,
            RxMqMode::DcbRss => 3,
            RxMqMode::Vmdq => 4,
            RxMqMode::VmdqDcb => 5,
            RxMqMode::VmdqRss => 6,
            RxMqMode::VmdqDcbRss => 7,
        }
    }
}

/// Each RX multi-queue mode is DPDK's `RTE_ETH_MQ_RX_*` number: the flag
/// bits RSS = 1, DCB = 2 and VMDq = 4 of the features it combines, so no
/// multi-queue mode is 0 and different modes have different numbers.
pub proof fn lemma_rx_mq_codes(m: RxMqMode, n: RxMqMode)
    ensures
        RxMqMode::Disabled.code() == 0,
        RxMqMode::Rss.code() == 1,
        RxMqMode::Dcb.code() == 2,
        RxMqMode::DcbRss.code() == 3,
        RxMqMode::Vmdq.code() == 4,
        RxMqMode::VmdqDcb.code() == 5,
        RxMqMode::VmdqRss.code() == 6,
        RxMqMode::VmdqDcbRss.code() == 7,
        m.code() < 8,
        m.code() == n.code() <==> m == n,
{
}

impl Default for RxMqMode {
    fn default() -> (r: Self)
        ensures
            r == RxMqMode::Disabled,
    {
        RxMqMode::Disabled
    }
}

/// TX queue multi-queue mode
#[derive(Debug, Clone, Copy, PartialEq, Eq, Structural)]
pub enum TxMqMode {
    /// No multi-queue mode
    Disabled,
    /// Data Center Bridging
    Dcb,
    /// VMDq only
    Vmdq,
    /// VMDq + DCB
    VmdqDcb,
}

impl TxMqMode {
    /// The `RTE_ETH_MQ_TX_*` number of this mode.
    pub open spec fn code(self) -> u32 {
        match self {
            TxMqMode::Disabled => 0,
            TxMqMode::Dcb => 1,
            TxMqMode::Vmdq => 2,
            TxMqMode::VmdqDcb => 3,
        }
    }

    /// The `RTE_ETH_MQ_TX_*` number of this mode.
    pub fn value(&self) -> (r: u32)
        ensures
            r == self.code(),
            *self == TxMqMode::Disabled ==> r == 0,
            *self == TxMqMode::Dcb ==> r == 1,
            *self == TxMqMode::Vmdq ==> r == 2,
            *self == TxMqMode::VmdqDcb ==> r == 3,
    {
        match self {
            TxMqMode::Disabled => 0,
            TxMqMode::Dcb => 1,
            TxMqMode::Vmdq => 2,
            TxMqMode::VmdqDcb => 3,
        }
    }
}

/// Each TX multi-queue mode is DPDK's `RTE_ETH_MQ_TX_*` number, and
/// different modes have different numbers.
pub proof fn lemma_tx_mq_codes(m: TxMqMode, n: TxMqMode)
    ensures
        TxMqMode::Disabled.code() == 0,
        TxMqMode::Dcb.code() == 1,
        TxMqMode::Vmdq.code() == 2,
        TxMqMode::VmdqDcb.code() == 3,
        m.code() < 4,
        m.code() == n.code() <==> m == n,
{
}

impl Default for TxMqMode {
    fn default() -> (r: Self)
        ensures
            r == TxMqMode::Disabled,
    {
        TxMqMode::Disabled
    }
}

/// RX mode configuration
#[derive(Debug, Clone)]
pub struct RxMode {
    /// Multi-queue mode
    pub mq_mode: RxMqMode,
    /// Maximum Transfer Unit
    pub mtu: u32,
    /// RX offload flags (RTE_ETH_RX_OFFLOAD_*)
    pub offloads: u64,
    /// Max LRO aggregated packet size
    pub max_lro_pkt_size: u32,
}

impl Default for RxMode {
    fn default() -> (r: Self)
        ensures
            r.mq_mode == RxMqMode::Disabled,
            r.mtu == 1500,
            r.offloads == 0,
            r.max_lro_pkt_size == 0,
    {
        RxMode { mq_mode: RxMqMode::Disabled, mtu: 1500, offloads: 0, max_lro_pkt_size: 0 }
    }
}

/// TX mode configuration
#[derive(Debug, Clone)]
pub struct TxMode {
    /// Multi-queue mode
    pub mq_mode: TxMqMode,
    /// TX offload flags (RTE_ETH_TX_OFFLOAD_*)
    pub offloads: u64,
}

impl Default for TxMode {
    fn default() -> (r: Self)
        ensures
            r.mq_mode == TxMqMode::Disabled,
            r.offloads == 0,
    {
        TxMode { mq_mode: TxMqMode::Disabled, offloads: 0 }
    }
}

/// The standard Microsoft RSS key (40 bytes) for the Toeplitz hash.
pub open spec fn rss_key_40_spec() -> Seq<u8> {
    seq![
        0x6du8, 0x5a, 0x56, 0xda, 0x25, 0x5b, 0x0e, 0xc2, 0x41, 0x67, 0x25, 0x3d, 0x43, 0xa3, 0x8f,
        0xb0, 0xd0, 0xca, 0x2b, 0xcb, 0xae, 0x7b, 0x30, 0xb4, 0x77, 0xcb, 0x2d, 0xa3, 0x80, 0x30,
        0xf2, 0x0c, 0x6a, 0x42, 0xb7, 0x3b, 0xbe, 0xac, 0x01, 0xfa,
    ]
}

/// Standard Microsoft RSS key (40 bytes) for Toeplitz hash.
/// This key provides good distribution for TCP/IP traffic.
pub fn rss_key_40() -> (r: Vec<u8>)
    ensures
        r@ == rss_key_40_spec(),
{
    let r: Vec<u8> = vec![
        0x6du8, 0x5a, 0x56, 0xda, 0x25, 0x5b, 0x0e, 0xc2, 0x41, 0x67, 0x25, 0x3d, 0x43, 0xa3, 0x8f,
        0xb0, 0xd0, 0xca, 0x2b, 0xcb, 0xae, 0x7b, 0x30, 0xb4, 0x77, 0xcb, 0x2d, 0xa3, 0x80, 0x30,
        0xf2, 0x0c, 0x6a, 0x42, 0xb7, 0x3b, 0xbe, 0xac, 0x01, 0xfa,
    ];
    assert(r@ =~= rss_key_40_spec());
    r
}

/// Ethernet device configuration
#[derive(Debug, Clone)]
pub struct EthConf {
    /// Link speed bitmap (0 for autoneg)
    pub link_speeds: u32,
    /// RX mode configuration
    pub rx_mode: RxMode,
    /// TX mode configuration
    pub tx_mode: TxMode,
    /// Loopback mode (0 = disabled)
    pub loopback_mode: u32,
    /// RSS hash function flags (only used when rx_mode.mq_mode == Rss)
    pub rss_hf: u64,
    /// RSS key (None = use driver default, Some = use this key)
    pub rss_key: Option<Vec<u8>>,
}

/// The RSS key as a sequence of bytes, if one is set.
pub open spec fn key_view(key: Option<Vec<u8>>) -> Option<Seq<u8>> {
    match key {
        Some(k) => Some(k@),
        None => None,
    }
}

/// The configuration every field of which is its default: autonegotiated
/// link, no multi-queue mode, MTU 1500, no offloads, no loopback, no RSS
/// hash functions and no RSS key.
pub open spec fn is_default_conf(c: EthConf) -> bool {
    &&& c.link_speeds == 0
    &&& c.rx_mode.mq_mode == RxMqMode::Disabled
    &&& c.rx_mode.mtu == 1500
    &&& c.rx_mode.offloads == 0
    &&& c.rx_mode.max_lro_pkt_size == 0
    &&& c.tx_mode.mq_mode == TxMqMode::Disabled
    &&& c.tx_mode.offloads == 0
    &&& c.loopback_mode == 0
    &&& c.rss_hf == 0
    &&& c.rss_key is None
}

/// The default configuration leaves the link to autonegotiation, asks for
/// no multi-queue mode (DPDK number 0 both ways), a 1500-byte MTU, no
/// offloads, no loopback and no RSS.
pub proof fn lemma_default_conf_fields(c: EthConf)
    requires
        is_default_conf(c),
    ensures
        c.link_speeds == 0,
        c.rx_mode.mq_mode.code() == 0,
        c.tx_mode.mq_mode.code() == 0,
        c.rx_mode.mtu == 1500,
        c.rx_mode.offloads == 0 && c.tx_mode.offloads == 0,
        c.rx_mode.max_lro_pkt_size == 0,
        c.loopback_mode == 0,
        c.rss_hf == 0 && c.rss_key is None,
        !c.rss_applies(),
{
}

/// `a` and `b` agree on every field but the RX MTU and offloads, the TX
/// offloads, the RX multi-queue mode, the loopback mode and the RSS hash
/// functions and key.
pub open spec fn same_fixed_fields(a: EthConf, b: EthConf) -> bool {
    &&& a.link_speeds == b.link_speeds
    &&& a.rx_mode.max_lro_pkt_size == b.rx_mode.max_lro_pkt_size
    &&& a.tx_mode.mq_mode == b.tx_mode.mq_mode
}

impl Default for EthConf {
    fn default() -> (r: Self)
        ensures
            is_default_conf(r),
    {
        EthConf {
            link_speeds: 0,
            rx_mode: RxMode::default(),
            tx_mode: TxMode::default(),
            loopback_mode: 0,
            rss_hf: 0,
            rss_key: None,
        }
    }
}

impl EthConf {
    /// Create a simple configuration with default settings
    pub fn new() -> (r: Self)
        ensures
            is_default_conf(r),
    {
        Self::default()
    }

    /// Set MTU
    pub fn mtu(self, mtu: u32) -> (r: Self)
        ensures
            same_fixed_fields(r, self),
            r.rx_mode.mtu == mtu,
            r.rx_mode.mq_mode == self.rx_mode.mq_mode,
            r.rx_mode.offloads == self.rx_mode.offloads,
            r.tx_mode.offloads == self.tx_mode.offloads,
            r.loopback_mode == self.loopback_mode,
            r.rss_hf == self.rss_hf,
            key_view(r.rss_key) == key_view(self.rss_key),
    {
        let mut s = self;
        s.rx_mode.mtu = mtu;
        s
    }

    /// Set RX offloads
    pub fn rx_offloads(self, offloads: u64) -> (r: Self)
        ensures
            same_fixed_fields(r, self),
            r.rx_mode.mtu == self.rx_mode.mtu,
            r.rx_mode.mq_mode == self.rx_mode.mq_mode,
            r.rx_mode.offloads == offloads,
            r.tx_mode.offloads == self.tx_mode.offloads,
            r.loopback_mode == self.loopback_mode,
            r.rss_hf == self.rss_hf,
            key_view(r.rss_key) == key_view(self.rss_key),
    {
        let mut s = self;
        s.rx_mode.offloads = offloads;
        s
    }

    /// Set TX offloads
    pub fn tx_offloads(self, offloads: u64) -> (r: Self)
        ensures
            same_fixed_fields(r, self),
            r.rx_mode.mtu == self.rx_mode.mtu,
            r.rx_mode.mq_mode == self.rx_mode.mq_mode,
            r.rx_mode.offloads == self.rx_mode.offloads,
            r.tx_mode.offloads == offloads,
            r.loopback_mode == self.loopback_mode,
            r.rss_hf == self.rss_hf,
            key_view(r.rss_key) == key_view(self.rss_key),
    {
        let mut s = self;
        s.tx_mode.offloads = offloads;
        s
    }

    /// Enable RSS mode with the default TCP/IP hash functions (all IP and
    /// all TCP packet types) and the standard Microsoft RSS key.
    pub fn rss(self) -> (r: Self)
        ensures
            same_fixed_fields(r, self),
            r.rx_mode.mtu == self.rx_mode.mtu,
            r.rx_mode.mq_mode == RxMqMode::Rss,
            r.rx_mode.offloads == self.rx_mode.offloads,
            r.tx_mode.offloads == self.tx_mode.offloads,
            r.loopback_mode == self.loopback_mode,
            r.rss_hf == rss_hf::IP | rss_hf::TCP,
            key_view(r.rss_key) == Some(rss_key_40_spec()),
    {
        let mut s = self;
        s.rx_mode.mq_mode = RxMqMode::Rss;
        s.rss_hf = rss_hf::IP | rss_hf::TCP;
        s.rss_key = Some(rss_key_40());
        s
    }

    /// Enable RSS mode with explicit hash types
    pub fn rss_with_hash(self, hf: u64) -> (r: Self)
        ensures
            same_fixed_fields(r, self),
            r.rx_mode.mtu == self.rx_mode.mtu,
            r.rx_mode.mq_mode == RxMqMode::Rss,
            r.rx_mode.offloads == self.rx_mode.offloads,
            r.tx_mode.offloads == self.tx_mode.offloads,
            r.loopback_mode == self.loopback_mode,
            r.rss_hf == hf,
            r.rss_key is None,
    {
        let mut s = self;
        s.rx_mode.mq_mode = RxMqMode::Rss;
        s.rss_hf = hf;
        s.rss_key = None;
        s
    }

    /// Enable RSS mode hashing on IP and TCP with the Microsoft RSS key
    pub fn rss_with_key(self) -> (r: Self)
        ensures
            same_fixed_fields(r, self),
            r.rx_mode.mtu == self.rx_mode.mtu,
            r.rx_mode.mq_mode == RxMqMode::Rss,
            r.rx_mode.offloads == self.rx_mode.offloads,
            r.tx_mode.offloads == self.tx_mode.offloads,
            r.loopback_mode == self.loopback_mode,
            r.rss_hf == rss_hf::IP | rss_hf::TCP,
            key_view(r.rss_key) == Some(rss_key_40_spec()),
    {
        let mut s = self;
        s.rx_mode.mq_mode = RxMqMode::Rss;
        s.rss_hf = rss_hf::IP | rss_hf::TCP;
        s.rss_key = Some(rss_key_40());
        s
    }

    /// Set custom RSS hash function flags
    pub fn rss_hf(self, hf: u64) -> (r: Self)
        ensures
            same_fixed_fields(r, self),
            r.rx_mode.mtu == self.rx_mode.mtu,
            r.rx_mode.mq_mode == self.rx_mode.mq_mode,
            r.rx_mode.offloads == self.rx_mode.offloads,
            r.tx_mode.offloads == self.tx_mode.offloads,
            r.loopback_mode == self.loopback_mode,
            r.rss_hf == hf,
            key_view(r.rss_key) == key_view(self.rss_key),
    {
        let mut s = self;
        s.rss_hf = hf;
        s
    }

    /// Enable loopback mode
    pub fn loopback(self) -> (r: Self)
        ensures
            same_fixed_fields(r, self),
            r.rx_mode.mtu == self.rx_mode.mtu,
            r.rx_mode.mq_mode == self.rx_mode.mq_mode,
            r.rx_mode.offloads == self.rx_mode.offloads,
            r.tx_mode.offloads == self.tx_mode.offloads,
            r.loopback_mode == 1,
            r.rss_hf == self.rss_hf,
            key_view(r.rss_key) == key_view(self.rss_key),
    {
        let mut s = self;
        s.loopback_mode = 1;
        s
    }

    /// Whether the RSS settings take effect in the device configuration:
    /// RSS mode with a nonzero set of hash functions.
    pub open spec fn rss_applies(self) -> bool {
        self.rx_mode.mq_mode == RxMqMode::Rss && self.rss_hf != 0
    }

    /// Convert to the flat values of `rte_eth_conf`. The RSS hash functions
    /// and key are written only in RSS mode with nonzero hash functions; a
    /// missing key means the driver's default (no key, length 0).
    pub fn to_raw(&self) -> (r: RawEthConf)
        ensures
            r.link_speeds == self.link_speeds,
            r.rx_mq_mode == self.rx_mode.mq_mode.code(),
            r.rx_mtu == self.rx_mode.mtu,
            r.rx_offloads == self.rx_mode.offloads,
            r.rx_max_lro_pkt_size == self.rx_mode.max_lro_pkt_size,
            r.tx_mq_mode == self.tx_mode.mq_mode.code(),
            r.tx_offloads == self.tx_mode.offloads,
            r.lpbk_mode == self.loopback_mode,
            self.rss_applies() ==> r.rss_hf == self.rss_hf && key_view(r.rss_key) == key_view(
                self.rss_key,
            ) && r.rss_key_len == (match self.rss_key {
                Some(k) => k@.len() as u8,
                None => 0u8,
            }),
            !self.rss_applies() ==> r.rss_hf == 0 && r.rss_key is None && r.rss_key_len == 0,
    {
        let mut raw = RawEthConf {
            link_speeds: self.link_speeds,
            rx_mq_mode: self.rx_mode.mq_mode.value(),
            rx_mtu: self.rx_mode.mtu,
            rx_offloads: self.rx_mode.offloads,
            rx_max_lro_pkt_size: self.rx_mode.max_lro_pkt_size,
            tx_mq_mode: self.tx_mode.mq_mode.value(),
            tx_offloads: self.tx_mode.offloads,
            lpbk_mode: self.loopback_mode,
            rss_hf: 0,
            rss_key: None,
            rss_key_len: 0,
        };
        if self.rx_mode.mq_mode == RxMqMode::Rss && self.rss_hf != 0 {
            raw.rss_hf = self.rss_hf;
            match &self.rss_key {
                Some(key) => {
                    let copy = key.clone();
                    assert(copy@ =~= key@);
                    raw.rss_key_len = key.len() as u8;
                    raw.rss_key = Some(copy);
                },
                None => {
                    raw.rss_key = None;
                    raw.rss_key_len = 0;
                },
            }
        }
        raw
    }
}

/// The values of `rte_eth_conf` that the configuration sets (all others
/// are zero).
pub struct RawEthConf {
    pub link_speeds: u32,
    pub rx_mq_mode: u32,
    pub rx_mtu: u32,
    pub rx_offloads: u64,
    pub rx_max_lro_pkt_size: u32,
    pub tx_mq_mode: u32,
    pub tx_offloads: u64,
    pub lpbk_mode: u32,
    /// `rx_adv_conf.rss_conf.rss_hf`
    pub rss_hf: u64,
    /// The bytes `rx_adv_conf.rss_conf.rss_key` points to (None = null)
    pub rss_key: Option<Vec<u8>>,
    /// `rx_adv_conf.rss_conf.rss_key_len`
    pub rss_key_len: u8,
}

/// RX queue configuration
#[derive(Debug, Clone, Copy)]
pub struct RxQueueConf {
    /// Number of descriptors
    pub nb_desc: u16,
    /// NUMA socket ID (-1 for any)
    pub socket_id: i32,
}

impl Default for RxQueueConf {
    fn default() -> (r: Self)
        ensures
            r.nb_desc == 1024,
            r.socket_id == -1,
    {
        RxQueueConf { nb_desc: 1024, socket_id: -1 }
    }
}

impl RxQueueConf {
    /// Create a new RxQueueConf with default values.
    pub fn new() -> (r: Self)
        ensures
            r.nb_desc == 1024,
            r.socket_id == -1,
    {
        Self::default()
    }

    /// Set the number of descriptors for the RX ring.
    pub fn nb_desc(self, n: u16) -> (r: Self)
        ensures
            r.nb_desc == n,
            r.socket_id == self.socket_id,
    {
        RxQueueConf { nb_desc: n, socket_id: self.socket_id }
    }

    /// Set the NUMA socket ID; -1 selects the device's own socket.
    pub fn socket_id(self, id: i32) -> (r: Self)
        ensures
            r.nb_desc == self.nb_desc,
            r.socket_id == id,
    {
        RxQueueConf { nb_desc: self.nb_desc, socket_id: id }
    }
}

/// TX queue configuration
#[derive(Debug, Clone, Copy)]
pub struct TxQueueConf {
    /// Number of descriptors
    pub nb_desc: u16,
    /// NUMA socket ID (-1 for any)
    pub socket_id: i32,
}

impl Default for TxQueueConf {
    fn default() -> (r: Self)
        ensures
            r.nb_desc == 1024,
            r.socket_id == -1,
    {
        TxQueueConf { nb_desc: 1024, socket_id: -1 }
    }
}

impl TxQueueConf {
    /// Create a new TxQueueConf with default values.
    pub fn new() -> (r: Self)
        ensures
            r.nb_desc == 1024,
            r.socket_id == -1,
    {
        Self::default()
    }

    /// Set the number of descriptors for the TX ring.
    pub fn nb_desc(self, n: u16) -> (r: Self)
        ensures
            r.nb_desc == n,
            r.socket_id == self.socket_id,
    {
        TxQueueConf { nb_desc: n, socket_id: self.socket_id }
    }

    /// Set the NUMA socket ID; -1 selects the device's own socket.
    pub fn socket_id(self, id: i32) -> (r: Self)
        ensures
            r.nb_desc == self.nb_desc,
            r.socket_id == id,
    {
        TxQueueConf { nb_desc: self.nb_desc, socket_id: id }
    }
}

/// The socket a queue is set up on: the configured one, or the device's
/// socket when the configuration says -1 (any negative value).
pub open spec fn queue_socket_spec(conf_socket: i32, device_socket: i32) -> u32 {
    if conf_socket < 0 {
        device_socket as u32
    } else {
        conf_socket as u32
    }
}

/// The socket a queue is set up on: the configured one, or the device's
/// socket when the configuration says -1 (any negative value).
pub fn queue_socket(conf_socket: i32, device_socket: i32) -> (r: u32)
    ensures
        r == queue_socket_spec(conf_socket, device_socket),
{
    if conf_socket < 0 {
        device_socket as u32
    } else {
        conf_socket as u32
    }
}

/// One 64-entry group of the RSS redirection table
/// (`rte_eth_rss_reta_entry64`).
pub struct RetaEntry64 {
    /// Which of the 64 entries to update or query.
    pub mask: u64,
    /// The queue of each of the 64 entries.
    pub reta: Vec<u16>,
}

/// Number of 64-entry groups that cover a table of `reta_size` entries.
pub open spec fn reta_groups(reta_size: nat) -> nat {
    (reta_size + 63) / 64
}

/// The queue the round-robin table assigns to entry `idx` of a table of
/// `reta_size` entries over `nb_queues` queues (entries past the table
/// hold 0).
pub open spec fn reta_value(idx: int, reta_size: int, nb_queues: int) -> int {
    if idx < reta_size {
        idx % nb_queues
    } else {
        0
    }
}

/// The groups describe a round-robin table: `reta_size` entries spread
/// over `nb_queues` queues, entry `i` going to queue `i % nb_queues`, each
/// group selecting all of its 64 entries.
pub open spec fn is_round_robin_reta(groups: Seq<RetaEntry64>, reta_size: nat, nb_queues: nat) -> bool {
    &&& groups.len() == reta_groups(reta_size)
    &&& forall|g: int| 0 <= g < groups.len() ==> (#[trigger] groups[g]).mask == u64::MAX
        && groups[g].reta@.len() == 64
    &&& forall|g: int, i: int|
        0 <= g < groups.len() && 0 <= i < 64 ==> (#[trigger] groups[g].reta@[i]) as int
            == reta_value(g * 64 + i, reta_size as int, nb_queues as int)
}

/// Builds the RSS redirection table that distributes traffic evenly over
/// `nb_rx_queues` queues: entry `i` goes to queue `i % nb_rx_queues`.
pub fn build_round_robin_reta(reta_size: u16, nb_rx_queues: u16) -> (r: Vec<RetaEntry64>)
    requires
        reta_size > 0 ==> nb_rx_queues > 0,
    ensures
        is_round_robin_reta(r@, reta_size as nat, nb_rx_queues as nat),
{
    let size = reta_size as usize;
    let n = nb_rx_queues as usize;
    let num_groups = (size + 63) / 64;
    let mut groups: Vec<RetaEntry64> = Vec::new();
    let mut g: usize = 0;
    while g < num_groups
        invariant
            size == reta_size,
            n == nb_rx_queues,
            size > 0 ==> n > 0,
            num_groups == reta_groups(size as nat),
            g <= num_groups,
            groups.len() == g,
            forall|h: int| 0 <= h < g ==> (#[trigger] groups@[h]).mask == u64::MAX
                && groups@[h].reta@.len() == 64,
            forall|h: int, i: int|
                0 <= h < g && 0 <= i < 64 ==> (#[trigger] groups@[h].reta@[i]) as int
                    == reta_value(h * 64 + i, size as int, n as int),
        decreases num_groups - g,
    {
        let mut reta: Vec<u16> = Vec::new();
        let mut i: usize = 0;
        while i < 64
            invariant
                size == reta_size,
                n == nb_rx_queues,
                size > 0 ==> n > 0,
                g < num_groups,
                num_groups == reta_groups(size as nat),
                i <= 64,
                reta.len() == i,
                forall|j: int| 0 <= j < i ==> (#[trigger] reta@[j]) as int == reta_value(
                    g * 64 + j,
                    size as int,
                    n as int,
                ),
            decreases 64 - i,
        {
            let entry_idx = g * 64 + i;
            if entry_idx < size {
                let q = (entry_idx % n) as u16;
                reta.push(q);
            } else {
                reta.push(0);
            }
            i += 1;
        }
        groups.push(RetaEntry64 { mask: u64::MAX, reta });
        g += 1;
    }
    groups
}

/// Reading back a round-robin redirection table gives, for every entry
/// `k`, the queue `k % nb_queues`: every queue number in the table is in
/// range and consecutive entries cycle through all the queues.
pub proof fn lemma_round_robin_reta(groups: Seq<RetaEntry64>, reta_size: nat, nb_queues: nat)
    requires
        is_round_robin_reta(groups, reta_size, nb_queues),
        nb_queues > 0,
    ensures
        forall|k: int|
            0 <= k < reta_size ==> #[trigger] reta_entry(groups, k) as int == k % (nb_queues as int)
                && reta_entry(groups, k) < nb_queues,
{
    assert forall|k: int| 0 <= k < reta_size implies #[trigger] reta_entry(groups, k) as int == k % (
    nb_queues as int) && reta_entry(groups, k) < nb_queues by {
        let g = k / 64;
        let i = k % 64;
        assert(0 <= g && g * 64 + i == k && 0 <= i < 64) by (nonlinear_arith)
            requires
                0 <= k,
                g == k / 64,
                i == k % 64,
        ;
        assert(g < (reta_size + 63) / 64) by (nonlinear_arith)
            requires
                0 <= k < reta_size,
                g == k / 64,
        ;
        assert(groups[g].reta@[i] as int == reta_value(g * 64 + i, reta_size as int, nb_queues as int));
    }
}

/// Entry `k` of a table given by its 64-entry groups.
pub open spec fn reta_entry(groups: Seq<RetaEntry64>, k: int) -> u16 {
    groups[k / 64].reta@[k % 64]
}

/// Flattens queried 64-entry groups into the first `reta_size` entries of
/// the redirection table, in entry order.
pub fn flatten_reta(groups: &Vec<RetaEntry64>, reta_size: u16) -> (r: Vec<u16>)
    requires
        groups@.len() * 64 >= reta_size,
        forall|g: int| 0 <= g < groups@.len() ==> (#[trigger] groups@[g]).reta@.len() == 64,
    ensures
        r@.len() == reta_size,
        forall|k: int| 0 <= k < reta_size ==> #[trigger] r@[k] == reta_entry(groups@, k),
{
    let size = reta_size as usize;
    let mut result: Vec<u16> = Vec::new();
    let mut g: usize = 0;
    let mut base: usize = 0;
    while g < groups.len() && base < size
        invariant
            size == reta_size,
            base == g * 64,
            groups@.len() * 64 >= size,
            forall|h: int| 0 <= h < groups@.len() ==> (#[trigger] groups@[h]).reta@.len() == 64,
            g <= groups.len(),
            base <= size + 64,
            result@.len() == (if base <= size { base as int } else { size as int }),
            forall|k: int| 0 <= k < result@.len() ==> #[trigger] result@[k] == reta_entry(groups@, k),
        decreases groups.len() - g,
    {
        let mut i: usize = 0;
        while i < 64 && base + i < size
            invariant
                size == reta_size,
                base == g * 64,
                g < groups.len(),
                base < size,
                groups@[g as int].reta@.len() == 64,
                i <= 64,
                result@.len() == base + i,
                result@.len() <= size,
                forall|k: int| 0 <= k < result@.len() ==> #[trigger] result@[k] == reta_entry(groups@, k),
            decreases 64 - i,
        {
            let v = groups[g].reta[i];
            assert((g * 64 + i) / 64 == g && (g * 64 + i) % 64 == i) by (nonlinear_arith)
                requires
                    i < 64,
            ;
            result.push(v);
            i += 1;
        }
        g += 1;
        base += 64;
    }
    proof {
        if base < size {
            assert(g == groups.len());
            assert(base >= size);
        }
    }
    result
}

/// Whether the hash functions include TCP-port hashing (IPv4-TCP or
/// IPv6-TCP), i.e. hashing on the 4-tuple rather than on IP addresses only.
pub open spec fn hashes_tcp_ports(rss_hf: u64) -> bool {
    rss_hf & (rss_hf::NONFRAG_IPV4_TCP | rss_hf::NONFRAG_IPV6_TCP) != 0
}

/// TCP-port hashing is on exactly when the IPv4-TCP bit (bit 4) or the
/// IPv6-TCP bit (bit 10) is set; either alone counts, and no other bit
/// does.
pub proof fn lemma_tcp_ports_bits(hf: u64)
    ensures
        hashes_tcp_ports(hf) <==> (hf & 16u64 != 0 || hf & 1024u64 != 0),
        hashes_tcp_ports(16u64),
        hashes_tcp_ports(1024u64),
        !hashes_tcp_ports(hf & !1040u64),
{
    assert(rss_hf::NONFRAG_IPV4_TCP | rss_hf::NONFRAG_IPV6_TCP == 1040u64) by (bit_vector);
    assert((hf & 1040u64 != 0) <==> (hf & 16u64 != 0 || hf & 1024u64 != 0)) by (bit_vector);
    assert(16u64 & 1040u64 != 0) by (bit_vector);
    assert(1024u64 & 1040u64 != 0) by (bit_vector);
    assert((hf & !1040u64) & 1040u64 == 0) by (bit_vector);
}

/// Ethernet device wrapper
pub struct EthDev {
    port_id: PortId,
}

impl EthDev {
    /// The port this handle refers to.
    pub closed spec fn port(&self) -> PortId {
        self.port_id
    }

    /// Create a handle for an existing port.
    ///
    /// Does not configure or start the device.
    pub fn new(port_id: PortId) -> (r: Self)
        ensures
            r.port() == port_id,
    {
        Self { port_id }
    }

    /// Get the port ID
    pub fn port_id(&self) -> (r: PortId)
        ensures
            r == self.port(),
    {
        self.port_id
    }

    /// Check if TCP RSS hashing is actually enabled on this device, given
    /// the answer of `rte_eth_dev_rss_hash_conf_get` (the enabled hash
    /// functions and the key, or the error). True when the device hashes on
    /// TCP ports (4-tuple), false if only IP-based hashing is active.
    pub fn has_tcp_rss(&self, hash_conf: Result<(u64, Vec<u8>), nix::errno::Errno>) -> (r: Result<
        bool,
        nix::errno::Errno,
    >)
        ensures
            hash_conf matches Ok((hf, _)) ==> r == Ok::<bool, nix::errno::Errno>(
                hashes_tcp_ports(hf),
            ),
            hash_conf matches Ok((hf, _)) ==> (r == Ok::<bool, nix::errno::Errno>(true) <==> (hf
                & 16u64 != 0 || hf & 1024u64 != 0)),
            hash_conf matches Err(e) ==> r == Err::<bool, nix::errno::Errno>(e),
    {
        match hash_conf {
            Ok((rss_hf, _key)) => {
                proof {
                    lemma_tcp_ports_bits(rss_hf);
                }
                let tcp_flags = rss_hf::NONFRAG_IPV4_TCP | rss_hf::NONFRAG_IPV6_TCP;
                Ok((rss_hf & tcp_flags) != 0)
            },
            Err(e) => Err(e),
        }
    }
}

/// The port IDs `0..count` of the available Ethernet devices, where
/// `count` is what `rte_eth_dev_count_avail` reports.
pub fn iter_ports(count: u16) -> (r: Vec<PortId>)
    ensures
        r@.len() == count,
        forall|i: int| 0 <= i < count ==> #[trigger] r@[i] == i,
{
    let mut ports: Vec<PortId> = Vec::new();
    let mut p: u16 = 0;
    while p < count
        invariant
            p <= count,
            ports@.len() == p,
            forall|i: int| 0 <= i < p ==> #[trigger] ports@[i] == i,
        decreases count - p,
    {
        ports.push(p);
        p += 1;
    }
    ports
}

/// One step of bringing up an Ethernet device, in the order
/// [`EthDevBuilder::plan`] lists them.
#[derive(Debug, Clone, Copy, PartialEq, Eq, Structural)]
pub enum DevStep {
    /// `rte_eth_dev_configure` with the queue counts and the configuration
    Configure { nb_rx_queues: u16, nb_tx_queues: u16 },
    /// `rte_eth_rx_queue_setup` for one RX queue
    RxQueueSetup { queue_id: QueueId },
    /// `rte_eth_tx_queue_setup` for one TX queue
    TxQueueSetup { queue_id: QueueId },
    /// Program the round-robin RSS redirection table over the RX queues
    ConfigureRssReta { nb_rx_queues: u16 },
    /// `rte_eth_dev_rss_hash_update` with these hash functions and the
    /// Microsoft RSS key
    UpdateRssHash { rss_hf: u64 },
    /// `rte_eth_promiscuous_enable`
    PromiscuousEnable,
    /// `rte_eth_dev_start`
    Start,
}

impl DevStep {
    /// Whether a failure of this step aborts the bring-up. The RSS steps
    /// are best effort (drivers may not support them): their failure is
    /// only logged.
    pub open spec fn fatal(self) -> bool {
        match self {
            DevStep::ConfigureRssReta { .. } => false,
            DevStep::UpdateRssHash { .. } => false,
            _ => true,
        }
    }

    /// Whether a failure of this step aborts the bring-up.
    pub fn is_fatal(&self) -> (r: bool)
        ensures
            r == self.fatal(),
            r <==> !(*self is ConfigureRssReta || *self is UpdateRssHash),
    {
        match self {
            DevStep::ConfigureRssReta { .. } => false,
            DevStep::UpdateRssHash { .. } => false,
            _ => true,
        }
    }
}

/// Only the two RSS steps are best effort: configuring, setting up an RX or
/// TX queue, enabling promiscuous mode and starting are all fatal.
pub proof fn lemma_only_rss_steps_best_effort(s: DevStep)
    ensures
        s.fatal() <==> !(s is ConfigureRssReta || s is UpdateRssHash),
        s is Configure ==> s.fatal(),
        s is RxQueueSetup ==> s.fatal(),
        s is TxQueueSetup ==> s.fatal(),
        s is PromiscuousEnable ==> s.fatal(),
        s is Start ==> s.fatal(),
{
}

/// The RX queue setups for queues `0..n`, in order.
pub open spec fn rx_setups(n: u16) -> Seq<DevStep> {
    Seq::new(n as nat, |q: int| DevStep::RxQueueSetup { queue_id: q as u16 })
}

/// The TX queue setups for queues `0..n`, in order.
pub open spec fn tx_setups(n: u16) -> Seq<DevStep> {
    Seq::new(n as nat, |q: int| DevStep::TxQueueSetup { queue_id: q as u16 })
}

/// The bring-up sequence: configure; set up every RX queue, then every TX
/// queue; with more than one RX queue, program the redirection table and,
/// when hash functions are configured, update the RSS hash; enable
/// promiscuous mode if requested; start.
pub open spec fn plan_spec(
    nb_rx: u16,
    nb_tx: u16,
    rss_hf: u64,
    promiscuous: bool,
) -> Seq<DevStep> {
    let rss: Seq<DevStep> = if nb_rx > 1 {
        if rss_hf != 0 {
            seq![
                DevStep::ConfigureRssReta { nb_rx_queues: nb_rx },
                DevStep::UpdateRssHash { rss_hf },
            ]
        } else {
            seq![DevStep::ConfigureRssReta { nb_rx_queues: nb_rx }]
        }
    } else {
        Seq::empty()
    };
    let promisc: Seq<DevStep> = if promiscuous {
        seq![DevStep::PromiscuousEnable]
    } else {
        Seq::empty()
    };
    seq![DevStep::Configure { nb_rx_queues: nb_rx, nb_tx_queues: nb_tx }] + rx_setups(nb_rx)
        + tx_setups(nb_tx) + rss + promisc + seq![DevStep::Start]
}

/// What the bring-up does after a step returned.
#[derive(Debug)]
pub enum StepDecision {
    /// Go on with the next step.
    Continue,
    /// Stop and report this error.
    Abort(nix::errno::Errno),
}

/// What the bring-up does after `step` returned `outcome`: a failed fatal
/// step aborts with its error, anything else continues.
pub fn after_step(step: &DevStep, outcome: Result<(), nix::errno::Errno>) -> (r: StepDecision)
    ensures
        (step.fatal() && outcome is Err) ==> r == StepDecision::Abort(outcome->Err_0),
        !(step.fatal() && outcome is Err) ==> r is Continue,
        outcome is Err && !(*step is ConfigureRssReta || *step is UpdateRssHash) ==> r
            == StepDecision::Abort(outcome->Err_0),
        outcome is Ok || *step is ConfigureRssReta || *step is UpdateRssHash ==> r is Continue,
{
    match outcome {
        Err(e) => {
            if step.is_fatal() {
                StepDecision::Abort(e)
            } else {
                StepDecision::Continue
            }
        },
        Ok(()) => StepDecision::Continue,
    }
}

/// Builder for configuring and starting an Ethernet device
pub struct EthDevBuilder {
    port_id: PortId,
    eth_conf: EthConf,
    nb_rx_queues: u16,
    nb_tx_queues: u16,
    rx_queue_conf: RxQueueConf,
    tx_queue_conf: TxQueueConf,
    promiscuous: bool,
}

impl EthDevBuilder {
    pub closed spec fn port(&self) -> PortId {
        self.port_id
    }

    pub closed spec fn conf(&self) -> EthConf {
        self.eth_conf
    }

    pub closed spec fn rx_queues(&self) -> u16 {
        self.nb_rx_queues
    }

    pub closed spec fn tx_queues(&self) -> u16 {
        self.nb_tx_queues
    }

    pub closed spec fn rx_conf(&self) -> RxQueueConf {
        self.rx_queue_conf
    }

    pub closed spec fn tx_conf(&self) -> TxQueueConf {
        self.tx_queue_conf
    }

    pub closed spec fn promisc(&self) -> bool {
        self.promiscuous
    }

    /// Create a new builder for the given port: default configuration, one
    /// RX and one TX queue with default queue configurations, promiscuous
    /// mode off.
    pub fn new(port_id: PortId) -> (r: Self)
        ensures
            r.port() == port_id,
            is_default_conf(r.conf()),
            r.rx_queues() == 1,
            r.tx_queues() == 1,
            r.rx_conf().nb_desc == 1024 && r.rx_conf().socket_id == -1,
            r.tx_conf().nb_desc == 1024 && r.tx_conf().socket_id == -1,
            !r.promisc(),
    {
        Self {
            port_id,
            eth_conf: EthConf::default(),
            nb_rx_queues: 1,
            nb_tx_queues: 1,
            rx_queue_conf: RxQueueConf::default(),
            tx_queue_conf: TxQueueConf::default(),
            promiscuous: false,
        }
    }

    /// Set device configuration
    pub fn eth_conf(self, conf: EthConf) -> (r: Self)
        ensures
            r.conf() == conf,
            r.port() == self.port(),
            r.rx_queues() == self.rx_queues(),
            r.tx_queues() == self.tx_queues(),
            r.rx_conf() == self.rx_conf(),
            r.tx_conf() == self.tx_conf(),
            r.promisc() == self.promisc(),
    {
        let mut s = self;
        s.eth_conf = conf;
        s
    }

    /// Set number of RX queues
    pub fn nb_rx_queues(self, n: u16) -> (r: Self)
        ensures
            r.rx_queues() == n,
            r.conf() == self.conf(),
            r.port() == self.port(),
            r.tx_queues() == self.tx_queues(),
            r.rx_conf() == self.rx_conf(),
            r.tx_conf() == self.tx_conf(),
            r.promisc() == self.promisc(),
    {
        let mut s = self;
        s.nb_rx_queues = n;
        s
    }

    /// Set number of TX queues
    pub fn nb_tx_queues(self, n: u16) -> (r: Self)
        ensures
            r.tx_queues() == n,
            r.conf() == self.conf(),
            r.port() == self.port(),
            r.rx_queues() == self.rx_queues(),
            r.rx_conf() == self.rx_conf(),
            r.tx_conf() == self.tx_conf(),
            r.promisc() == self.promisc(),
    {
        let mut s = self;
        s.nb_tx_queues = n;
        s
    }

    /// Set RX queue configuration (applied to all queues)
    pub fn rx_queue_conf(self, conf: RxQueueConf) -> (r: Self)
        ensures
            r.rx_conf() == conf,
            r.conf() == self.conf(),
            r.port() == self.port(),
            r.rx_queues() == self.rx_queues(),
            r.tx_queues() == self.tx_queues(),
            r.tx_conf() == self.tx_conf(),
            r.promisc() == self.promisc(),
    {
        let mut s = self;
        s.rx_queue_conf = conf;
        s
    }

    /// Set TX queue configuration (applied to all queues)
    pub fn tx_queue_conf(self, conf: TxQueueConf) -> (r: Self)
        ensures
            r.tx_conf() == conf,
            r.conf() == self.conf(),
            r.port() == self.port(),
            r.rx_queues() == self.rx_queues(),
            r.tx_queues() == self.tx_queues(),
            r.rx_conf() == self.rx_conf(),
            r.promisc() == self.promisc(),
    {
        let mut s = self;
        s.tx_queue_conf = conf;
        s
    }

    /// Enable promiscuous mode
    pub fn promiscuous(self) -> (r: Self)
        ensures
            r.promisc(),
            r.conf() == self.conf(),
            r.port() == self.port(),
            r.rx_queues() == self.rx_queues(),
            r.tx_queues() == self.tx_queues(),
            r.rx_conf() == self.rx_conf(),
            r.tx_conf() == self.tx_conf(),
    {
        let mut s = self;
        s.promiscuous = true;
        s
    }

    /// The device configuration to pass to `rte_eth_dev_configure`.
    pub fn configuration(&self) -> (r: &EthConf)
        ensures
            *r == self.conf(),
    {
        &self.eth_conf
    }

    /// The RX queue configuration applied to every RX queue.
    pub fn rx_configuration(&self) -> (r: RxQueueConf)
        ensures
            r == self.rx_conf(),
    {
        self.rx_queue_conf
    }

    /// The TX queue configuration applied to every TX queue.
    pub fn tx_configuration(&self) -> (r: TxQueueConf)
        ensures
            r == self.tx_conf(),
    {
        self.tx_queue_conf
    }

    /// The port this builder configures.
    pub fn port_id(&self) -> (r: PortId)
        ensures
            r == self.port(),
    {
        self.port_id
    }

    /// The steps that build and start the device, in order (see
    /// [`plan_spec`]); run each and feed its outcome to [`after_step`].
    pub fn plan(&self) -> (r: Vec<DevStep>)
        ensures
            r@ == plan_spec(self.rx_queues(), self.tx_queues(), self.conf().rss_hf, self.promisc()),
    {
        let mut steps: Vec<DevStep> = Vec::new();
        steps.push(
            DevStep::Configure {
                nb_rx_queues: self.nb_rx_queues,
                nb_tx_queues: self.nb_tx_queues,
            },
        );
        let ghost head = steps@;
        let mut q: u16 = 0;
        while q < self.nb_rx_queues
            invariant
                q <= self.nb_rx_queues,
                steps@ == head + Seq::new(q as nat, |k: int| DevStep::RxQueueSetup { queue_id: k as u16 }),
            decreases self.nb_rx_queues - q,
        {
            steps.push(DevStep::RxQueueSetup { queue_id: q });
            assert(steps@ =~= head + Seq::new((q + 1) as nat, |k: int| DevStep::RxQueueSetup { queue_id: k as u16 }));
            q += 1;
        }
        let ghost head2 = steps@;
        assert(head2 =~= head + rx_setups(self.nb_rx_queues));
        let mut t: u16 = 0;
        while t < self.nb_tx_queues
            invariant
                t <= self.nb_tx_queues,
                steps@ == head2 + Seq::new(t as nat, |k: int| DevStep::TxQueueSetup { queue_id: k as u16 }),
            decreases self.nb_tx_queues - t,
        {
            steps.push(DevStep::TxQueueSetup { queue_id: t });
            assert(steps@ =~= head2 + Seq::new((t + 1) as nat, |k: int| DevStep::TxQueueSetup { queue_id: k as u16 }));
            t += 1;
        }
        assert(steps@ =~= head2 + tx_setups(self.nb_tx_queues));
        if self.nb_rx_queues > 1 {
            steps.push(DevStep::ConfigureRssReta { nb_rx_queues: self.nb_rx_queues });
            if self.eth_conf.rss_hf != 0 {
                steps.push(DevStep::UpdateRssHash { rss_hf: self.eth_conf.rss_hf });
            }
        }
        if self.promiscuous {
            steps.push(DevStep::PromiscuousEnable);
        }
        steps.push(DevStep::Start);
        assert(steps@ =~= plan_spec(
            self.rx_queues(),
            self.tx_queues(),
            self.conf().rss_hf,
            self.promisc(),
        ));
        steps
    }
}

/// The text form of a MAC address: its six bytes as two-digit lowercase
/// hexadecimal numbers separated by colons, as in `02:00:0a:1b:2c:3d`.
pub open spec fn mac_text(a: Seq<u8>) -> Seq<char> {
    hex_byte(a[0]) + seq![':'] + hex_byte(a[1]) + seq![':'] + hex_byte(a[2]) + seq![':'] + hex_byte(
        a[3],
    ) + seq![':'] + hex_byte(a[4]) + seq![':'] + hex_byte(a[5])
}

/// Format a MAC address as `xx:xx:xx:xx:xx:xx`.
pub fn format_mac_addr(addr: &[u8; 6]) -> (r: String)
    ensures
        r@ == mac_text(addr@),
{
    proof {
        reveal_strlit(":");
    }
    let mut s = String::new();
    push_hex_byte(&mut s, addr[0]);
    s.append(":");
    push_hex_byte(&mut s, addr[1]);
    s.append(":");
    push_hex_byte(&mut s, addr[2]);
    s.append(":");
    push_hex_byte(&mut s, addr[3]);
    s.append(":");
    push_hex_byte(&mut s, addr[4]);
    s.append(":");
    push_hex_byte(&mut s, addr[5]);
    assert(s@ =~= mac_text(addr@));
    s
}

} // verus!
