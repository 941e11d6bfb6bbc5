//! The decisions of the lcore-per-queue application runner: its
//! configuration, the checks before start-up, the device and pool it asks
//! for, and which queue each lcore serves.

use vstd::prelude::*;
use crate::arp::Ipv4Address;
use crate::eth::{is_default_conf, rss_hf, EthConf, EthDevBuilder, RxMqMode, RxQueueConf, TxMqMode, TxQueueConf};
use crate::lcore::{ids_of, Lcore};
use crate::mempool::{MemPoolConfig, RTE_PKTMBUF_HEADROOM, RTE_MBUF_DEFAULT_DATAROOM};

verus! {

/// Default headroom reserved at the front of each mbuf
pub const DEFAULT_MBUF_HEADROOM: usize = 128;

/// Default data room size for mbufs (2048 bytes of usable space + headroom)
pub const DEFAULT_MBUF_DATA_ROOM_SIZE: u16 = 2176;

/// Default MTU
pub const DEFAULT_MTU: usize = 1500;

/// Errors returned by the application runner.
#[derive(Debug)]
pub enum DpdkAppError {
    /// IP address was not configured.
    MissingIpAddress,
    /// Gateway was not configured.
    MissingGateway,
    /// No lcores available.
    NoLcores,
    /// Failed to query or configure the Ethernet device.
    DeviceError(String),
    /// Failed to create mempool.
    MempoolError(String),
}

impl DpdkAppError {
    /// The error's message.
    pub open spec fn message_spec(&self) -> Seq<char> {
        match self {
            DpdkAppError::MissingIpAddress => "IP address not set. Call ip() before run()"@,
            DpdkAppError::MissingGateway => "Gateway not set. Call gateway() before run()"@,
            DpdkAppError::NoLcores => "No lcores available. Ensure EAL is initialized with -l flag"@,
            DpdkAppError::DeviceError(e) => "Device error: "@ + e@,
            DpdkAppError::MempoolError(e) => "Mempool error: "@ + e@,
        }
    }

    /// The error's message, as the runner reports it.
    pub fn message(&self) -> (r: String)
        ensures
            r@ == self.message_spec(),
    {
        match self {
            DpdkAppError::MissingIpAddress => String::from_str(
                "IP address not set. Call ip() before run()",
            ),
            DpdkAppError::MissingGateway => String::from_str(
                "Gateway not set. Call gateway() before run()",
            ),
            DpdkAppError::NoLcores => String::from_str(
                "No lcores available. Ensure EAL is initialized with -l flag",
            ),
            DpdkAppError::DeviceError(e) => String::from_str("Device error: ").concat(e.as_str()),
            DpdkAppError::MempoolError(e) => String::from_str("Mempool error: ").concat(e.as_str()),
        }
    }
}

/// Builder for configuring and running a DPDK application: one RX/TX
/// queue per lcore.
pub struct DpdkApp {
    port_id: u16,
    ip_addr: Option<Ipv4Address>,
    gateway: Option<Ipv4Address>,
    mbufs_per_queue: u32,
    rx_desc: u16,
    tx_desc: u16,
    subnet_prefix: u8,
}

/// The settings of an application runner, field by field.
pub struct DpdkAppSettings {
    pub port_id: u16,
    pub ip_addr: Option<Ipv4Address>,
    pub gateway: Option<Ipv4Address>,
    pub mbufs_per_queue: u32,
    pub rx_desc: u16,
    pub tx_desc: u16,
    pub subnet_prefix: u8,
}

/// A configuration that enables RSS over TCP and UDP ports and leaves every
/// other field at its default: autonegotiated link, MTU 1500, no RX or TX
/// offloads, no LRO size, no TX multi-queue mode, no loopback, no RSS key.
pub open spec fn default_but_rss(c: EthConf) -> bool {
    &&& c.rx_mode.mq_mode == RxMqMode::Rss
    &&& c.rss_hf == (rss_hf::TCP | rss_hf::UDP)
    &&& c.link_speeds == 0
    &&& c.rx_mode.mtu == 1500
    &&& c.rx_mode.offloads == 0
    &&& c.rx_mode.max_lro_pkt_size == 0
    &&& c.tx_mode.mq_mode == TxMqMode::Disabled
    &&& c.tx_mode.offloads == 0
    &&& c.loopback_mode == 0
    &&& c.rss_key is None
}

/// The multi-queue configuration differs from the default one in the RX
/// multi-queue mode and the hash functions alone: the port is not put in
/// loopback, no offload is switched on, the link is autonegotiated and the
/// driver keeps its own RSS key.
pub proof fn lemma_rss_conf_is_default_elsewhere(c: EthConf, d: EthConf)
    requires
        default_but_rss(c),
        is_default_conf(d),
    ensures
        c.loopback_mode == 0,
        c.rx_mode.offloads == 0,
        c.tx_mode.offloads == 0,
        c.link_speeds == 0,
        c.tx_mode.mq_mode == TxMqMode::Disabled,
        c.rss_key is None,
        c.link_speeds == d.link_speeds && c.loopback_mode == d.loopback_mode
            && c.rx_mode.mtu == d.rx_mode.mtu && c.rx_mode.offloads == d.rx_mode.offloads
            && c.rx_mode.max_lro_pkt_size == d.rx_mode.max_lro_pkt_size && c.tx_mode.mq_mode
            == d.tx_mode.mq_mode && c.tx_mode.offloads == d.tx_mode.offloads,
        c.rx_mode.mq_mode != d.rx_mode.mq_mode,
        c.rss_hf != d.rss_hf,
{
    assert(rss_hf::TCP | rss_hf::UDP != 0u64) by (bit_vector);
}

impl DpdkApp {
    /// The runner's settings.
    pub closed spec fn settings(&self) -> DpdkAppSettings {
        DpdkAppSettings {
            port_id: self.port_id,
            ip_addr: self.ip_addr,
            gateway: self.gateway,
            mbufs_per_queue: self.mbufs_per_queue,
            rx_desc: self.rx_desc,
            tx_desc: self.tx_desc,
            subnet_prefix: self.subnet_prefix,
        }
    }

    /// The runner's settings, field by field.
    pub fn current_settings(&self) -> (r: DpdkAppSettings)
        ensures
            r == self.settings(),
    {
        DpdkAppSettings {
            port_id: self.port_id,
            ip_addr: self.ip_addr,
            gateway: self.gateway,
            mbufs_per_queue: self.mbufs_per_queue,
            rx_desc: self.rx_desc,
            tx_desc: self.tx_desc,
            subnet_prefix: self.subnet_prefix,
        }
    }

    /// Create a new builder: port 0, no IP address or gateway, 8192 mbufs
    /// per queue, 1024 RX and TX descriptors, a /24 subnet.
    pub fn new() -> (r: Self)
        ensures
            r.settings() == (DpdkAppSettings {
                port_id: 0,
                ip_addr: None,
                gateway: None,
                mbufs_per_queue: 8192,
                rx_desc: 1024,
                tx_desc: 1024,
                subnet_prefix: 24,
            }),
    {
        DpdkApp {
            port_id: 0,
            ip_addr: None,
            gateway: None,
            mbufs_per_queue: 8192,
            rx_desc: 1024,
            tx_desc: 1024,
            subnet_prefix: 24,
        }
    }

    /// Set the DPDK port ID.
    pub fn eth_dev(self, port_id: u16) -> (r: Self)
        ensures
            r.settings() == (DpdkAppSettings { port_id, ..self.settings() }),
    {
        DpdkApp { port_id, ..self }
    }

    /// Set the IP address.
    pub fn ip(self, addr: Ipv4Address) -> (r: Self)
        ensures
            r.settings() == (DpdkAppSettings { ip_addr: Some(addr), ..self.settings() }),
    {
        DpdkApp { ip_addr: Some(addr), ..self }
    }

    /// Set the gateway address.
    pub fn gateway(self, addr: Ipv4Address) -> (r: Self)
        ensures
            r.settings() == (DpdkAppSettings { gateway: Some(addr), ..self.settings() }),
    {
        DpdkApp { gateway: Some(addr), ..self }
    }

    /// Set mbufs per queue.
    pub fn mbufs_per_queue(self, count: u32) -> (r: Self)
        ensures
            r.settings() == (DpdkAppSettings { mbufs_per_queue: count, ..self.settings() }),
    {
        DpdkApp { mbufs_per_queue: count, ..self }
    }

    /// Set RX/TX descriptors.
    pub fn descriptors(self, rx: u16, tx: u16) -> (r: Self)
        ensures
            r.settings() == (DpdkAppSettings { rx_desc: rx, tx_desc: tx, ..self.settings() }),
    {
        DpdkApp { rx_desc: rx, tx_desc: tx, ..self }
    }

    /// Set subnet prefix length.
    pub fn subnet_prefix(self, prefix: u8) -> (r: Self)
        ensures
            r.settings() == (DpdkAppSettings { subnet_prefix: prefix, ..self.settings() }),
    {
        DpdkApp { subnet_prefix: prefix, ..self }
    }

    /// The checks before start-up, in order: an IP address is set, a
    /// gateway is set, and there is at least one lcore. On success, the IP
    /// address and the gateway.
    pub fn validate(&self, num_lcores: usize) -> (r: Result<(Ipv4Address, Ipv4Address), DpdkAppError>)
        ensures
            self.settings().ip_addr is None ==> r matches Err(DpdkAppError::MissingIpAddress),
            self.settings().ip_addr is Some && self.settings().gateway is None ==> r matches Err(
                DpdkAppError::MissingGateway,
            ),
            self.settings().ip_addr is Some && self.settings().gateway is Some && num_lcores == 0
                ==> r matches Err(DpdkAppError::NoLcores),
            self.settings().ip_addr is Some && self.settings().gateway is Some && num_lcores > 0
                ==> r == Ok::<(Ipv4Address, Ipv4Address), DpdkAppError>(
                (self.settings().ip_addr->0, self.settings().gateway->0),
            ),
    {
        let ip = match self.ip_addr {
            Some(ip) => ip,
            None => {
                return Err(DpdkAppError::MissingIpAddress);
            },
        };
        let gw = match self.gateway {
            Some(gw) => gw,
            None => {
                return Err(DpdkAppError::MissingGateway);
            },
        };
        if num_lcores == 0 {
            return Err(DpdkAppError::NoLcores);
        }
        Ok((ip, gw))
    }

    /// The mempool for `num_queues` queues: the configured mbufs per queue
    /// for every queue, the default data room, otherwise default settings.
    pub fn mempool_config(&self, num_queues: u32) -> (r: MemPoolConfig)
        requires
            self.settings().mbufs_per_queue * num_queues <= u32::MAX,
        ensures
            r.num_mbufs == self.settings().mbufs_per_queue * num_queues,
            r.data_room_size == DEFAULT_MBUF_DATA_ROOM_SIZE,
            r.cache_size == 256 && r.priv_size == 0 && r.socket_id == -1,
    {
        MemPoolConfig::new().num_mbufs(self.mbufs_per_queue * num_queues).data_room_size(
            DEFAULT_MBUF_DATA_ROOM_SIZE,
        )
    }

    /// The device configuration: RSS over TCP and UDP ports when the device
    /// has a redirection table (`reta_size > 0`) and there is more than one
    /// queue; the default configuration otherwise.
    pub fn eth_conf_for(num_queues: u16, reta_size: u16) -> (r: EthConf)
        ensures
            reta_size > 0 && num_queues > 1 ==> r.rx_mode.mq_mode == RxMqMode::Rss && r.rss_hf == (
            rss_hf::TCP | rss_hf::UDP) && r.rss_key is None && r.rx_mode.mtu == 1500,
            reta_size > 0 && num_queues > 1 ==> default_but_rss(r),
            !(reta_size > 0 && num_queues > 1) ==> is_default_conf(r),
    {
        if reta_size > 0 && num_queues > 1 {
            EthConf::new().rss_with_hash(rss_hf::TCP | rss_hf::UDP)
        } else {
            EthConf::new()
        }
    }

    /// The device builder: the configured port, one RX and one TX queue
    /// per lcore with the configured descriptor counts, and the
    /// configuration of [`DpdkApp::eth_conf_for`].
    pub fn device_builder(&self, num_queues: u16, reta_size: u16) -> (r: EthDevBuilder)
        ensures
            r.port() == self.settings().port_id,
            r.rx_queues() == num_queues,
            r.tx_queues() == num_queues,
            r.rx_conf().nb_desc == self.settings().rx_desc && r.rx_conf().socket_id == -1,
            r.tx_conf().nb_desc == self.settings().tx_desc && r.tx_conf().socket_id == -1,
            !r.promisc(),
            reta_size > 0 && num_queues > 1 ==> r.conf().rx_mode.mq_mode == RxMqMode::Rss
                && r.conf().rss_hf == (rss_hf::TCP | rss_hf::UDP),
            reta_size > 0 && num_queues > 1 ==> default_but_rss(r.conf()),
            !(reta_size > 0 && num_queues > 1) ==> is_default_conf(r.conf()),
    {
        EthDevBuilder::new(self.port_id).eth_conf(DpdkApp::eth_conf_for(num_queues, reta_size)).nb_rx_queues(
            num_queues,
        ).nb_tx_queues(num_queues).rx_queue_conf(RxQueueConf::new().nb_desc(self.rx_desc)).tx_queue_conf(
            TxQueueConf::new().nb_desc(self.tx_desc),
        )
    }

    /// Whether the queues share an ARP cache: with more than one queue.
    pub fn uses_shared_arp_cache(num_queues: usize) -> (r: bool)
        ensures
            r == (num_queues > 1),
    {
        num_queues > 1
    }

    /// The MTU and usable mbuf capacity each worker's device gets: the
    /// default MTU, and the default data room minus the headroom.
    pub fn worker_device_params() -> (r: (usize, usize))
        ensures
            r.0 == DEFAULT_MTU,
            r.1 == DEFAULT_MBUF_DATA_ROOM_SIZE - DEFAULT_MBUF_HEADROOM,
    {
        (DEFAULT_MTU, DEFAULT_MBUF_DATA_ROOM_SIZE as usize - DEFAULT_MBUF_HEADROOM)
    }
}

/// Which queue each lcore serves: the lcore at position `i` of `lcores`
/// (the order of `Lcore::all`) serves queue `i`. The main lcore's queue is
/// run on the main thread; every other lcore is launched with its queue.
pub struct QueueAssignment {
    /// (queue, lcore) for every lcore other than the main one, in order.
    pub workers: Vec<(u16, Lcore)>,
    /// The queue of the main lcore (0 if it is not in the list).
    pub main_queue_id: u16,
}

/// Assign queues to lcores by position; the main lcore (by ID) keeps its
/// queue for the main thread.
pub fn assign_queues(lcores: &Vec<Lcore>, main_id: u32) -> (r: QueueAssignment)
    requires
        lcores@.len() <= 65536,
    ensures
        forall|i: int|
            0 <= i < r.workers@.len() ==> ({
                let (q, l) = #[trigger] r.workers@[i];
                0 <= q < lcores@.len() && lcores@[q as int] == l && l.id_spec() != main_id
            }),
        forall|q: int|
            0 <= q < lcores@.len() && lcores@[q].id_spec() != main_id ==> exists|i: int|
                0 <= i < r.workers@.len() && (#[trigger] r.workers@[i]).0 == q,
        forall|i: int, j: int|
            0 <= i < j < r.workers@.len() ==> r.workers@[i].0 < r.workers@[j].0,
        (exists|q: int| 0 <= q < lcores@.len() && lcores@[q].id_spec() == main_id) ==> (
        r.main_queue_id < lcores@.len() && lcores@[r.main_queue_id as int].id_spec() == main_id),
        !(exists|q: int| 0 <= q < lcores@.len() && lcores@[q].id_spec() == main_id)
            ==> r.main_queue_id == 0,
{
    let mut workers: Vec<(u16, Lcore)> = Vec::new();
    let mut main_queue_id: u16 = 0;
    let mut found = false;
    let mut i: usize = 0;
    while i < lcores.len()
        invariant
            lcores@.len() <= 65536,
            i <= lcores@.len(),
            forall|k: int|
                0 <= k < workers@.len() ==> ({
                    let (q, l) = #[trigger] workers@[k];
                    0 <= q < i && lcores@[q as int] == l && l.id_spec() != main_id
                }),
            forall|q: int|
                0 <= q < i && lcores@[q].id_spec() != main_id ==> exists|k: int|
                    0 <= k < workers@.len() && (#[trigger] workers@[k]).0 == q,
            forall|a: int, b: int| 0 <= a < b < workers@.len() ==> workers@[a].0 < workers@[b].0,
            found == (exists|q: int| 0 <= q < i && lcores@[q].id_spec() == main_id),
            found ==> main_queue_id < i && lcores@[main_queue_id as int].id_spec() == main_id,
            !found ==> main_queue_id == 0,
        decreases lcores.len() - i,
    {
        let l = lcores[i];
        if l.id() == main_id {
            if !found {
                main_queue_id = i as u16;
                found = true;
            }
        } else {
            let ghost before = workers@;
            workers.push((i as u16, l));
            assert(workers@[workers@.len() - 1].0 == i);
            assert forall|q: int| 0 <= q < i + 1 && lcores@[q].id_spec() != main_id implies exists|k: int|
                0 <= k < workers@.len() && (#[trigger] workers@[k]).0 == q by {
                if q == i {
                    assert(workers@[workers@.len() - 1].0 == q);
                } else {
                    let k = choose|k: int| 0 <= k < before.len() && (#[trigger] before[k]).0 == q;
                    assert(workers@[k].0 == q);
                }
            }
        }
        i += 1;
    }
    let r = QueueAssignment { workers, main_queue_id };
    assert forall|q: int| 0 <= q < lcores@.len() && lcores@[q].id_spec() != main_id implies exists|k: int|
        0 <= k < r.workers@.len() && (#[trigger] r.workers@[k]).0 == q by {
        assert(0 <= q < i);
        let k = choose|k: int| 0 <= k < workers@.len() && (#[trigger] workers@[k]).0 == q;
        assert(r.workers@[k].0 == q);
    }
    r
}

} // verus!
