//! Verified core of a DPDK-backed networking stack: EAL argument building,
//! Ethernet device configuration, RSS redirection tables, lcore selection,
//! queue bookkeeping, ARP packet handling and port allocation.

pub mod error;
pub mod text;
pub mod eal;
pub mod eth;
pub mod lcore;
pub mod queue;
pub mod mempool;
pub mod arp;
pub mod ports;
pub mod gateway;
pub mod dpdk_app;
pub mod device;
pub mod tcp;
pub mod client;
pub mod bridge;
pub mod host;
pub mod pool;
pub mod mbuf;
pub mod batch;
