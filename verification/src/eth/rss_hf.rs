//! RSS hash function flags (`RTE_ETH_RSS_*`) for TCP/IP packet distribution.

use vstd::prelude::*;

verus! {

/// IPv4 (hashes on src/dst IP)
pub const IPV4: u64 = 1u64 << 2u64;
/// IPv4 fragmented packets
pub const FRAG_IPV4: u64 = 1u64 << 3u64;
/// IPv4 TCP (hashes on src/dst IP + src/dst port)
pub const NONFRAG_IPV4_TCP: u64 = 1u64 << 4u64;
/// IPv4 UDP
pub const NONFRAG_IPV4_UDP: u64 = 1u64 << 5u64;
/// IPv4 SCTP
pub const NONFRAG_IPV4_SCTP: u64 = 1u64 << 6u64;
/// IPv4 other
pub const NONFRAG_IPV4_OTHER: u64 = 1u64 << 7u64;
/// IPv6
pub const IPV6: u64 = 1u64 << 8u64;
/// IPv6 fragmented
pub const FRAG_IPV6: u64 = 1u64 << 9u64;
/// IPv6 TCP
pub const NONFRAG_IPV6_TCP: u64 = 1u64 << 10u64;
/// IPv6 UDP
pub const NONFRAG_IPV6_UDP: u64 = 1u64 << 11u64;
/// IPv6 SCTP
pub const NONFRAG_IPV6_SCTP: u64 = 1u64 << 12u64;
/// IPv6 other
pub const NONFRAG_IPV6_OTHER: u64 = 1u64 << 13u64;
/// IPv6 extended header
pub const IPV6_EX: u64 = 1u64 << 15u64;
/// IPv6 TCP extended
pub const IPV6_TCP_EX: u64 = 1u64 << 16u64;
/// IPv6 UDP extended
pub const IPV6_UDP_EX: u64 = 1u64 << 17u64;

/// Combined: All IP (IPv4 + IPv6)
pub const IP: u64 = IPV4 | FRAG_IPV4 | NONFRAG_IPV4_OTHER | IPV6 | FRAG_IPV6 | NONFRAG_IPV6_OTHER
    | IPV6_EX;
/// Combined: All TCP (IPv4 + IPv6)
pub const TCP: u64 = NONFRAG_IPV4_TCP | NONFRAG_IPV6_TCP | IPV6_TCP_EX;
/// Combined: All UDP (IPv4 + IPv6)
pub const UDP: u64 = NONFRAG_IPV4_UDP | NONFRAG_IPV6_UDP | IPV6_UDP_EX;

} // verus!
