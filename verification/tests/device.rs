use dpdk_net::arp::{build_arp_reply_for_injection, parse_arp_reply, Ipv4Address, SharedArpCache};
use dpdk_net::device::DpdkDevice;

const OUR_MAC: [u8; 6] = [0xaa, 0xbb, 0xcc, 0xdd, 0xee, 0xff];

#[test]
fn mtu_must_fit_with_overhead() {
    assert!(DpdkDevice::mtu_fits(1500, 2048));
    assert!(DpdkDevice::mtu_fits(1954, 2048));
    assert!(!DpdkDevice::mtu_fits(1955, 2048));
    assert!(!DpdkDevice::mtu_fits(3000, 2048));
    assert_eq!(DpdkDevice::new(1500, 2048).mtu(), 1500);
}

#[test]
fn queue_zero_learns_other_queues_inject() {
    let our_ip = Ipv4Address::new(10, 0, 0, 5);
    let peer_ip = Ipv4Address::new(10, 0, 0, 1);
    let peer_mac = [1, 2, 3, 4, 5, 6];
    let mut cache = SharedArpCache::new();
    let q0 = DpdkDevice::new(1500, 2048).with_shared_arp_cache(0, OUR_MAC, our_ip);
    let mut q1 = DpdkDevice::new(1500, 2048).with_shared_arp_cache(1, OUR_MAC, our_ip);
    let reply = build_arp_reply_for_injection(OUR_MAC, our_ip, peer_mac, peer_ip);

    assert!(q1.pending_arp_injections(&cache).is_none()); // nothing changed yet
    q1.learn_from_frame(&reply, &mut cache); // only queue 0 learns
    assert!(cache.is_empty());
    q0.learn_from_frame(&[0u8; 10], &mut cache);
    assert!(cache.is_empty());
    q0.learn_from_frame(&reply, &mut cache);
    assert_eq!(cache.get(&peer_ip), Some(peer_mac));

    assert!(q0.pending_arp_injections(&cache).is_none());
    let (version, frames) = q1.pending_arp_injections(&cache).unwrap();
    assert_eq!(version, 1);
    assert_eq!(frames, vec![reply.clone()]);
    q1.mark_injected(version);
    assert!(q1.pending_arp_injections(&cache).is_none());
    q0.learn_from_frame(&reply, &mut cache); // refresh bumps the version
    assert_eq!(q1.pending_arp_injections(&cache).unwrap().0, 2);

    let plain = DpdkDevice::new(1500, 2048);
    assert!(plain.pending_arp_injections(&cache).is_none());
}

#[test]
fn injected_frames_teach_every_binding() {
    let our_ip = Ipv4Address::new(10, 0, 0, 5);
    let mut cache = SharedArpCache::new();
    let peers = [
        (Ipv4Address::new(10, 0, 0, 1), [1u8, 2, 3, 4, 5, 6]),
        (Ipv4Address::new(10, 0, 0, 7), [7u8, 7, 7, 7, 7, 7]),
        (Ipv4Address::new(10, 0, 0, 9), [9u8, 8, 7, 6, 5, 4]),
    ];
    for (ip, mac) in peers {
        cache.insert(ip, mac);
    }
    let q2 = DpdkDevice::new(1500, 2048).with_shared_arp_cache(2, OUR_MAC, our_ip);
    let (_, frames) = q2.pending_arp_injections(&cache).unwrap();
    assert_eq!(frames.len(), peers.len());
    let mut learned: Vec<(Ipv4Address, [u8; 6])> = frames.iter().map(|f| parse_arp_reply(f).unwrap()).collect();
    learned.sort_by_key(|(ip, _)| ip.octets());
    assert_eq!(learned, peers.to_vec());
}

#[test]
fn received_packets_go_to_the_stack_last_first() {
    let mut dev = DpdkDevice::new(1500, 2048);
    assert!(dev.should_poll_rx());
    assert_eq!(dev.next_received(), None);
    dev.store_received(&[11, 12, 13]);
    assert!(!dev.should_poll_rx());
    assert_eq!(dev.rx_len(), 3);
    dev.store_received(&[99]); // an injected reply goes after the burst...
    assert_eq!(dev.next_received(), Some(99)); // ...and is handed over first
    assert_eq!(dev.next_received(), Some(13));
    assert_eq!(dev.next_received(), Some(12));
    assert_eq!(dev.next_received(), Some(11));
    assert_eq!(dev.next_received(), None);

    let burst: Vec<u64> = (1..=64).collect();
    assert!(dev.rx_has_room());
    dev.store_received(&burst);
    assert!(!dev.rx_has_room());
}

#[test]
fn transmit_batch_keeps_unsent_packets_in_order() {
    let mut dev = DpdkDevice::new(1500, 2048);
    for h in 1..=5u64 {
        dev.queue_tx(h);
    }
    assert_eq!(dev.tx_len(), 5);
    assert_eq!(dev.tx_handles(), &[1, 2, 3, 4, 5]);
    assert_eq!(dev.take_sent(3), vec![1, 2, 3]);
    assert_eq!(dev.tx_handles(), &[4, 5]);
    for h in 0..254u64 {
        assert!(dev.tx_has_room());
        dev.queue_tx(100 + h);
    }
    assert!(!dev.tx_has_room());
}
