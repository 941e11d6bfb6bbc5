use dpdk_net::arp::{build_arp_reply_for_injection, parse_arp_reply, Ipv4Address, SharedArpCache};

#[test]
fn test_shared_arp_cache() {
    let mut cache = SharedArpCache::new();
    let ip = Ipv4Address::new(10, 0, 0, 1);
    let mac = [0x12, 0x34, 0x56, 0x78, 0x9a, 0xbc];

    assert!(cache.is_empty());
    assert!(cache.get(&ip).is_none());

    cache.insert(ip, mac);

    assert!(!cache.is_empty());
    assert_eq!(cache.get(&ip), Some(mac));
    assert!(cache.contains(&ip));
}

#[test]
fn test_parse_arp_reply() {
    let our_mac = [0xaa, 0xbb, 0xcc, 0xdd, 0xee, 0xff];
    let our_ip = Ipv4Address::new(10, 0, 0, 5);
    let peer_mac = [0x12, 0x34, 0x56, 0x78, 0x9a, 0xbc];
    let peer_ip = Ipv4Address::new(10, 0, 0, 1);

    let packet = build_arp_reply_for_injection(our_mac, our_ip, peer_mac, peer_ip);

    let result = parse_arp_reply(&packet);
    assert_eq!(result, Some((peer_ip, peer_mac)));
}

#[test]
fn test_parse_non_arp_packet() {
    let mut packet = vec![0u8; 60];
    packet[12] = 0x08;
    packet[13] = 0x00; // IPv4 ethertype

    assert!(parse_arp_reply(&packet).is_none());
}

#[test]
fn test_parse_arp_request() {
    let mut packet = vec![0u8; 42];
    packet[12] = 0x08;
    packet[13] = 0x06; // ARP ethertype
    packet[20] = 0x00;
    packet[21] = 0x01; // ARP request

    assert!(parse_arp_reply(&packet).is_none());
}

#[test]
fn arp_reply_frame_layout() {
    let our_mac = [1, 2, 3, 4, 5, 6];
    let peer_mac = [7, 8, 9, 10, 11, 12];
    let p = build_arp_reply_for_injection(our_mac, Ipv4Address::new(192, 168, 0, 2), peer_mac, Ipv4Address::new(192, 168, 0, 1));
    assert_eq!(p.len(), 42);
    assert_eq!(&p[0..6], &our_mac);
    assert_eq!(&p[6..12], &peer_mac);
    assert_eq!(&p[12..22], &[0x08, 0x06, 0x00, 0x01, 0x08, 0x00, 6, 4, 0x00, 0x02]);
    assert_eq!(&p[22..28], &peer_mac);
    assert_eq!(&p[28..32], &[192, 168, 0, 1]);
    assert_eq!(&p[32..38], &our_mac);
    assert_eq!(&p[38..42], &[192, 168, 0, 2]);
}

#[test]
fn short_frame_is_not_an_arp_reply() {
    let mut packet = vec![0u8; 41];
    packet[12] = 0x08;
    packet[13] = 0x06;
    packet[21] = 0x02;
    assert!(parse_arp_reply(&packet).is_none());
}

#[test]
fn cache_versions_grow_on_every_insert() {
    let mut cache = SharedArpCache::new();
    let ip = Ipv4Address::new(10, 0, 0, 1);
    let other = Ipv4Address::new(10, 0, 0, 2);
    assert_eq!(cache.version(), 0);
    cache.insert(ip, [1; 6]);
    assert_eq!(cache.version(), 1);
    cache.insert(ip, [1; 6]); // same binding still counts
    assert_eq!(cache.version(), 2);
    cache.insert(ip, [2; 6]);
    cache.insert(other, [3; 6]);
    assert_eq!(cache.version(), 4);
    assert_eq!(cache.get(&ip), Some([2; 6]));
    assert_eq!(cache.get(&other), Some([3; 6]));
    let mut snap = cache.snapshot();
    snap.sort_by_key(|(ip, _)| ip.to_bits());
    assert_eq!(snap, vec![(ip, [2; 6]), (other, [3; 6])]);
}

#[test]
fn ipv4_bits_round_trip() {
    let ip = Ipv4Address::new(10, 1, 2, 3);
    assert_eq!(ip.to_bits(), 0x0A01_0203);
    assert_eq!(Ipv4Address::from_bits(0x0A01_0203), ip);
    assert_eq!(ip.octets(), [10, 1, 2, 3]);
}
