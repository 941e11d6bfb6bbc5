use dpdk_net::arp::Ipv4Address;
use dpdk_net::host::{
    default_gateway_from_route_table, is_lower_link, is_pci_addr_like, is_whitespace, pci_addr_in_link_path,
    split_components, split_fields,
};

fn lines(text: &str) -> Vec<String> {
    text.lines().map(|l| l.to_string()).collect()
}

#[test]
fn fields_match_split_whitespace() {
    for s in [
        "",
        "   ",
        "eth0\t00000000\t0100000A\t0003",
        "  leading and trailing  ",
        "a\u{3000}b\u{85}c\u{A0}d",
        "single",
    ] {
        let expected: Vec<String> = s.split_whitespace().map(|f| f.to_string()).collect();
        assert_eq!(split_fields(s), expected);
    }
}

#[test]
fn whitespace_class_matches_char() {
    for c in ['\t', '\n', ' ', '\u{85}', '\u{A0}', '\u{2000}', '\u{3000}', 'a', '0', ':', '\u{200B}'] {
        assert_eq!(is_whitespace(c), c.is_whitespace());
    }
}

#[test]
fn default_gateway_from_sample_route_table() {
    let table = lines(
        "Iface\tDestination\tGateway \tFlags\tRefCnt\tUse\tMetric\tMask\t\tMTU\tWindow\tIRTT\n\
         eth0\t0000000A\t00000000\t0001\t0\t0\t0\t00FFFFFF\t0\t0\t0\n\
         eth0\t00000000\t0100000A\t0003\t0\t0\t100\t00000000\t0\t0\t0\n",
    );
    assert_eq!(default_gateway_from_route_table(&table), Some(Ipv4Address::new(10, 0, 0, 1)));
}

#[test]
fn default_gateway_absent_or_malformed() {
    assert_eq!(default_gateway_from_route_table(&Vec::new()), None);
    // The header alone names no route, even when its fields look like one.
    assert_eq!(default_gateway_from_route_table(&lines("x 00000000 0100000A")), None);
    let no_default = lines("Iface Destination Gateway\neth0 0000000A 00000000\nshort 00000000\n");
    assert_eq!(default_gateway_from_route_table(&no_default), None);
    let bad_gateway = lines("Iface Destination Gateway\neth0 00000000 ZZZZZZZZ\neth1 00000000 0101A8C0\n");
    assert_eq!(default_gateway_from_route_table(&bad_gateway), None);
    let later = lines("Iface Destination Gateway\neth0 0000000A 00000000\neth1 00000000 0101A8C0\n");
    assert_eq!(default_gateway_from_route_table(&later), Some(Ipv4Address::new(192, 168, 1, 1)));
}

#[test]
fn pci_like_names() {
    assert!(is_pci_addr_like("0000:00:04.0"));
    assert!(is_pci_addr_like("79ba:00:02.0"));
    assert!(!is_pci_addr_like("pci79ba:00"));
    assert!(!is_pci_addr_like("virtio0"));
    assert!(!is_pci_addr_like(""));
}

#[test]
fn components_match_split() {
    for s in ["", "/", "a//b", "../../../pci79ba:00/79ba:00:02.0/net/enP31162s2", "x/"] {
        let expected: Vec<String> = s.split('/').map(|c| c.to_string()).collect();
        assert_eq!(split_components(s), expected);
    }
}

#[test]
fn pci_address_from_lower_link() {
    assert_eq!(
        pci_addr_in_link_path("../../../pci79ba:00/79ba:00:02.0/net/enP31162s2"),
        Some("79ba:00:02.0".to_string())
    );
    assert_eq!(pci_addr_in_link_path("../../devices/virtual/net/lo"), None);
    assert_eq!(pci_addr_in_link_path("0000:00:04.0"), Some("0000:00:04.0".to_string()));
}

#[test]
fn lower_links_are_recognised() {
    assert!(is_lower_link("lower_eth0"));
    assert!(is_lower_link("lower_"));
    assert!(!is_lower_link("lower"));
    assert!(!is_lower_link("upper_eth0"));
    assert!(!is_lower_link("device"));
    assert!(!is_lower_link(""));
}
