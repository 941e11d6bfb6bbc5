use dpdk_net::arp::Ipv4Address;
use dpdk_net::gateway::{parse_hex_gateway, parse_hex_u32_exec};

#[test]
fn test_parse_hex_gateway() {
    // Azure default gateway: 10.0.0.1, little-endian hex 0x0100000A
    let result = parse_hex_gateway("0100000A");
    assert_eq!(result, Some(Ipv4Address::new(10, 0, 0, 1)));
}

#[test]
fn test_parse_hex_gateway_different_addresses() {
    assert_eq!(parse_hex_gateway("0101A8C0"), Some(Ipv4Address::new(192, 168, 1, 1)));
    assert_eq!(parse_hex_gateway("010010AC"), Some(Ipv4Address::new(172, 16, 0, 1)));
}

#[test]
fn test_parse_hex_gateway_invalid() {
    assert_eq!(parse_hex_gateway("ZZZZZZZZ"), None);
    assert_eq!(parse_hex_gateway(""), None);
}

#[test]
fn hex_parsing_matches_from_str_radix() {
    for s in ["0", "+1f", "ffffffff", "100000000", "+", "-1", "12g", "aBcD", " 1", "0000000000ff"] {
        assert_eq!(parse_hex_u32_exec(s), u32::from_str_radix(s, 16).ok(), "input {s:?}");
    }
}
