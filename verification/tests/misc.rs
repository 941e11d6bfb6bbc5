use dpdk_net::client::{ClientConfig, HttpVersion};
use dpdk_net::mempool::MemPoolConfig;
use dpdk_net::text::decimal_string;

#[test]
fn decimal_rendering() {
    for n in [0u32, 7, 10, 99, 100, 65535, 4294967295] {
        assert_eq!(decimal_string(n), n.to_string());
    }
}

#[test]
fn mempool_config_defaults_and_setters() {
    let c = MemPoolConfig::new();
    assert_eq!((c.num_mbufs, c.cache_size, c.priv_size, c.data_room_size, c.socket_id), (8191, 256, 0, 2176, -1));
    let c = c.num_mbufs(16383).cache_size(0).priv_size(8).data_room_size(4096).socket_id(1);
    assert_eq!((c.num_mbufs, c.cache_size, c.priv_size, c.data_room_size, c.socket_id), (16383, 0, 8, 4096, 1));
    let c = MemPoolConfig::with_num_mbufs(100);
    assert_eq!((c.num_mbufs, c.cache_size), (100, 256));
}

#[test]
fn client_config_defaults() {
    let c = ClientConfig::default();
    assert_eq!((c.rx_buffer_size, c.tx_buffer_size), (16384, 16384));
    assert_eq!(c.http_version, HttpVersion::Http1);
    assert_eq!(c.connect_timeout, std::time::Duration::from_secs(5));
}
