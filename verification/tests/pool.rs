use dpdk_net::arp::Ipv4Address;
use dpdk_net::client::{ClientConfig, HttpVersion};
use dpdk_net::pool::{ConnectionPool, Host};

#[derive(Debug, Clone, PartialEq)]
struct FakeConn {
    id: u32,
    ready: bool,
}

fn host(port: u16) -> Host {
    Host { addr: Ipv4Address::new(10, 0, 0, 1), port }
}

#[test]
fn new_pool_is_empty_with_defaults() {
    let mut pool: ConnectionPool<FakeConn> = ConnectionPool::new();
    assert_eq!(pool.max_idle_per_host(), 8);
    assert_eq!(pool.config().rx_buffer_size, 16384);
    assert_eq!(pool.config().http_version, HttpVersion::Http1);
    assert_eq!(pool.ready_index(host(80), |c: &FakeConn| c.ready), None);
}

#[test]
fn ready_connection_is_reused_and_stale_ones_are_discarded() {
    let mut pool = ConnectionPool::new();
    let i = pool.add(host(80), FakeConn { id: 1, ready: false });
    assert_eq!(i, 0);
    let i = pool.add(host(80), FakeConn { id: 2, ready: true });
    assert_eq!(i, 1);
    pool.add(host(80), FakeConn { id: 3, ready: true });
    pool.add(host(81), FakeConn { id: 4, ready: false });
    let i = pool.ready_index(host(80), |c: &FakeConn| c.ready).unwrap();
    assert_eq!(i, 0);
    // The connection that was no longer ready was discarded.
    assert_eq!(pool.connection_mut(host(80), 0).id, 2);
    assert_eq!(pool.connection_mut(host(80), 1).id, 3);
    // Another host has its own connections, untouched.
    assert_eq!(pool.connection_mut(host(81), 0).id, 4);
    // Changes made through the lent connection stay in the pool.
    pool.connection_mut(host(80), 0).ready = false;
    let j = pool.ready_index(host(80), |c: &FakeConn| c.ready).unwrap();
    assert_eq!(pool.connection_mut(host(80), j).id, 3);
    // Nothing ready: everything is discarded, and a new connection is the only one.
    pool.connection_mut(host(80), 0).ready = false;
    assert_eq!(pool.ready_index(host(80), |c: &FakeConn| c.ready), None);
    assert_eq!(pool.add(host(80), FakeConn { id: 5, ready: true }), 0);
}

#[test]
fn oldest_connection_leaves_at_the_limit() {
    let mut pool = ConnectionPool::with_config(ClientConfig::default(), 2);
    pool.add(host(80), FakeConn { id: 1, ready: true });
    pool.add(host(80), FakeConn { id: 2, ready: true });
    let i = pool.add(host(80), FakeConn { id: 3, ready: true });
    assert_eq!(i, 1);
    assert_eq!(pool.connection_mut(host(80), 0).id, 2);
    assert_eq!(pool.connection_mut(host(80), 1).id, 3);
    pool.clear();
    assert_eq!(pool.ready_index(host(80), |c: &FakeConn| c.ready), None);
}

#[test]
fn hosts_with_the_same_port_are_kept_apart() {
    let mut pool = ConnectionPool::new();
    let a = Host { addr: Ipv4Address::new(10, 0, 0, 1), port: 443 };
    let b = Host { addr: Ipv4Address::new(10, 0, 0, 2), port: 443 };
    let c = Host { addr: Ipv4Address::new(0, 0, 0, 0), port: 1 };
    let d = Host { addr: Ipv4Address::new(0, 0, 0, 1), port: 0 };
    pool.add(a, FakeConn { id: 1, ready: true });
    pool.add(b, FakeConn { id: 2, ready: true });
    pool.add(c, FakeConn { id: 3, ready: true });
    pool.add(d, FakeConn { id: 4, ready: true });
    assert_eq!(pool.connection_mut(a, 0).id, 1);
    assert_eq!(pool.connection_mut(b, 0).id, 2);
    assert_eq!(pool.connection_mut(c, 0).id, 3);
    assert_eq!(pool.connection_mut(d, 0).id, 4);
}
