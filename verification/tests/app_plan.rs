use dpdk_net::arp::Ipv4Address;
use dpdk_net::dpdk_app::{assign_queues, DpdkApp, DpdkAppError};
use dpdk_net::eth::{rss_hf, RxMqMode};
use dpdk_net::lcore::{Lcore, LcoreTable, Role, State};

#[test]
fn validation_order() {
    assert!(matches!(DpdkApp::new().validate(4), Err(DpdkAppError::MissingIpAddress)));
    let app = DpdkApp::new().ip(Ipv4Address::new(10, 0, 0, 10));
    assert!(matches!(app.validate(4), Err(DpdkAppError::MissingGateway)));
    let app = app.gateway(Ipv4Address::new(10, 0, 0, 1));
    assert!(matches!(app.validate(0), Err(DpdkAppError::NoLcores)));
    let (ip, gw) = app.validate(2).unwrap();
    assert_eq!(ip, Ipv4Address::new(10, 0, 0, 10));
    assert_eq!(gw, Ipv4Address::new(10, 0, 0, 1));
}

#[test]
fn error_messages() {
    assert_eq!(DpdkAppError::MissingIpAddress.message(), "IP address not set. Call ip() before run()");
    assert_eq!(DpdkAppError::MissingGateway.message(), "Gateway not set. Call gateway() before run()");
    assert_eq!(DpdkAppError::NoLcores.message(), "No lcores available. Ensure EAL is initialized with -l flag");
    assert_eq!(DpdkAppError::DeviceError("EIO".to_string()).message(), "Device error: EIO");
    assert_eq!(DpdkAppError::MempoolError("ENOMEM".to_string()).message(), "Mempool error: ENOMEM");
}

#[test]
fn device_and_pool_for_queues() {
    let app = DpdkApp::new().eth_dev(2).mbufs_per_queue(1000).descriptors(512, 256).subnet_prefix(16);
    let pool = app.mempool_config(4);
    assert_eq!((pool.num_mbufs, pool.data_room_size, pool.cache_size), (4000, 2176, 256));
    let b = app.device_builder(4, 128);
    assert_eq!(b.port_id(), 2);
    assert_eq!(b.configuration().rx_mode.mq_mode, RxMqMode::Rss);
    assert_eq!(b.configuration().rss_hf, rss_hf::TCP | rss_hf::UDP);
    assert_eq!(b.rx_configuration().nb_desc, 512);
    assert_eq!(b.tx_configuration().nb_desc, 256);
    assert_eq!(DpdkApp::eth_conf_for(4, 0).rx_mode.mq_mode, RxMqMode::Disabled);
    assert_eq!(DpdkApp::eth_conf_for(1, 128).rss_hf, 0);
    assert!(DpdkApp::uses_shared_arp_cache(2));
    assert!(!DpdkApp::uses_shared_arp_cache(1));
    assert_eq!(DpdkApp::worker_device_params(), (1500, 2048));
}

#[test]
fn queues_follow_lcore_order() {
    let t = LcoreTable::new(
        vec![true, true, true],
        vec![0, 0, 0],
        vec![Role::Rte, Role::Rte, Role::Rte],
        vec![State::Wait, State::Wait, State::Wait],
        1,
    )
    .unwrap();
    let lcores = Lcore::all(&t).collect();
    let a = assign_queues(&lcores, 1);
    assert_eq!(a.main_queue_id, 1);
    let w: Vec<(u16, u32)> = a.workers.iter().map(|(q, l)| (*q, l.id())).collect();
    assert_eq!(w, vec![(0, 0), (2, 2)]);
    let a = assign_queues(&lcores, 9);
    assert_eq!(a.main_queue_id, 0);
    assert_eq!(a.workers.len(), 3);
}
