use dpdk_net::error::check_rte_success;
use dpdk_net::eth::{
    after_step, format_mac_addr, build_round_robin_reta, flatten_reta, iter_ports, queue_socket, rss_hf, rss_key_40, DevStep,
    EthConf, EthDev, EthDevBuilder, RxMqMode, RxQueueConf, StepDecision, TxMqMode, TxQueueConf,
};
use nix::errno::Errno;

#[test]
fn test_check_rte_success() {
    let e = Errno::EADV;
    println!("Errno EADV: {}", e);
    assert_eq!(check_rte_success(-1, Errno::EADV as i32), Err(Errno::EADV));
}

#[test]
fn check_rte_success_maps_negative_codes_to_errno() {
    assert_eq!(check_rte_success(0, 5), Ok(()));
    assert_eq!(check_rte_success(3, 5), Ok(()));
    assert_eq!(check_rte_success(-1, 5), Err(Errno::EIO));
    assert_eq!(check_rte_success(-22, 12), Err(Errno::ENOMEM));
}

#[test]
fn eth_conf_builders() {
    let c = EthConf::new();
    assert_eq!(c.rx_mode.mtu, 1500);
    assert_eq!(c.rx_mode.mq_mode, RxMqMode::Disabled);
    assert_eq!(c.tx_mode.mq_mode, TxMqMode::Disabled);
    let c = EthConf::new().mtu(9000).rx_offloads(3).tx_offloads(4).loopback();
    assert_eq!((c.rx_mode.mtu, c.rx_mode.offloads, c.tx_mode.offloads, c.loopback_mode), (9000, 3, 4, 1));
    let c = EthConf::new().rss_with_key();
    assert_eq!(c.rx_mode.mq_mode, RxMqMode::Rss);
    assert_eq!(c.rss_hf, rss_hf::IP | rss_hf::TCP);
    assert_eq!(c.rss_key.as_deref(), Some(&rss_key_40()[..]));
    assert_eq!(rss_key_40().len(), 40);
    assert_eq!(rss_key_40()[0], 0x6d);
    let c = EthConf::new().mtu(9000).rss();
    assert_eq!((c.rx_mode.mq_mode, c.rx_mode.mtu), (RxMqMode::Rss, 9000));
    assert_eq!(c.rss_hf, rss_hf::IP | rss_hf::TCP);
    assert_ne!(c.rss_hf & (rss_hf::IP | rss_hf::TCP), 0);
    assert_eq!(c.rss_key.as_deref(), Some(&rss_key_40()[..]));
    let c = EthConf::new().rss_with_hash(rss_hf::UDP).rss_hf(rss_hf::TCP);
    assert_eq!(c.rss_hf, rss_hf::TCP);
    assert_eq!(RxMqMode::Rss.value(), 1);
    assert_eq!(RxMqMode::VmdqDcbRss.value(), 7);
    assert_eq!(TxMqMode::VmdqDcb.value(), 3);
}

#[test]
fn rss_flag_values() {
    assert_eq!(rss_hf::NONFRAG_IPV4_TCP, 1 << 4);
    assert_eq!(rss_hf::TCP, (1 << 4) | (1 << 10) | (1 << 16));
    assert_eq!(rss_hf::UDP, (1 << 5) | (1 << 11) | (1 << 17));
    assert_eq!(rss_hf::IP, (1 << 2) | (1 << 3) | (1 << 7) | (1 << 8) | (1 << 9) | (1 << 13) | (1 << 15));
}

#[test]
fn to_raw_writes_rss_only_when_it_applies() {
    let raw = EthConf::new().rss_with_key().to_raw();
    assert_eq!(raw.rx_mq_mode, 1);
    assert_eq!(raw.rss_hf, rss_hf::IP | rss_hf::TCP);
    assert_eq!(raw.rss_key_len, 40);
    assert_eq!(raw.rss_key, Some(rss_key_40()));
    let raw = EthConf::new().rss().to_raw();
    assert_eq!((raw.rss_hf, raw.rss_key_len), (rss_hf::IP | rss_hf::TCP, 40));
    assert_eq!(raw.rss_key, Some(rss_key_40()));
    let raw = EthConf::new().rss().rss_hf(0).to_raw(); // RSS mode but no hash functions
    assert_eq!((raw.rss_hf, raw.rss_key_len, raw.rss_key.is_none()), (0, 0, true));
    let raw = EthConf::new().rss_hf(rss_hf::TCP).to_raw(); // not in RSS mode
    assert_eq!(raw.rss_hf, 0);
    let raw = EthConf::new().rss_with_hash(rss_hf::UDP).to_raw();
    assert_eq!((raw.rss_hf, raw.rss_key_len, raw.rss_key.is_none()), (rss_hf::UDP, 0, true));
    assert_eq!(raw.rx_mtu, 1500);
}

#[test]
fn round_robin_reta() {
    let groups = build_round_robin_reta(130, 3);
    assert_eq!(groups.len(), 3);
    assert!(groups.iter().all(|g| g.mask == u64::MAX && g.reta.len() == 64));
    assert_eq!(groups[0].reta[0..4], [0, 1, 2, 0]);
    assert_eq!(groups[2].reta[0..3], [128 % 3, 129 % 3, 0]);
    let table = flatten_reta(&groups, 130);
    assert_eq!(table.len(), 130);
    assert!(table.iter().enumerate().all(|(k, q)| *q as usize == k % 3));
    assert!(build_round_robin_reta(0, 0).is_empty());
    assert_eq!(build_round_robin_reta(64, 1).len(), 1);
}

#[test]
fn queue_socket_and_ports() {
    assert_eq!(queue_socket(-1, 1), 1);
    assert_eq!(queue_socket(-1, -1), u32::MAX);
    assert_eq!(queue_socket(0, 1), 0);
    assert_eq!(iter_ports(3), vec![0, 1, 2]);
    assert!(iter_ports(0).is_empty());
    let dev = EthDev::new(7);
    assert_eq!(dev.port_id(), 7);
    assert_eq!(dev.has_tcp_rss(Ok((rss_hf::NONFRAG_IPV6_TCP, vec![]))), Ok(true));
    assert_eq!(dev.has_tcp_rss(Ok((rss_hf::IP | rss_hf::UDP, vec![]))), Ok(false));
    assert_eq!(dev.has_tcp_rss(Err(Errno::ENOTSUP)), Err(Errno::ENOTSUP));
}

#[test]
fn queue_conf_defaults() {
    let rx = RxQueueConf::new();
    assert_eq!((rx.nb_desc, rx.socket_id), (1024, -1));
    let rx = rx.nb_desc(512).socket_id(1);
    assert_eq!((rx.nb_desc, rx.socket_id), (512, 1));
    let tx = TxQueueConf::new().nb_desc(256);
    assert_eq!((tx.nb_desc, tx.socket_id), (256, -1));
}

#[test]
fn bring_up_plan() {
    let b = EthDevBuilder::new(0);
    assert_eq!(
        b.plan(),
        vec![
            DevStep::Configure { nb_rx_queues: 1, nb_tx_queues: 1 },
            DevStep::RxQueueSetup { queue_id: 0 },
            DevStep::TxQueueSetup { queue_id: 0 },
            DevStep::Start,
        ]
    );
    let b = EthDevBuilder::new(1)
        .eth_conf(EthConf::new().rss_with_hash(rss_hf::TCP))
        .nb_rx_queues(2)
        .nb_tx_queues(1)
        .rx_queue_conf(RxQueueConf::new().nb_desc(128))
        .tx_queue_conf(TxQueueConf::new().nb_desc(64))
        .promiscuous();
    assert_eq!(b.port_id(), 1);
    assert_eq!(b.rx_configuration().nb_desc, 128);
    assert_eq!(b.tx_configuration().nb_desc, 64);
    assert_eq!(b.configuration().rss_hf, rss_hf::TCP);
    assert_eq!(
        b.plan(),
        vec![
            DevStep::Configure { nb_rx_queues: 2, nb_tx_queues: 1 },
            DevStep::RxQueueSetup { queue_id: 0 },
            DevStep::RxQueueSetup { queue_id: 1 },
            DevStep::TxQueueSetup { queue_id: 0 },
            DevStep::ConfigureRssReta { nb_rx_queues: 2 },
            DevStep::UpdateRssHash { rss_hf: rss_hf::TCP },
            DevStep::PromiscuousEnable,
            DevStep::Start,
        ]
    );
    let b = EthDevBuilder::new(1).nb_rx_queues(2);
    assert_eq!(b.plan()[4], DevStep::ConfigureRssReta { nb_rx_queues: 2 });
    assert_eq!(b.plan()[5], DevStep::Start);
}

#[test]
fn only_fatal_steps_abort() {
    assert!(matches!(after_step(&DevStep::Start, Err(Errno::EIO)), StepDecision::Abort(Errno::EIO)));
    assert!(matches!(after_step(&DevStep::ConfigureRssReta { nb_rx_queues: 2 }, Err(Errno::ENOTSUP)), StepDecision::Continue));
    assert!(matches!(after_step(&DevStep::UpdateRssHash { rss_hf: 1 }, Err(Errno::ENOTSUP)), StepDecision::Continue));
    assert!(matches!(after_step(&DevStep::Start, Ok(())), StepDecision::Continue));
    assert!(DevStep::PromiscuousEnable.is_fatal());
}

#[test]
fn mac_address_text() {
    assert_eq!(format_mac_addr(&[0x02, 0x00, 0x0a, 0x1b, 0x2c, 0xff]), "02:00:0a:1b:2c:ff");
    for a in [[0u8; 6], [0xff; 6], [1, 2, 3, 4, 5, 6], [0xde, 0xad, 0xbe, 0xef, 0x10, 0x9a]] {
        let expected = format!(
            "{:02x}:{:02x}:{:02x}:{:02x}:{:02x}:{:02x}",
            a[0], a[1], a[2], a[3], a[4], a[5]
        );
        assert_eq!(format_mac_addr(&a), expected);
    }
}
