use dpdk_net::queue::{RxQueue, TxQueue};

#[test]
fn test_queue_creation() {
    let rxq = RxQueue::new(0, 1);
    assert_eq!(rxq.port_id(), 0);
    assert_eq!(rxq.queue_id(), 1);

    let txq = TxQueue::new(2, 3);
    assert_eq!(txq.port_id(), 2);
    assert_eq!(txq.queue_id(), 3);
}

#[test]
fn burst_sizes_are_capped() {
    assert_eq!(RxQueue::burst_size(0, 64), 64);
    assert_eq!(RxQueue::burst_size(60, 64), 4);
    assert_eq!(RxQueue::burst_size(64, 64), 0);
    assert_eq!(RxQueue::burst_size(0, 256), 64);
    assert_eq!(TxQueue::burst_size(0), 0);
    assert_eq!(TxQueue::burst_size(10), 10);
    assert_eq!(TxQueue::burst_size(256), 64);
}

