use dpdk_net::lcore::Lcore;
use dpdk_net::ports::{EphemeralPorts, WorkerContext, WorkerRegistry};

#[test]
fn worker_ports_start_at_queue_offset_and_wrap() {
    let lcore = Lcore::current(2).unwrap();
    let mut ctx = WorkerContext::new(lcore, 3, 1);
    assert_eq!((ctx.queue_id(), ctx.socket_id(), ctx.lcore().id()), (3, 1, 2));
    assert_eq!(ctx.alloc_ephemeral_port(), 32768 + 3 * 256);
    assert_eq!(ctx.alloc_ephemeral_port(), 32768 + 3 * 256 + 1);
    let mut ctx = WorkerContext::new(lcore, 199, 0);
    assert_eq!(ctx.alloc_ephemeral_port(), 32768 + 99 * 256);
    let mut last = 0;
    for _ in 0..(60999 - (32768 + 99 * 256)) {
        last = ctx.alloc_ephemeral_port();
    }
    assert_eq!(last, 60999);
    assert_eq!(ctx.alloc_ephemeral_port(), 32768);
}

#[test]
fn bridge_ports_wrap_at_top_of_range() {
    let mut p = EphemeralPorts::new();
    assert_eq!(p.allocate(), 49152);
    assert_eq!(p.allocate(), 49153);
    for _ in 0..(65535 - 49154) {
        p.allocate();
    }
    assert_eq!(p.allocate(), 65535);
    assert_eq!(p.allocate(), 49152);
}

#[test]
fn registry_round_robin() {
    let mut r: WorkerRegistry<&str> = WorkerRegistry::new();
    assert_eq!(r.select(), None);
    r.register("a");
    r.register("b");
    r.register("c");
    let picks: Vec<&str> = (0..5).map(|_| *r.select().unwrap()).collect();
    assert_eq!(picks, vec!["a", "b", "c", "a", "b"]);
}
