use dpdk_net::lcore::{LaunchBuilder, LaunchError, Lcore, LcoreTable, Role, State};

#[test]
fn test_role_try_from() {
    assert_eq!(Role::try_from(0), Ok(Role::Rte));
    assert_eq!(Role::try_from(1), Ok(Role::Off));
    assert_eq!(Role::try_from(2), Ok(Role::Service));
    assert_eq!(Role::try_from(3), Ok(Role::NonEal));
    assert_eq!(Role::try_from(99), Err(()));
}

#[test]
fn test_state_from() {
    assert_eq!(State::from(0), State::Wait);
    assert_eq!(State::from(1), State::Running);
    assert_eq!(State::from(2), State::Finished);
    assert_eq!(State::from(99), State::Wait); // default
}

fn sample_table() -> LcoreTable {
    // lcores 0, 1, 3 and 4 enabled; 0 is main; 1 and 4 on socket 1
    LcoreTable::new(
        vec![true, true, false, true, true],
        vec![0, 1, 0, 0, 1],
        vec![Role::Rte, Role::Rte, Role::Off, Role::Rte, Role::Service],
        vec![State::Wait, State::Running, State::Wait, State::Finished, State::Wait],
        0,
    )
    .unwrap()
}

#[test]
fn lcore_table_rejects_ragged_columns() {
    assert!(LcoreTable::new(vec![true, true], vec![0], vec![Role::Rte, Role::Rte], vec![State::Wait, State::Wait], 0).is_none());
}

#[test]
fn all_and_workers_follow_enabled_ids() {
    let t = sample_table();
    let all: Vec<u32> = Lcore::all(&t).collect().iter().map(|l| l.id()).collect();
    assert_eq!(all, vec![0, 1, 3, 4]);
    let workers: Vec<u32> = Lcore::workers(&t).collect().iter().map(|l| l.id()).collect();
    assert_eq!(workers, vec![1, 3, 4]);
    assert_eq!(Lcore::count(&t), 4);
    let mut it = Lcore::workers(&t);
    assert_eq!(it.len(), 3);
    assert_eq!(it.next().map(|l| l.id()), Some(1));
    assert_eq!(it.len(), 2);
}

#[test]
fn lcore_properties_come_from_the_table() {
    let t = sample_table();
    let l = Lcore::from_id(4, &t).unwrap();
    assert_eq!(l.socket_id(&t), 1);
    assert_eq!(l.role(&t), Role::Service);
    assert!(l.is_available(&t));
    assert!(!l.is_main(&t));
    assert!(Lcore::main(&t).is_main(&t));
    assert!(Lcore::from_id(2, &t).is_none());
    assert!(Lcore::from_id(9, &t).is_none());
    assert!(!Lcore::from_id(1, &t).unwrap().is_available(&t));
    assert!(Lcore::current(u32::MAX).is_none());
    assert_eq!(Lcore::current(3).map(|l| l.id()), Some(3));
}

#[test]
fn launch_builder_filters_and_takes() {
    let t = sample_table();
    let b = LaunchBuilder::workers(&t).on_socket(1, &t);
    let ids: Vec<u32> = b.lcores().iter().map(|l| l.id()).collect();
    assert_eq!(ids, vec![1, 4]);
    let b = LaunchBuilder::all(&t).filter(|l: &Lcore| l.id() % 2 == 1).take(1);
    let ids: Vec<u32> = b.lcores().iter().map(|l| l.id()).collect();
    assert_eq!(ids, vec![1]);
    let b = LaunchBuilder::with_lcores(vec![Lcore::from_id(3, &t).unwrap()]).take(5);
    assert_eq!(b.lcores().len(), 1);
}

#[test]
fn launch_handle_pairs_results_and_reports_running() {
    let t = sample_table();
    let h = LaunchBuilder::all(&t).launched();
    assert!(!h.is_done(&t)); // lcore 1 is running
    let results = h.wait(|l: Lcore| 10 + l.id() as i32);
    let pairs: Vec<(u32, i32)> = results.iter().map(|(l, r)| (l.id(), *r)).collect();
    assert_eq!(pairs, vec![(0, 10), (1, 11), (3, 13), (4, 14)]);
    let h = LaunchBuilder::workers(&t).on_socket(0, &t).launched();
    assert!(h.is_done(&t));
    assert_eq!(h.lcores().len(), 1);
}

#[test]
fn launch_stops_at_first_refusal() {
    let t = sample_table();
    let r = LaunchBuilder::all(&t).launch(|l: Lcore| if l.id() == 3 { -16 } else { 0 });
    let e = r.err().unwrap();
    assert_eq!(e, LaunchError { lcore_id: 3, code: -16 });
    assert_eq!(e.message(), "Failed to launch on lcore 3: error -16");
    let ok = LaunchBuilder::workers(&t).run(|_l: Lcore| 0, |l: Lcore| l.id() as i32 * 2).unwrap();
    let pairs: Vec<(u32, i32)> = ok.iter().map(|(l, r)| (l.id(), *r)).collect();
    assert_eq!(pairs, vec![(1, 2), (3, 6), (4, 8)]);
}

#[test]
fn lcore_run_and_launch_on_workers() {
    let t = sample_table();
    let l = Lcore::from_id(3, &t).unwrap();
    assert_eq!(l.run(|_l: Lcore| 0, |_l: Lcore| 42), Ok(42));
    assert_eq!(l.run(|_l: Lcore| -1, |_l: Lcore| 42), Err(LaunchError { lcore_id: 3, code: -1 }));
    assert!(Lcore::launch_on_workers(&t, |_l: Lcore| 0).is_ok());
    assert_eq!(Lcore::launch_on_workers(&t, |l: Lcore| if l.id() == 4 { 7 } else { 0 }), Err(LaunchError { lcore_id: 4, code: 7 }));
}

#[test]
fn foreach_worker_visits_workers_in_order() {
    let t = sample_table();
    let seen = std::cell::RefCell::new(Vec::new());
    Lcore::foreach_worker(&t, |l: Lcore| seen.borrow_mut().push(l.id()));
    assert_eq!(seen.into_inner(), vec![1, 3, 4]);
}

#[test]
fn role_numbers_round_trip() {
    for role in [Role::Rte, Role::Off, Role::Service, Role::NonEal] {
        assert_eq!(Role::try_from(role.code()), Ok(role));
    }
    assert_eq!(Role::Service.code(), 2);
    assert_eq!(Role::try_from(4u32), Err(()));
}
