use dpdk_net::tcp::{
    accept_step, aborts_on_drop, connect_progress, ingress_step, is_connected, is_finished, listener_backlog,
    listener_is_pending, orphans_to_keep, recv_step, send_step, AcceptStep, ConnectProgress, RecvOutcome, RecvStep,
    SendStep, TcpState,
};
use dpdk_net::tcp::{shutdown_step, ShutdownStep};

#[test]
fn state_predicates() {
    assert!(is_connected(TcpState::Established));
    assert!(!is_connected(TcpState::SynSent));
    assert!(is_finished(TcpState::TimeWait) && is_finished(TcpState::Closed));
    assert!(!is_finished(TcpState::LastAck));
    assert!(aborts_on_drop(TcpState::Established));
    assert!(aborts_on_drop(TcpState::CloseWait));
    assert!(!aborts_on_drop(TcpState::FinWait2));
    assert!(!aborts_on_drop(TcpState::LastAck));
    assert_eq!(connect_progress(TcpState::Established), ConnectProgress::Connected);
    assert_eq!(connect_progress(TcpState::Closed), ConnectProgress::Failed);
    assert_eq!(connect_progress(TcpState::SynSent), ConnectProgress::Pending);
}

#[test]
fn listener_decisions() {
    assert_eq!(listener_backlog(0), 1);
    assert_eq!(listener_backlog(4), 4);
    assert!(!listener_is_pending(&[TcpState::Listen, TcpState::Listen]));
    assert!(listener_is_pending(&[TcpState::Listen, TcpState::SynReceived]));
    assert_eq!(accept_step(&[TcpState::Listen, TcpState::Established, TcpState::Established]), AcceptStep::Take(1));
    assert_eq!(accept_step(&[TcpState::Closed, TcpState::TimeWait]), AcceptStep::Dead);
    assert_eq!(accept_step(&[TcpState::Closed, TcpState::Listen]), AcceptStep::Wait);
    assert_eq!(accept_step(&[]), AcceptStep::Dead);
    assert_eq!(orphans_to_keep(&vec![1, 2, 3, 4], &vec![TcpState::Closed, TcpState::FinWait1, TcpState::TimeWait, TcpState::LastAck]), vec![2, 4]);
}

#[test]
fn send_recv_and_ingress_steps() {
    assert_eq!(send_step(0, 10, 4), SendStep::Pending(4));
    assert_eq!(send_step(4, 10, 6), SendStep::Done(10));
    assert_eq!(send_step(0, 0, 0), SendStep::Done(0));
    assert_eq!(recv_step(8, RecvOutcome::Data(3)), RecvStep::Ready(3));
    assert_eq!(recv_step(8, RecvOutcome::Data(0)), RecvStep::Pending);
    assert_eq!(recv_step(0, RecvOutcome::Data(0)), RecvStep::Ready(0));
    assert_eq!(recv_step(8, RecvOutcome::Finished), RecvStep::Ready(0));
    assert_eq!(recv_step(8, RecvOutcome::InvalidState), RecvStep::Failed);
    assert_eq!(ingress_step(0, 32, false), (0, false));
    assert_eq!(ingress_step(0, 32, true), (1, true));
    assert_eq!(ingress_step(31, 32, true), (32, false));
    assert_eq!(ingress_step(0, 0, true), (1, false));
}

#[test]
fn graceful_shutdown_steps() {
    assert_eq!(shutdown_step(TcpState::Closed), ShutdownStep::Done);
    assert_eq!(shutdown_step(TcpState::TimeWait), ShutdownStep::Done);
    for s in [TcpState::FinWait1, TcpState::FinWait2, TcpState::Closing, TcpState::LastAck] {
        assert_eq!(shutdown_step(s), ShutdownStep::Wait);
    }
    for s in [TcpState::Listen, TcpState::SynSent, TcpState::SynReceived, TcpState::Established, TcpState::CloseWait] {
        assert_eq!(shutdown_step(s), ShutdownStep::InitiateClose);
    }
}
