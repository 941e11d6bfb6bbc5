use dpdk_net::arp::Ipv4Address;
use dpdk_net::bridge::{
    accept_loop_step, bridge_command_step, udp_local_addr, BridgeCommandKind, BridgeReply,
    CommandOutcome, broken_pipe, connected_target, connection_reset, continues, copy_datagram,
    relay_step, udp_relay_step, would_block, AcceptAction, AcceptEvent, BridgeError, BridgeIoError,
    IoKind, PeekSlot, RelayAction, RelayEvent, UdpRelayAction, UdpRelayEvent,
};

#[test]
fn datagram_copy_truncates_to_buffer() {
    let mut buf = vec![9u8; 4];
    let n = copy_datagram(&mut buf, &[1, 2, 3, 4, 5, 6]);
    assert_eq!(n, 4);
    assert_eq!(buf, vec![1, 2, 3, 4]);

    let mut buf = vec![9u8; 6];
    let n = copy_datagram(&mut buf, &[1, 2]);
    assert_eq!(n, 2);
    assert_eq!(buf, vec![1, 2, 9, 9, 9, 9]);

    let mut empty: Vec<u8> = Vec::new();
    assert_eq!(copy_datagram(&mut empty, &[1, 2, 3]), 0);
}

#[test]
fn connected_socket_targets() {
    assert_eq!(connected_target(Some(7u32)), Ok(7));
    assert_eq!(connected_target::<u32>(None), Err(BridgeIoError::NotConnected));
}

#[test]
fn bridge_error_messages() {
    assert_eq!(broken_pipe(), BridgeIoError::BrokenPipe);
    assert_eq!(connection_reset(), BridgeIoError::ConnectionReset);
    assert_eq!(would_block(), BridgeIoError::WouldBlock);
    assert_eq!(broken_pipe().message(), Some("lcore relay task exited"));
    assert_eq!(connection_reset().message(), Some("lcore relay task exited"));
    assert_eq!(would_block().message(), None);
    assert_eq!(BridgeIoError::NotConnected.message(), Some("not connected"));
}

#[test]
fn peeked_datagram_is_delivered_once() {
    let mut slot: PeekSlot<u32> = PeekSlot::new();
    assert!(!slot.is_ready());
    assert_eq!(slot.take(), None);
    slot.hold(5);
    assert!(slot.is_ready());
    assert_eq!(slot.take(), Some(5));
    assert!(!slot.is_ready());
    assert_eq!(slot.take(), None);
}

#[test]
fn bridge_errors_as_io_errors() {
    assert_eq!(BridgeError::Disconnected.io_kind(), Some(IoKind::BrokenPipe));
    assert_eq!(BridgeError::ConnectionFailed.io_kind(), Some(IoKind::ConnectionRefused));
    let io = BridgeError::Io(std::io::Error::from(std::io::ErrorKind::TimedOut));
    assert_eq!(io.io_kind(), None);
    let connect = BridgeError::Connect(smoltcp::socket::tcp::ConnectError::Unaddressable);
    assert_eq!(connect.io_kind(), Some(IoKind::ConnectionRefused));
    let listen = BridgeError::Listen(smoltcp::socket::tcp::ListenError::InvalidState);
    assert_eq!(listen.io_kind(), Some(IoKind::AddrInUse));
    let bind = BridgeError::UdpBind(smoltcp::socket::udp::BindError::Unaddressable);
    assert_eq!(bind.io_kind(), Some(IoKind::AddrInUse));

    assert_eq!(BridgeError::Disconnected.text(), "DPDK lcore disconnected");
    assert_eq!(BridgeError::ConnectionFailed.text(), "TCP connection failed");
    assert_eq!(io.text(), "IO error: ");
    assert_eq!(connect.text(), "TCP connect error: ");
    assert_eq!(listen.text(), "TCP listen error: ");
    assert_eq!(bind.text(), "UDP bind error: ");
    assert!(!BridgeError::Disconnected.has_source());
    assert!(io.has_source() && connect.has_source() && listen.has_source() && bind.has_source());
}

#[test]
fn tcp_relay_decisions() {
    assert_eq!(relay_step(RelayEvent::Received(0)), RelayAction::ForwardEndAndStop);
    assert_eq!(relay_step(RelayEvent::Received(1400)), RelayAction::ForwardChunk(1400));
    assert_eq!(relay_step(RelayEvent::ReceiveFailed), RelayAction::ForwardErrorAndStop);
    assert_eq!(relay_step(RelayEvent::ForwardFailed), RelayAction::Stop);
    assert_eq!(relay_step(RelayEvent::Outgoing), RelayAction::SendToStream);
    assert_eq!(relay_step(RelayEvent::SendFailed), RelayAction::ForwardErrorAndStop);
    assert_eq!(relay_step(RelayEvent::OutgoingClosed), RelayAction::Stop);
    assert_eq!(relay_step(RelayEvent::CloseRequested), RelayAction::CloseStreamAndStop);
    assert!(continues(RelayAction::ForwardChunk(3)));
    assert!(continues(RelayAction::SendToStream));
    assert!(!continues(RelayAction::ForwardEndAndStop));
    assert!(!continues(RelayAction::CloseStreamAndStop));
    assert!(!continues(RelayAction::Stop));
}

#[test]
fn udp_relay_and_accept_decisions() {
    assert_eq!(udp_relay_step(UdpRelayEvent::Outgoing), UdpRelayAction::SendDatagram);
    assert_eq!(udp_relay_step(UdpRelayEvent::OutgoingClosed), UdpRelayAction::Stop);
    assert_eq!(udp_relay_step(UdpRelayEvent::Received), UdpRelayAction::TryForward);
    assert_eq!(udp_relay_step(UdpRelayEvent::ReceiveFailed), UdpRelayAction::Skip);
    assert_eq!(accept_loop_step(AcceptEvent::Accepted), AcceptAction::DeliverStream);
    assert_eq!(accept_loop_step(AcceptEvent::AcceptFailed), AcceptAction::DeliverErrorAndContinue);
    assert_eq!(accept_loop_step(AcceptEvent::Delivered), AcceptAction::StartRelay);
    assert_eq!(accept_loop_step(AcceptEvent::ListenerDropped), AcceptAction::Stop);
}

#[test]
fn bridge_worker_replies() {
    assert_eq!(bridge_command_step(BridgeCommandKind::Connect, CommandOutcome::OpenFailed), BridgeReply::ConnectError);
    assert_eq!(bridge_command_step(BridgeCommandKind::Listen, CommandOutcome::OpenFailed), BridgeReply::ListenError);
    assert_eq!(bridge_command_step(BridgeCommandKind::BindUdp, CommandOutcome::OpenFailed), BridgeReply::BindError);
    assert_eq!(bridge_command_step(BridgeCommandKind::Connect, CommandOutcome::HandshakeFailed), BridgeReply::ConnectionFailed);
    assert_eq!(bridge_command_step(BridgeCommandKind::Connect, CommandOutcome::Ready), BridgeReply::StreamAndRelay);
    assert_eq!(bridge_command_step(BridgeCommandKind::Listen, CommandOutcome::Ready), BridgeReply::ListenerAndAcceptLoop);
    assert_eq!(bridge_command_step(BridgeCommandKind::BindUdp, CommandOutcome::Ready), BridgeReply::UdpSocketAndRelay);
}

#[test]
fn udp_local_address_defaults_to_unspecified() {
    let (ip, port) = udp_local_addr(None, 5353);
    assert_eq!(ip.octets(), [0, 0, 0, 0]);
    assert_eq!(port, 5353);
    let (ip, port) = udp_local_addr(Some(Ipv4Address::new(10, 0, 0, 2)), 9000);
    assert_eq!(ip.octets(), [10, 0, 0, 2]);
    assert_eq!(port, 9000);
}
