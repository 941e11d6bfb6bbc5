//! The bridge between OS threads and lcores: its error type and how each
//! error surfaces as an I/O error, the decisions of the relay tasks that
//! shuttle data between a DPDK socket and the OS side, how a worker answers
//! each command, how a received
//! datagram fills a caller's buffer, and where a connected socket sends.

use vstd::prelude::*;
use crate::arp::Ipv4Address;

verus! {

/// The I/O errors of a bridged socket.
#[derive(Debug, Clone, Copy, PartialEq, Eq, Structural)]
pub enum BridgeIoError {
    /// The lcore relay task exited while sending.
    BrokenPipe,
    /// The lcore relay task exited while receiving.
    ConnectionReset,
    /// The operation would block.
    WouldBlock,
    /// The socket has no connected peer.
    NotConnected,
}

impl BridgeIoError {
    /// The message the error carries, if any.
    pub open spec fn message_spec(self) -> Option<Seq<char>> {
        match self {
            BridgeIoError::BrokenPipe => Some("lcore relay task exited"@),
            BridgeIoError::ConnectionReset => Some("lcore relay task exited"@),
            BridgeIoError::WouldBlock => None,
            BridgeIoError::NotConnected => Some("not connected"@),
        }
    }

    /// The message the error carries, if any.
    pub fn message(&self) -> (r: Option<&'static str>)
        ensures
            r matches Some(m) ==> self.message_spec() == Some(m@),
            r is None <==> self.message_spec() is None,
    {
        match self {
            BridgeIoError::BrokenPipe => Some("lcore relay task exited"),
            BridgeIoError::ConnectionReset => Some("lcore relay task exited"),
            BridgeIoError::WouldBlock => None,
            BridgeIoError::NotConnected => Some("not connected"),
        }
    }
}

/// The error of a send whose lcore relay task exited.
pub fn broken_pipe() -> (r: BridgeIoError)
    ensures
        r == BridgeIoError::BrokenPipe,
{
    BridgeIoError::BrokenPipe
}

/// The error of a receive whose lcore relay task exited.
pub fn connection_reset() -> (r: BridgeIoError)
    ensures
        r == BridgeIoError::ConnectionReset,
{
    BridgeIoError::ConnectionReset
}

/// The error of an operation that would block.
pub fn would_block() -> (r: BridgeIoError)
    ensures
        r == BridgeIoError::WouldBlock,
{
    BridgeIoError::WouldBlock
}

/// Copy a received datagram into the caller's buffer: as much of the
/// payload as fits (the rest of the datagram is dropped, as with UDP
/// sockets); returns the number of bytes copied.
pub fn copy_datagram(buf: &mut [u8], payload: &[u8]) -> (n: usize)
    ensures
        n == if old(buf)@.len() < payload@.len() {
            old(buf)@.len()
        } else {
            payload@.len()
        },
        final(buf)@ == payload@.subrange(0, n as int) + old(buf)@.subrange(
            n as int,
            old(buf)@.len() as int,
        ),
{
    let n = if buf.len() < payload.len() {
        buf.len()
    } else {
        payload.len()
    };
    let mut i: usize = 0;
    while i < n
        invariant
            n <= old(buf)@.len(),
            n <= payload@.len(),
            i <= n,
            buf@.len() == old(buf)@.len(),
            forall|k: int| 0 <= k < i ==> buf@[k] == payload@[k],
            forall|k: int| i <= k < buf@.len() ==> buf@[k] == old(buf)@[k],
        decreases n - i,
    {
        buf[i] = payload[i];
        i += 1;
    }
    assert(buf@ =~= payload@.subrange(0, n as int) + old(buf)@.subrange(n as int, old(buf)@.len() as int));
    n
}

/// Where a connected socket sends: its peer, or `NotConnected` when
/// `connect` was never called.
pub fn connected_target<A: Copy>(peer: Option<A>) -> (r: Result<A, BridgeIoError>)
    ensures
        peer matches Some(a) ==> r == Ok::<A, BridgeIoError>(a),
        peer is None ==> r == Err::<A, BridgeIoError>(BridgeIoError::NotConnected),
{
    match peer {
        Some(a) => Ok(a),
        None => Err(BridgeIoError::NotConnected),
    }
}

/// A one-datagram look-ahead in front of a receive channel: a readiness
/// check may take a datagram off the channel and keep it here until the
/// next receive.
pub struct PeekSlot<D> {
    peeked: Option<D>,
}

impl<D> PeekSlot<D> {
    /// The datagram held back, if any.
    pub closed spec fn held(&self) -> Option<D> {
        self.peeked
    }

    /// An empty slot.
    pub fn new() -> (r: Self)
        ensures
            r.held() is None,
    {
        PeekSlot { peeked: None }
    }

    /// Whether a datagram is held back (the socket is then ready to read).
    pub fn is_ready(&self) -> (r: bool)
        ensures
            r == self.held() is Some,
    {
        self.peeked.is_some()
    }

    /// Hold back a datagram a readiness check took off the channel.
    pub fn hold(&mut self, d: D)
        requires
            old(self).held() is None,
        ensures
            final(self).held() == Some(d),
    {
        self.peeked = Some(d);
    }

    /// The datagram a receive delivers first: the held one, if any (the
    /// slot is then empty); otherwise nothing, and the channel is read.
    pub fn take(&mut self) -> (r: Option<D>)
        ensures
            r == old(self).held(),
            final(self).held() is None,
    {
        self.peeked.take()
    }
}

/// The standard library's I/O error, carried as an opaque value.
#[verifier::external_type_specification]
#[verifier::external_body]
pub struct ExIoError(std::io::Error);

/// smoltcp's TCP connect error, carried as an opaque value.
#[verifier::external_type_specification]
#[verifier::external_body]
pub struct ExConnectError(smoltcp::socket::tcp::ConnectError);

/// smoltcp's TCP listen error, carried as an opaque value.
#[verifier::external_type_specification]
#[verifier::external_body]
pub struct ExListenError(smoltcp::socket::tcp::ListenError);

/// smoltcp's UDP bind error, carried as an opaque value.
#[verifier::external_type_specification]
#[verifier::external_body]
pub struct ExBindError(smoltcp::socket::udp::BindError);

/// Error type for bridge operations.
#[derive(Debug)]
pub enum BridgeError {
    /// DPDK lcore shut down or channel closed.
    Disconnected,
    /// TCP connection failed (RST, timeout, etc.).
    ConnectionFailed,
    /// IO error from the underlying stream.
    Io(std::io::Error),
    /// TCP connect error from smoltcp.
    Connect(smoltcp::socket::tcp::ConnectError),
    /// TCP listen error from smoltcp.
    Listen(smoltcp::socket::tcp::ListenError),
    /// UDP bind error from smoltcp.
    UdpBind(smoltcp::socket::udp::BindError),
}

/// The kinds of I/O error a bridge error turns into.
#[derive(Debug, Clone, Copy, PartialEq, Eq, Structural)]
pub enum IoKind {
    BrokenPipe,
    ConnectionRefused,
    AddrInUse,
}

impl BridgeError {
    /// The kind of the I/O error this error becomes; `None` for an I/O
    /// error, which is handed on as it is.
    pub open spec fn io_kind_spec(&self) -> Option<IoKind> {
        match self {
            BridgeError::Disconnected => Some(IoKind::BrokenPipe),
            BridgeError::ConnectionFailed => Some(IoKind::ConnectionRefused),
            BridgeError::Io(_) => None,
            BridgeError::Connect(_) => Some(IoKind::ConnectionRefused),
            BridgeError::Listen(_) => Some(IoKind::AddrInUse),
            BridgeError::UdpBind(_) => Some(IoKind::AddrInUse),
        }
    }

    /// The kind of the I/O error this error becomes.
    pub fn io_kind(&self) -> (r: Option<IoKind>)
        ensures
            r == self.io_kind_spec(),
    {
        match self {
            BridgeError::Disconnected => Some(IoKind::BrokenPipe),
            BridgeError::ConnectionFailed => Some(IoKind::ConnectionRefused),
            BridgeError::Io(_) => None,
            BridgeError::Connect(_) => Some(IoKind::ConnectionRefused),
            BridgeError::Listen(_) => Some(IoKind::AddrInUse),
            BridgeError::UdpBind(_) => Some(IoKind::AddrInUse),
        }
    }

    /// The text of the error: the whole of it for the variants without a
    /// payload, the part before the payload's own text otherwise.
    pub open spec fn text_spec(&self) -> Seq<char> {
        match self {
            BridgeError::Disconnected => "DPDK lcore disconnected"@,
            BridgeError::ConnectionFailed => "TCP connection failed"@,
            BridgeError::Io(_) => "IO error: "@,
            BridgeError::Connect(_) => "TCP connect error: "@,
            BridgeError::Listen(_) => "TCP listen error: "@,
            BridgeError::UdpBind(_) => "UDP bind error: "@,
        }
    }

    /// Whether the error's text goes on with its payload's own text.
    pub open spec fn has_payload(&self) -> bool {
        !(self is Disconnected || self is ConnectionFailed)
    }

    /// The text of the error, up to its payload's text.
    pub fn text(&self) -> (r: &'static str)
        ensures
            r@ == self.text_spec(),
    {
        match self {
            BridgeError::Disconnected => "DPDK lcore disconnected",
            BridgeError::ConnectionFailed => "TCP connection failed",
            BridgeError::Io(_) => "IO error: ",
            BridgeError::Connect(_) => "TCP connect error: ",
            BridgeError::Listen(_) => "TCP listen error: ",
            BridgeError::UdpBind(_) => "UDP bind error: ",
        }
    }

    /// Whether the error carries an underlying error (its source).
    pub fn has_source(&self) -> (r: bool)
        ensures
            r == self.has_payload(),
    {
        match self {
            BridgeError::Disconnected | BridgeError::ConnectionFailed => false,
            _ => true,
        }
    }
}

/// What a TCP relay task saw on one turn of its loop.
#[derive(Debug, Clone, Copy, PartialEq, Eq, Structural)]
pub enum RelayEvent {
    /// The DPDK stream delivered this many bytes (none at end of stream).
    Received(usize),
    /// Receiving from the DPDK stream failed.
    ReceiveFailed,
    /// Handing received bytes to the OS side failed (it dropped its end).
    ForwardFailed,
    /// The OS side handed over bytes to send.
    Outgoing,
    /// Sending the OS side's bytes on the DPDK stream failed.
    SendFailed,
    /// The OS side dropped its write half.
    OutgoingClosed,
    /// The OS side asked for a graceful close.
    CloseRequested,
}

/// What a TCP relay task does next.
#[derive(Debug, Clone, Copy, PartialEq, Eq, Structural)]
pub enum RelayAction {
    /// Hand the received bytes to the OS side and go on.
    ForwardChunk(usize),
    /// Hand an empty chunk (end of stream) to the OS side and stop.
    ForwardEndAndStop,
    /// Hand the error to the OS side and stop.
    ForwardErrorAndStop,
    /// Send the bytes on the DPDK stream and go on.
    SendToStream,
    /// Close the DPDK stream and stop.
    CloseStreamAndStop,
    /// Stop relaying.
    Stop,
}

/// The relay task's decision for each event.
pub open spec fn relay_decision(ev: RelayEvent) -> RelayAction {
    match ev {
        RelayEvent::Received(n) => if n == 0 {
            RelayAction::ForwardEndAndStop
        } else {
            RelayAction::ForwardChunk(n)
        },
        RelayEvent::ReceiveFailed => RelayAction::ForwardErrorAndStop,
        RelayEvent::ForwardFailed => RelayAction::Stop,
        RelayEvent::Outgoing => RelayAction::SendToStream,
        RelayEvent::SendFailed => RelayAction::ForwardErrorAndStop,
        RelayEvent::OutgoingClosed => RelayAction::Stop,
        RelayEvent::CloseRequested => RelayAction::CloseStreamAndStop,
    }
}

/// Decide what a TCP relay task does with an event.
pub fn relay_step(ev: RelayEvent) -> (r: RelayAction)
    ensures
        r == relay_decision(ev),
{
    match ev {
        RelayEvent::Received(n) => if n == 0 {
            RelayAction::ForwardEndAndStop
        } else {
            RelayAction::ForwardChunk(n)
        },
        RelayEvent::ReceiveFailed => RelayAction::ForwardErrorAndStop,
        RelayEvent::ForwardFailed => RelayAction::Stop,
        RelayEvent::Outgoing => RelayAction::SendToStream,
        RelayEvent::SendFailed => RelayAction::ForwardErrorAndStop,
        RelayEvent::OutgoingClosed => RelayAction::Stop,
        RelayEvent::CloseRequested => RelayAction::CloseStreamAndStop,
    }
}

/// Whether a relay action ends the relay task.
pub open spec fn stops(a: RelayAction) -> bool {
    !(a is ForwardChunk || a is SendToStream)
}

/// Whether a relay task goes on after an action.
pub fn continues(a: RelayAction) -> (r: bool)
    ensures
        r == !stops(a),
{
    match a {
        RelayAction::ForwardChunk(_) | RelayAction::SendToStream => true,
        _ => false,
    }
}

/// What a UDP relay task does next.
#[derive(Debug, Clone, Copy, PartialEq, Eq, Structural)]
pub enum UdpRelayAction {
    /// Send the datagram out of the DPDK socket (a failure is dropped, as
    /// the OS side was already told the datagram was taken).
    SendDatagram,
    /// Hand the received datagram to the OS side without waiting (it is
    /// dropped when the channel is full).
    TryForward,
    /// Ignore the event and go on.
    Skip,
    /// Stop relaying.
    Stop,
}

/// What a UDP relay task saw on one turn of its loop.
#[derive(Debug, Clone, Copy, PartialEq, Eq, Structural)]
pub enum UdpRelayEvent {
    /// The OS side handed over a datagram to send.
    Outgoing,
    /// The OS side dropped its end.
    OutgoingClosed,
    /// The DPDK socket delivered a datagram.
    Received,
    /// Receiving from the DPDK socket failed (a transient error).
    ReceiveFailed,
}

/// Decide what a UDP relay task does with an event.
pub fn udp_relay_step(ev: UdpRelayEvent) -> (r: UdpRelayAction)
    ensures
        ev is Outgoing ==> r == UdpRelayAction::SendDatagram,
        ev is OutgoingClosed ==> r == UdpRelayAction::Stop,
        ev is Received ==> r == UdpRelayAction::TryForward,
        ev is ReceiveFailed ==> r == UdpRelayAction::Skip,
{
    match ev {
        UdpRelayEvent::Outgoing => UdpRelayAction::SendDatagram,
        UdpRelayEvent::OutgoingClosed => UdpRelayAction::Stop,
        UdpRelayEvent::Received => UdpRelayAction::TryForward,
        UdpRelayEvent::ReceiveFailed => UdpRelayAction::Skip,
    }
}

/// The commands a bridge worker serves.
#[derive(Debug, Clone, Copy, PartialEq, Eq, Structural)]
pub enum BridgeCommandKind {
    /// Open a TCP connection.
    Connect,
    /// Listen on a TCP port.
    Listen,
    /// Bind a UDP port.
    BindUdp,
}

/// How serving a command went on the lcore side.
#[derive(Debug, Clone, Copy, PartialEq, Eq, Structural)]
pub enum CommandOutcome {
    /// Opening the DPDK socket (connect, listen or bind) failed.
    OpenFailed,
    /// The TCP handshake of a connection did not complete.
    HandshakeFailed,
    /// The socket is open (a connection is established).
    Ready,
}

/// What a bridge worker answers a command with.
#[derive(Debug, Clone, Copy, PartialEq, Eq, Structural)]
pub enum BridgeReply {
    /// The error of opening the socket, as a connect error.
    ConnectError,
    /// The error of opening the socket, as a listen error.
    ListenError,
    /// The error of opening the socket, as a UDP bind error.
    BindError,
    /// `ConnectionFailed`: the handshake did not complete.
    ConnectionFailed,
    /// The bridged stream; its relay task starts.
    StreamAndRelay,
    /// The bridged listener; its accept loop starts.
    ListenerAndAcceptLoop,
    /// The bridged UDP socket; its relay task starts.
    UdpSocketAndRelay,
}

/// The reply a worker owes for a command and how serving it went: the
/// error of opening the socket, tagged by the command; `ConnectionFailed`
/// for a handshake that did not complete; otherwise the bridged socket,
/// whose relay task (or accept loop) starts.
pub open spec fn command_reply(kind: BridgeCommandKind, outcome: CommandOutcome) -> BridgeReply {
    match outcome {
        CommandOutcome::OpenFailed => match kind {
            BridgeCommandKind::Connect => BridgeReply::ConnectError,
            BridgeCommandKind::Listen => BridgeReply::ListenError,
            BridgeCommandKind::BindUdp => BridgeReply::BindError,
        },
        CommandOutcome::HandshakeFailed => BridgeReply::ConnectionFailed,
        CommandOutcome::Ready => match kind {
            BridgeCommandKind::Connect => BridgeReply::StreamAndRelay,
            BridgeCommandKind::Listen => BridgeReply::ListenerAndAcceptLoop,
            BridgeCommandKind::BindUdp => BridgeReply::UdpSocketAndRelay,
        },
    }
}

/// Decide how a bridge worker answers a command.
pub fn bridge_command_step(kind: BridgeCommandKind, outcome: CommandOutcome) -> (r: BridgeReply)
    ensures
        r == command_reply(kind, outcome),
{
    match outcome {
        CommandOutcome::OpenFailed => match kind {
            BridgeCommandKind::Connect => BridgeReply::ConnectError,
            BridgeCommandKind::Listen => BridgeReply::ListenError,
            BridgeCommandKind::BindUdp => BridgeReply::BindError,
        },
        CommandOutcome::HandshakeFailed => BridgeReply::ConnectionFailed,
        CommandOutcome::Ready => match kind {
            BridgeCommandKind::Connect => BridgeReply::StreamAndRelay,
            BridgeCommandKind::Listen => BridgeReply::ListenerAndAcceptLoop,
            BridgeCommandKind::BindUdp => BridgeReply::UdpSocketAndRelay,
        },
    }
}

/// Whether a reply hands a bridged socket over (and starts its task).
pub open spec fn hands_over_socket(r: BridgeReply) -> bool {
    r is StreamAndRelay || r is ListenerAndAcceptLoop || r is UdpSocketAndRelay
}

/// A worker hands a socket over, and starts a task for it, exactly when
/// the socket opened (and, for a connection, its handshake completed).
pub proof fn lemma_socket_only_when_ready(kind: BridgeCommandKind, outcome: CommandOutcome)
    ensures
        hands_over_socket(command_reply(kind, outcome)) <==> outcome is Ready,
{
}

/// The local address a bridged UDP socket reports: the reactor's IPv4
/// address, or `0.0.0.0` when it has none, with the bound port.
pub fn udp_local_addr(ip: Option<Ipv4Address>, port: u16) -> (r: (Ipv4Address, u16))
    ensures
        ip matches Some(a) ==> r.0 == a,
        ip is None ==> r.0.octets_spec() == seq![0u8, 0u8, 0u8, 0u8],
        r.1 == port,
{
    match ip {
        Some(a) => (a, port),
        None => (Ipv4Address::new(0, 0, 0, 0), port),
    }
}

/// What the accept loop of a bridged listener saw.
#[derive(Debug, Clone, Copy, PartialEq, Eq, Structural)]
pub enum AcceptEvent {
    /// A connection was accepted.
    Accepted,
    /// Accepting failed.
    AcceptFailed,
    /// The accepted stream was handed to the OS side.
    Delivered,
    /// The OS side dropped the listener, so the stream could not be handed over.
    ListenerDropped,
}

/// What the accept loop does next.
#[derive(Debug, Clone, Copy, PartialEq, Eq, Structural)]
pub enum AcceptAction {
    /// Hand the accepted stream to the OS side.
    DeliverStream,
    /// Hand the error to the OS side and keep accepting.
    DeliverErrorAndContinue,
    /// Start the stream's relay task and keep accepting.
    StartRelay,
    /// Stop accepting.
    Stop,
}

/// Decide what the accept loop of a bridged listener does with an event.
pub fn accept_loop_step(ev: AcceptEvent) -> (r: AcceptAction)
    ensures
        ev is Accepted ==> r == AcceptAction::DeliverStream,
        ev is AcceptFailed ==> r == AcceptAction::DeliverErrorAndContinue,
        ev is Delivered ==> r == AcceptAction::StartRelay,
        ev is ListenerDropped ==> r == AcceptAction::Stop,
{
    match ev {
        AcceptEvent::Accepted => AcceptAction::DeliverStream,
        AcceptEvent::AcceptFailed => AcceptAction::DeliverErrorAndContinue,
        AcceptEvent::Delivered => AcceptAction::StartRelay,
        AcceptEvent::ListenerDropped => AcceptAction::Stop,
    }
}

} // verus!
