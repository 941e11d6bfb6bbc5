//! The decisions the TCP sockets and the reactor take from socket states:
//! when a stream counts as connected or closed, when dropping it aborts
//! it, which listening socket an accept takes, how far a send got, what a
//! receive reports, how a graceful shutdown proceeds, which closing
//! sockets stay, and when an ingress batch ends.

use vstd::prelude::*;

verus! {

/// The states of a TCP socket (RFC 793), as the network stack reports them.
#[derive(Debug, Clone, Copy, PartialEq, Eq, Structural)]
pub enum TcpState {
    Closed,
    Listen,
    SynSent,
    SynReceived,
    Established,
    FinWait1,
    FinWait2,
    CloseWait,
    Closing,
    LastAck,
    TimeWait,
}

/// The socket is done: closed, or waiting out TIME-WAIT.
pub open spec fn is_terminal(s: TcpState) -> bool {
    s == TcpState::Closed || s == TcpState::TimeWait
}

/// Exactly two states are terminal, CLOSED and TIME-WAIT; in particular an
/// established connection, one being set up and one still shutting down
/// are not.
pub proof fn lemma_terminal_states(s: TcpState)
    ensures
        is_terminal(s) <==> (s == TcpState::Closed || s == TcpState::TimeWait),
        !is_terminal(TcpState::Established),
        !is_terminal(TcpState::SynSent) && !is_terminal(TcpState::SynReceived),
        !is_terminal(TcpState::FinWait1) && !is_terminal(TcpState::FinWait2),
        !is_terminal(TcpState::CloseWait) && !is_terminal(TcpState::LastAck),
        !is_terminal(TcpState::Closing) && !is_terminal(TcpState::Listen),
{
}

/// A stream is connected when its socket is established.
pub fn is_connected(s: TcpState) -> (r: bool)
    ensures
        r == (s == TcpState::Established),
{
    s == TcpState::Established
}

/// Whether a socket has reached a terminal state (closed or TIME-WAIT): a
/// close completes there, a connection attempt has failed there, and an
/// orphaned socket can be removed there.
pub fn is_finished(s: TcpState) -> (r: bool)
    ensures
        r == is_terminal(s),
{
    s == TcpState::Closed || s == TcpState::TimeWait
}

/// Whether dropping a stream aborts its connection: yes unless it is
/// already closed or in a graceful shutdown (FIN-WAIT-1/2, CLOSING,
/// TIME-WAIT, LAST-ACK), which is left to complete.
pub fn aborts_on_drop(s: TcpState) -> (r: bool)
    ensures
        r == !(s == TcpState::Closed || s == TcpState::FinWait1 || s == TcpState::FinWait2 || s
            == TcpState::Closing || s == TcpState::TimeWait || s == TcpState::LastAck),
{
    match s {
        TcpState::Closed | TcpState::FinWait1 | TcpState::FinWait2 | TcpState::Closing
        | TcpState::TimeWait | TcpState::LastAck => false,
        _ => true,
    }
}

/// Where waiting for a connection stands.
#[derive(Debug, Clone, Copy, PartialEq, Eq, Structural)]
pub enum ConnectProgress {
    /// The handshake completed.
    Connected,
    /// The connection attempt failed.
    Failed,
    /// Keep waiting.
    Pending,
}

/// Where waiting for a connection stands, given the socket's state:
/// connected once established, failed once closed or in TIME-WAIT,
/// pending otherwise.
pub fn connect_progress(s: TcpState) -> (r: ConnectProgress)
    ensures
        s == TcpState::Established ==> r == ConnectProgress::Connected,
        is_terminal(s) ==> r == ConnectProgress::Failed,
        !(s == TcpState::Established || is_terminal(s)) ==> r == ConnectProgress::Pending,
{
    match s {
        TcpState::Established => ConnectProgress::Connected,
        TcpState::Closed | TcpState::TimeWait => ConnectProgress::Failed,
        _ => ConnectProgress::Pending,
    }
}

/// What a graceful shutdown of a stream does next.
#[derive(Debug, Clone, Copy, PartialEq, Eq, Structural)]
pub enum ShutdownStep {
    /// The socket is closed (or in TIME-WAIT): the shutdown is complete.
    Done,
    /// A close is under way (FIN-WAIT-1/2, CLOSING, LAST-ACK): wait for it.
    Wait,
    /// Send a FIN to start the close, then wait for it.
    InitiateClose,
}

/// The step a graceful shutdown takes in a socket state.
pub fn shutdown_step(s: TcpState) -> (r: ShutdownStep)
    ensures
        is_terminal(s) ==> r == ShutdownStep::Done,
        (s == TcpState::FinWait1 || s == TcpState::FinWait2 || s == TcpState::Closing || s
            == TcpState::LastAck) ==> r == ShutdownStep::Wait,
        !(is_terminal(s) || s == TcpState::FinWait1 || s == TcpState::FinWait2 || s
            == TcpState::Closing || s == TcpState::LastAck) ==> r == ShutdownStep::InitiateClose,
{
    match s {
        TcpState::Closed | TcpState::TimeWait => ShutdownStep::Done,
        TcpState::FinWait1 | TcpState::FinWait2 | TcpState::Closing | TcpState::LastAck => {
            ShutdownStep::Wait
        },
        _ => ShutdownStep::InitiateClose,
    }
}

/// The number of listening sockets a listener keeps: the requested
/// backlog, at least one.
pub fn listener_backlog(backlog: usize) -> (r: usize)
    ensures
        r == if backlog < 1 {
            1
        } else {
            backlog
        },
{
    if backlog < 1 {
        1
    } else {
        backlog
    }
}

/// A connection is pending on a listener when one of its sockets is in
/// SYN-RECEIVED or ESTABLISHED.
pub fn listener_is_pending(states: &[TcpState]) -> (r: bool)
    ensures
        r == exists|i: int|
            0 <= i < states@.len() && (#[trigger] states@[i] == TcpState::SynReceived || states@[i]
                == TcpState::Established),
{
    let mut i: usize = 0;
    while i < states.len()
        invariant
            i <= states@.len(),
            forall|j: int|
                0 <= j < i ==> !(#[trigger] states@[j] == TcpState::SynReceived || states@[j]
                    == TcpState::Established),
        decreases states.len() - i,
    {
        if states[i] == TcpState::SynReceived || states[i] == TcpState::Established {
            return true;
        }
        i += 1;
    }
    false
}

/// What an accept does with the listener's sockets.
#[derive(Debug, Clone, Copy, PartialEq, Eq, Structural)]
pub enum AcceptStep {
    /// Hand out the connection of the socket at this position (and replace
    /// it by a fresh listening socket).
    Take(usize),
    /// Every socket is closed or in TIME-WAIT: the listener can no longer
    /// accept (reported as "unaddressable").
    Dead,
    /// Wait for a connection.
    Wait,
}

/// What an accept does: take the first established socket; failing that,
/// give up when every socket is closed or in TIME-WAIT; wait otherwise.
pub fn accept_step(states: &[TcpState]) -> (r: AcceptStep)
    ensures
        r matches AcceptStep::Take(i) ==> i < states@.len() && states@[i as int]
            == TcpState::Established && forall|j: int|
            0 <= j < i ==> #[trigger] states@[j] != TcpState::Established,
        r is Dead ==> (forall|j: int| 0 <= j < states@.len() ==> is_terminal(#[trigger] states@[j])),
        r is Wait ==> (forall|j: int|
            0 <= j < states@.len() ==> #[trigger] states@[j] != TcpState::Established) && exists|
            j: int,
        | 0 <= j < states@.len() && !is_terminal(#[trigger] states@[j]),
        (exists|j: int| 0 <= j < states@.len() && #[trigger] states@[j] == TcpState::Established)
            ==> r is Take,
{
    let mut i: usize = 0;
    while i < states.len()
        invariant
            i <= states@.len(),
            forall|j: int| 0 <= j < i ==> #[trigger] states@[j] != TcpState::Established,
        decreases states.len() - i,
    {
        if states[i] == TcpState::Established {
            return AcceptStep::Take(i);
        }
        i += 1;
    }
    let mut k: usize = 0;
    while k < states.len()
        invariant
            k <= states@.len(),
            forall|j: int| 0 <= j < states@.len() ==> #[trigger] states@[j] != TcpState::Established,
            forall|j: int| 0 <= j < k ==> is_terminal(#[trigger] states@[j]),
        decreases states.len() - k,
    {
        if !(states[k] == TcpState::Closed || states[k] == TcpState::TimeWait) {
            assert(!is_terminal(states@[k as int]));
            return AcceptStep::Wait;
        }
        k += 1;
    }
    AcceptStep::Dead
}

/// The orphaned closing sockets to keep watching: those not yet closed or
/// in TIME-WAIT, in order (`states[i]` is the state of `handles[i]`).
pub fn orphans_to_keep<H: Copy>(handles: &Vec<H>, states: &Vec<TcpState>) -> (r: Vec<H>)
    requires
        handles@.len() == states@.len(),
    ensures
        r@ == keep_unfinished(handles@, states@),
{
    let mut kept: Vec<H> = Vec::new();
    let mut i: usize = 0;
    while i < handles.len()
        invariant
            handles@.len() == states@.len(),
            i <= handles@.len(),
            kept@ == keep_unfinished(handles@.take(i as int), states@.take(i as int)),
        decreases handles.len() - i,
    {
        assert(handles@.take(i + 1).drop_last() =~= handles@.take(i as int));
        assert(states@.take(i + 1).drop_last() =~= states@.take(i as int));
        if !(states[i] == TcpState::Closed || states[i] == TcpState::TimeWait) {
            kept.push(handles[i]);
        }
        i += 1;
    }
    assert(handles@.take(handles@.len() as int) =~= handles@);
    assert(states@.take(states@.len() as int) =~= states@);
    kept
}

/// The handles whose state is not terminal, in order.
pub open spec fn keep_unfinished<H>(handles: Seq<H>, states: Seq<TcpState>) -> Seq<H>
    decreases handles.len(),
{
    if handles.len() == 0 || states.len() == 0 {
        Seq::empty()
    } else {
        let rest = keep_unfinished(handles.drop_last(), states.drop_last());
        if is_terminal(states.last()) {
            rest
        } else {
            rest.push(handles.last())
        }
    }
}

/// Where a send of `len` bytes stands.
#[derive(Debug, Clone, Copy, PartialEq, Eq, Structural)]
pub enum SendStep {
    /// Wait for buffer space; `offset` bytes are sent so far.
    Pending(usize),
    /// All of the data was handed to the socket.
    Done(usize),
}

/// After the socket took `sent` more bytes of a `len`-byte send that had
/// reached `offset`: done once everything went out (reporting `len`),
/// otherwise wait with the new offset.
pub fn send_step(offset: usize, len: usize, sent: usize) -> (r: SendStep)
    requires
        offset <= len,
        sent <= len - offset,
    ensures
        offset + sent >= len ==> r == SendStep::Done(len),
        offset + sent < len ==> r == SendStep::Pending((offset + sent) as usize),
{
    let next = offset + sent;
    if next >= len {
        SendStep::Done(len)
    } else {
        SendStep::Pending(next)
    }
}

/// What the socket's receive call gave.
#[derive(Debug, Clone, Copy, PartialEq, Eq, Structural)]
pub enum RecvOutcome {
    /// This many bytes were copied (possibly 0).
    Data(usize),
    /// The peer closed its side.
    Finished,
    /// The socket cannot receive in its state.
    InvalidState,
}

/// What a receive reports.
#[derive(Debug, Clone, Copy, PartialEq, Eq, Structural)]
pub enum RecvStep {
    /// Report this many bytes (0 = end of stream).
    Ready(usize),
    /// Wait for data.
    Pending,
    /// Report that the socket cannot receive.
    Failed,
}

/// What a receive into a `buf_len`-byte buffer reports: the bytes copied;
/// 0 right away for an empty buffer or at the end of the stream; waiting
/// when nothing arrived yet; failure when the socket cannot receive.
pub fn recv_step(buf_len: usize, outcome: RecvOutcome) -> (r: RecvStep)
    ensures
        outcome matches RecvOutcome::Data(n) ==> (n > 0 ==> r == RecvStep::Ready(n)),
        outcome == RecvOutcome::Data(0) && buf_len == 0 ==> r == RecvStep::Ready(0),
        outcome == RecvOutcome::Data(0) && buf_len > 0 ==> r == RecvStep::Pending,
        outcome == RecvOutcome::Finished ==> r == RecvStep::Ready(0),
        outcome == RecvOutcome::InvalidState ==> r == RecvStep::Failed,
{
    match outcome {
        RecvOutcome::Data(0) => {
            if buf_len == 0 {
                RecvStep::Ready(0)
            } else {
                RecvStep::Pending
            }
        },
        RecvOutcome::Data(n) => RecvStep::Ready(n),
        RecvOutcome::Finished => RecvStep::Ready(0),
        RecvOutcome::InvalidState => RecvStep::Failed,
    }
}

/// Default number of packets to process before yielding to other tasks.
pub const DEFAULT_INGRESS_BATCH_SIZE: usize = 32;

/// After one ingress poll (`got_packet`: whether it processed a packet),
/// with `processed` packets handled so far in this round: the new count
/// and whether to poll again. A round ends when no packet came or when the
/// batch size is reached, so that egress runs before the next yield.
pub fn ingress_step(processed: usize, batch_size: usize, got_packet: bool) -> (r: (usize, bool))
    requires
        processed == 0 || processed < batch_size,
    ensures
        !got_packet ==> r == (processed, false),
        got_packet ==> r.0 == processed + 1 && r.1 == (processed + 1 < batch_size),
{
    if !got_packet {
        (processed, false)
    } else {
        let n = processed + 1;
        (n, n < batch_size)
    }
}

} // verus!
