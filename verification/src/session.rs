//! Connection lifecycle of the protocol client and the heartbeat daemon's
//! decision.
//!
//! The session advances on discrete events: a broadcast heard, a handshake
//! reply, a heartbeat failure, a shutdown request, a disconnect reply.  The
//! sockets and timers that produce those events live with the embedding
//! program; the transitions are decided here.

use vstd::prelude::*;

verus! {

/// Where the protocol client stands.
#[derive(Clone, Copy, Debug, PartialEq, Eq, Structural)]
pub enum SessionState {
    /// Listening for a device broadcast.
    Discovering,
    /// Handshake sent, reply awaited.
    Handshaking,
    /// Handshake acknowledged with success; commands may flow.
    Connected,
    /// Disconnect requested, reply awaited.
    Disconnecting,
    /// The session is over.
    Closed,
}

/// What the outside world reported to the session.
#[derive(Clone, Copy, Debug, PartialEq, Eq, Structural)]
pub enum SessionEvent {
    /// A datagram arrived on the broadcast port.
    BroadcastReceived,
    /// The handshake reply carried a zero status.
    HandshakeOk,
    /// The handshake failed: a timeout or a non-zero status.
    HandshakeFailed,
    /// A keepalive was not answered with success.
    HeartbeatFailed,
    /// The supervisor asked for an orderly shutdown.
    ShutdownRequested,
    /// The disconnect request was answered.
    DisconnectAcked,
}

/// The session transition function.
pub open spec fn spec_session_step(s: SessionState, e: SessionEvent) -> SessionState {
    match (s, e) {
        (SessionState::Discovering, SessionEvent::BroadcastReceived) => SessionState::Handshaking,
        (SessionState::Discovering, SessionEvent::ShutdownRequested) => SessionState::Closed,
        (SessionState::Handshaking, SessionEvent::HandshakeOk) => SessionState::Connected,
        (SessionState::Handshaking, SessionEvent::HandshakeFailed) => SessionState::Closed,
        (SessionState::Handshaking, SessionEvent::ShutdownRequested) => SessionState::Closed,
        (SessionState::Connected, SessionEvent::HeartbeatFailed) => SessionState::Closed,
        (SessionState::Connected, SessionEvent::ShutdownRequested) => SessionState::Disconnecting,
        (SessionState::Disconnecting, SessionEvent::DisconnectAcked) => SessionState::Closed,
        (SessionState::Disconnecting, SessionEvent::ShutdownRequested) => SessionState::Disconnecting,
        _ => s,
    }
}

/// Advance the session by one event.
pub fn session_step(s: SessionState, e: SessionEvent) -> (r: SessionState)
    ensures
        r == spec_session_step(s, e),
{
    match (s, e) {
        (SessionState::Discovering, SessionEvent::BroadcastReceived) => SessionState::Handshaking,
        (SessionState::Discovering, SessionEvent::ShutdownRequested) => SessionState::Closed,
        (SessionState::Handshaking, SessionEvent::HandshakeOk) => SessionState::Connected,
        (SessionState::Handshaking, SessionEvent::HandshakeFailed) => SessionState::Closed,
        (SessionState::Handshaking, SessionEvent::ShutdownRequested) => SessionState::Closed,
        (SessionState::Connected, SessionEvent::HeartbeatFailed) => SessionState::Closed,
        (SessionState::Connected, SessionEvent::ShutdownRequested) => SessionState::Disconnecting,
        (SessionState::Disconnecting, SessionEvent::DisconnectAcked) => SessionState::Closed,
        (SessionState::Disconnecting, SessionEvent::ShutdownRequested) => SessionState::Disconnecting,
        _ => s,
    }
}

/// A closed session never reopens.
pub proof fn lemma_closed_is_final(e: SessionEvent)
    ensures
        spec_session_step(SessionState::Closed, e) == SessionState::Closed,
{
}

/// Connected is reached only by a successful handshake.
pub proof fn lemma_connected_needs_handshake(s: SessionState, e: SessionEvent)
    requires
        s != SessionState::Connected,
        spec_session_step(s, e) == SessionState::Connected,
    ensures
        s == SessionState::Handshaking,
        e == SessionEvent::HandshakeOk,
{
}

/// Once shutdown is requested, the session is winding down: it is either
/// waiting for the disconnect reply or already over.
pub proof fn lemma_shutdown_winds_down(s: SessionState)
    ensures
        spec_session_step(s, SessionEvent::ShutdownRequested) == SessionState::Disconnecting
            || spec_session_step(s, SessionEvent::ShutdownRequested) == SessionState::Closed,
{
}

/// What the heartbeat daemon does on one wakeup.
#[derive(Clone, Copy, Debug, PartialEq, Eq, Structural)]
pub enum HeartbeatAction {
    /// Submit one keepalive request, then sleep for the period.
    SendBeat,
    /// Exit the daemon.
    Exit,
}

/// The heartbeat daemon's decision: exit when termination was signalled or
/// the previous keepalive failed; otherwise send the next keepalive.
pub fn heartbeat_step(term_requested: bool, last_beat_failed: bool) -> (r: HeartbeatAction)
    ensures
        r == (if term_requested || last_beat_failed {
            HeartbeatAction::Exit
        } else {
            HeartbeatAction::SendBeat
        }),
{
    if term_requested || last_beat_failed {
        HeartbeatAction::Exit
    } else {
        HeartbeatAction::SendBeat
    }
}

} // verus!
