//! The lifecycle of a stateful backend connection, as a pure state
//! machine: `Unconnected` to `Connected` on first use, `Reconnecting` on a
//! transport error, then `Connected` again on success or `Failed` when the
//! single retry is exhausted. A failed connection surfaces its error
//! upward and the next command starts again from `Unconnected`. There is
//! exactly one reconnect attempt per command, never an unbounded loop.

use vstd::prelude::*;

verus! {

/// Where a backend connection stands.
#[derive(Clone, Copy, Debug, PartialEq, Eq, Structural)]
pub enum ConnPhase {
    Unconnected,
    Connected,
    Reconnecting,
    Failed,
}

/// What the transport just reported.
#[derive(Clone, Copy, Debug, PartialEq, Eq, Structural)]
pub enum ConnEvent {
    ConnectOk,
    ConnectErr,
    SendOk,
    SendErr,
}

/// One transition of the connection lifecycle.
pub open spec fn spec_conn_step(p: ConnPhase, e: ConnEvent) -> ConnPhase {
    match (p, e) {
        (ConnPhase::Unconnected, ConnEvent::ConnectOk) => ConnPhase::Connected,
        (ConnPhase::Unconnected, ConnEvent::ConnectErr) => ConnPhase::Failed,
        (ConnPhase::Connected, ConnEvent::SendOk) => ConnPhase::Connected,
        (ConnPhase::Connected, ConnEvent::SendErr) => ConnPhase::Reconnecting,
        (ConnPhase::Reconnecting, ConnEvent::ConnectOk) => ConnPhase::Reconnecting,
        (ConnPhase::Reconnecting, ConnEvent::ConnectErr) => ConnPhase::Failed,
        (ConnPhase::Connected, ConnEvent::ConnectOk) => ConnPhase::Connected,
        (ConnPhase::Connected, ConnEvent::ConnectErr) => ConnPhase::Failed,
        (ConnPhase::Reconnecting, ConnEvent::SendOk) => ConnPhase::Connected,
        (ConnPhase::Reconnecting, ConnEvent::SendErr) => ConnPhase::Failed,
        (ConnPhase::Failed, _) => ConnPhase::Unconnected,
        (ConnPhase::Unconnected, _) => ConnPhase::Unconnected,
    }
}

/// One transition of the connection lifecycle.
pub fn conn_step(p: ConnPhase, e: ConnEvent) -> (r: ConnPhase)
    ensures
        r == spec_conn_step(p, e),
{
    match (p, e) {
        (ConnPhase::Unconnected, ConnEvent::ConnectOk) => ConnPhase::Connected,
        (ConnPhase::Unconnected, ConnEvent::ConnectErr) => ConnPhase::Failed,
        (ConnPhase::Connected, ConnEvent::SendOk) => ConnPhase::Connected,
        (ConnPhase::Connected, ConnEvent::SendErr) => ConnPhase::Reconnecting,
        (ConnPhase::Reconnecting, ConnEvent::ConnectOk) => ConnPhase::Reconnecting,
        (ConnPhase::Reconnecting, ConnEvent::ConnectErr) => ConnPhase::Failed,
        (ConnPhase::Connected, ConnEvent::ConnectOk) => ConnPhase::Connected,
        (ConnPhase::Connected, ConnEvent::ConnectErr) => ConnPhase::Failed,
        (ConnPhase::Reconnecting, ConnEvent::SendOk) => ConnPhase::Connected,
        (ConnPhase::Reconnecting, ConnEvent::SendErr) => ConnPhase::Failed,
        (ConnPhase::Failed, _) => ConnPhase::Unconnected,
        (ConnPhase::Unconnected, _) => ConnPhase::Unconnected,
    }
}

/// Run one command's worth of lifecycle transitions, reporting whether
/// the command succeeded and where the connection ends up.
pub fn command_phase(first_ok: bool, reconnect_ok: bool, retry_ok: bool) -> (r: (bool, ConnPhase))
    ensures
        first_ok ==> r == (true, ConnPhase::Connected),
        !first_ok && reconnect_ok && retry_ok ==> r == (true, ConnPhase::Connected),
        !first_ok && reconnect_ok && !retry_ok ==> r == (false, ConnPhase::Failed),
        !first_ok && !reconnect_ok ==> r == (false, ConnPhase::Failed),
        r.0 == (first_ok || (reconnect_ok && retry_ok)),
{
    let mut p = ConnPhase::Connected;
    if first_ok {
        p = conn_step(p, ConnEvent::SendOk);
        return (true, p);
    }
    p = conn_step(p, ConnEvent::SendErr);
    if !reconnect_ok {
        p = conn_step(p, ConnEvent::ConnectErr);
        return (false, p);
    }
    p = conn_step(p, ConnEvent::ConnectOk);
    if retry_ok {
        p = conn_step(p, ConnEvent::SendOk);
        (true, p)
    } else {
        p = conn_step(p, ConnEvent::SendErr);
        (false, p)
    }
}

/// The reconnect-once policy in one statement: a transport failure sends
/// a connected backend through exactly one reconnect attempt; the command
/// succeeds if and only if the first send succeeded, or the reconnect and
/// the single retry both did.
pub proof fn lemma_reconnect_once()
    ensures
        spec_conn_step(ConnPhase::Connected, ConnEvent::SendErr) == ConnPhase::Reconnecting,
        spec_conn_step(ConnPhase::Reconnecting, ConnEvent::SendErr) == ConnPhase::Failed,
        spec_conn_step(ConnPhase::Failed, ConnEvent::ConnectOk) == ConnPhase::Unconnected,
{
}

} // verus!
