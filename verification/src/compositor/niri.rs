//! The Niri backend adapter: a lazily connected IPC session over which
//! requests and actions can be sent, with the reconnect-once policy of
//! `conn`. Niri's IPC exposes no generic setters for the input settings
//! this pipeline carries, so every capability method falls through to the
//! default "report success, change nothing" behaviour: a documented
//! capability gap, not a mis-applied setting.

use vstd::prelude::*;

use niri_ipc::Action;
use niri_ipc::Request;
use niri_ipc::Response;
use niri_ipc::socket::Socket;

use crate::compositor::Compositor;
use crate::compositor::CompositorResult;
use crate::compositor::conn::ConnEvent;
use crate::compositor::conn::ConnPhase;
use crate::compositor::conn::spec_conn_step;
use crate::compositor::input::Input;
use crate::compositor::input::InputResult;
use crate::error::Error;
use crate::identifier::EnvSnapshot;

verus! {

/// Niri's IPC socket type, from the niri-ipc crate.
#[verifier::external_type_specification]
#[verifier::external_body]
pub struct ExNiriSocket(Socket);

/// Niri's request type, from the niri-ipc crate.
#[verifier::external_type_specification]
#[verifier::external_body]
pub struct ExNiriRequest(Request);

/// Niri's response type, from the niri-ipc crate.
#[verifier::external_type_specification]
#[verifier::external_body]
pub struct ExNiriResponse(Response);

/// Niri's action type, from the niri-ipc crate.
#[verifier::external_type_specification]
#[verifier::external_body]
pub struct ExNiriAction(Action);

/// Relies on niri-ipc's `Socket::connect`: connects to the socket named
/// by the environment, or reports why it could not.
#[verifier::external_body]
fn niri_connect() -> (r: Result<Socket, String>) {
    Socket::connect().map_err(|e| e.to_string())
}

/// Relies on niri-ipc's `Socket::send`: one request, one reply. The outer
/// error is a transport failure; the inner one is a failure niri itself
/// reports. Serializing a request built from niri-ipc's own types does
/// not fail.
#[verifier::external_body]
fn niri_send(socket: &mut Socket, request: Request) -> (r: Result<Result<Response, String>, String>) {
    match socket.send(request) {
        Ok(reply) => Ok(reply),
        Err(e) => Err(e.to_string()),
    }
}

/// Relies on niri-ipc's derived `Clone` for `Request`: a structural copy.
#[verifier::external_body]
fn clone_request(request: &Request) -> (r: Request)
    ensures
        r == *request,
{
    request.clone()
}

/// Wraps an action as an action request.
#[verifier::external_body]
fn request_of_action(action: Action) -> (r: Request) {
    Request::Action(action)
}

/// The Niri adapter: a lazily connected IPC session.
pub struct Niri {
    pub socket: Option<Socket>,
}

impl Niri {
    /// A fresh, unconnected adapter.
    pub fn new() -> (r: Self)
        ensures
            r.socket is None,
    {
        Niri { socket: None }
    }

    /// Send one request over the socket, connecting lazily, and on a
    /// transport failure reconnecting and retrying exactly once. A reply
    /// niri itself rejects is surfaced as a response error without a
    /// retry; after a transport error the connection is dropped, so the
    /// next request starts again from the unconnected state.
    pub fn request_socket(&mut self, request: Request) -> (r: Result<Response, Error>)
        ensures
            r is Ok ==> final(self).socket is Some,
            r matches Err(e) ==> (e is IpcConnection || e is IpcCommand || e is IpcResponse),
    {
        // Each step below is one transition of the lifecycle machine in
        // `conn`; the ghost phase is held to `spec_conn_step` throughout.
        let ghost mut phase: ConnPhase = if self.socket is Some {
            ConnPhase::Connected
        } else {
            ConnPhase::Unconnected
        };
        let mut s: Socket = match self.socket.take() {
            Some(s) => s,
            None => match niri_connect() {
                Ok(s) => {
                    proof {
                        phase = spec_conn_step(phase, ConnEvent::ConnectOk);
                        assert(phase is Connected);
                    }
                    s
                },
                Err(m) => {
                    proof {
                        phase = spec_conn_step(phase, ConnEvent::ConnectErr);
                        assert(phase is Failed);
                    }
                    return Err(Error::ipc_connection("Niri", m, None));
                },
            },
        };
        let retry = clone_request(&request);
        match niri_send(&mut s, request) {
            Ok(reply) => {
                proof {
                    phase = spec_conn_step(phase, ConnEvent::SendOk);
                    assert(phase is Connected);
                }
                self.socket = Some(s);
                match reply {
                    Ok(resp) => Ok(resp),
                    Err(m) => Err(
                        Error::IpcResponse {
                            compositor: "Niri",
                            command: "request".to_owned(),
                            response: m,
                        },
                    ),
                }
            },
            Err(_m) => {
                // Transport failure: exactly one reconnect and one retry.
                proof {
                    phase = spec_conn_step(phase, ConnEvent::SendErr);
                    assert(phase is Reconnecting);
                }
                match niri_connect() {
                    Ok(mut s2) => {
                        proof {
                            phase = spec_conn_step(phase, ConnEvent::ConnectOk);
                            assert(phase is Reconnecting);
                        }
                        match niri_send(&mut s2, retry) {
                            Ok(reply) => {
                                proof {
                                    phase = spec_conn_step(phase, ConnEvent::SendOk);
                                    assert(phase is Connected);
                                }
                                self.socket = Some(s2);
                                match reply {
                                    Ok(resp) => Ok(resp),
                                    Err(m) => Err(
                                        Error::IpcResponse {
                                            compositor: "Niri",
                                            command: "request".to_owned(),
                                            response: m,
                                        },
                                    ),
                                }
                            },
                            Err(m2) => {
                                proof {
                                    phase = spec_conn_step(phase, ConnEvent::SendErr);
                                    assert(phase is Failed);
                                }
                                self.socket = None;
                                Err(Error::ipc_command("Niri", "request".to_owned(), Some(m2)))
                            },
                        }
                    },
                    Err(m) => {
                        proof {
                            phase = spec_conn_step(phase, ConnEvent::ConnectErr);
                            assert(phase is Failed);
                        }
                        self.socket = None;
                        Err(Error::ipc_connection("Niri", m, None))
                    },
                }
            },
        }
    }

    /// Perform one action: send it as an action request and report
    /// whether niri accepted it.
    pub fn send_action(&mut self, action: Action) -> (r: InputResult)
        ensures
            r is Ok ==> final(self).socket is Some,
            r matches Err(e) ==> (e is IpcConnection || e is IpcCommand || e is IpcResponse),
    {
        let request = request_of_action(action);
        match self.request_socket(request) {
            Ok(_resp) => Ok(()),
            Err(e) => Err(e),
        }
    }
}

impl Compositor for Niri {
    /// Connect to the niri socket.
    fn init(&mut self, env: &EnvSnapshot) -> (r: CompositorResult)
        ensures
            r is Ok ==> final(self).socket is Some,
    {
        match niri_connect() {
            Ok(s) => {
                self.socket = Some(s);
                Ok(())
            },
            Err(m) => Err(Error::ipc_connection("Niri", m, None)),
        }
    }

    fn name(&self) -> &'static str {
        "Niri"
    }

    fn is_running(&self, env: &EnvSnapshot) -> (r: bool)
        ensures
            r == (env.niri_socket is Some),
    {
        env.niri_socket.is_some()
    }
}

/// Every capability falls through to the default: niri's IPC exposes no
/// generic input setters, so settings degrade to silent success rather
/// than failing the batch.
impl Input for Niri {

}

} // verus!
