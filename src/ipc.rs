//! Requests and answers of the local control socket (one JSON value per
//! line; the encoding is done by the caller).

use vstd::prelude::*;
use crate::state::{ControlCommand, WifiStateSnapshot};

verus! {

/// A request from a local client.
#[derive(Debug, Clone)]
pub enum IpcRequest {
    GetStatus,
    Scan,
    Connect { ssid: String, password: String, save: bool },
    Shutdown,
}

/// The daemon's answer.
#[derive(Debug, Clone)]
pub enum IpcResponse {
    Status(WifiStateSnapshot),
    /// The request was taken up.
    Acknowledged,
    Error(String),
}

impl IpcRequest {
    /// The command a request queues; a status request queues none.
    pub fn into_command(self) -> (r: Option<ControlCommand>)
        ensures
            match self {
                IpcRequest::GetStatus => r is None,
                IpcRequest::Scan => r matches Some(ControlCommand::Scan),
                IpcRequest::Connect { ssid, password, save } => r matches Some(ControlCommand::Connect { ssid: s, password: p, save: v })
                    && s == ssid && p == password && v == save,
                IpcRequest::Shutdown => r matches Some(ControlCommand::Shutdown),
            },
    {
        match self {
            IpcRequest::GetStatus => None,
            IpcRequest::Scan => Some(ControlCommand::Scan),
            IpcRequest::Connect { ssid, password, save } => Some(ControlCommand::Connect { ssid, password, save }),
            IpcRequest::Shutdown => Some(ControlCommand::Shutdown),
        }
    }
}

/// Answer to a line that is no valid request; `reason` is the decoder's message.
pub fn invalid_request(reason: &str) -> (r: IpcResponse)
    ensures
        r matches IpcResponse::Error(m) && m@ == "Invalid request: "@ + reason@,
{
    let mut m = String::from_str("Invalid request: ");
    m.append(reason);
    IpcResponse::Error(m)
}

fn daemon_error(e: &str) -> (r: String)
    ensures
        r@ == "Daemon error: "@ + e@,
{
    let mut m = String::from_str("Daemon error: ");
    m.append(e);
    m
}

/// The snapshot carried by the answer to a status request.
pub fn status_from_response(resp: IpcResponse) -> (r: Result<WifiStateSnapshot, String>)
    ensures
        match resp {
            IpcResponse::Status(s) => r == Ok::<WifiStateSnapshot, String>(s),
            IpcResponse::Error(e) => r matches Err(m) && m@ == "Daemon error: "@ + e@,
            IpcResponse::Acknowledged => r matches Err(m) && m@ == "Unexpected response"@,
        },
{
    match resp {
        IpcResponse::Status(s) => Ok(s),
        IpcResponse::Error(e) => Err(daemon_error(e.as_str())),
        IpcResponse::Acknowledged => Err(String::from_str("Unexpected response")),
    }
}

/// Whether the answer to a connect request acknowledges it.
pub fn ack_from_response(resp: IpcResponse) -> (r: Result<(), String>)
    ensures
        match resp {
            IpcResponse::Acknowledged => r is Ok,
            IpcResponse::Error(e) => r matches Err(m) && m@ == "Daemon error: "@ + e@,
            IpcResponse::Status(_) => r matches Err(m) && m@ == "Unexpected response"@,
        },
{
    match resp {
        IpcResponse::Acknowledged => Ok(()),
        IpcResponse::Error(e) => Err(daemon_error(e.as_str())),
        IpcResponse::Status(_) => Err(String::from_str("Unexpected response")),
    }
}

} // verus!
