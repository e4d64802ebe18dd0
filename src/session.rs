//! Starting a debug session. The exchange runs in steps: check that the
//! workspace is ready, read the port file that the proxy published, send the
//! `debug-adapter-start` command, and read the endpoint from the answer. Each
//! step is a decision from what the previous one brought back to what to do
//! next; the caller performs the file read and the request.

use vstd::prelude::*;

use crate::debugger::Debugger;
use crate::error::DapError;
use crate::hex::{hex_of_text, string_to_hex};
use crate::port::{get_port_from_uri, parse_port_file, port_of_file, port_of_uri};
use crate::registry::SessionRegistry;

verus! {

/// The language-server request that carries a command.
pub const LSP_REQUEST: &'static str = "workspace/executeCommand";

/// The command that asks the server to start a debug adapter.
pub const DAP_START_COMMAND: &'static str = "debug-adapter-start";

/// The directory that holds the port files.
pub const PROXY_FOLDER: &'static str = "proxy";

/// The answer to a request: its result, or the error the server reported.
pub enum RemoteEnvelope<T> {
    Success { result: T },
    Error { code: i64, message: String, data: Option<String> },
}

/// The result of the `debug-adapter-start` command.
pub struct DapStartResult {
    pub name: String,
    pub uri: String,
}

/// Where to connect to the debug adapter; unset fields are left to the
/// caller's defaults.
#[derive(Clone, Copy, Debug, PartialEq, Eq)]
pub struct TcpEndpoint {
    pub host: Option<u32>,
    pub port: Option<u16>,
    pub timeout: Option<u64>,
}

/// What the lookup of the port file found.
pub enum PortFileRead {
    /// No regular file of that name exists.
    Missing,
    /// The file exists but its contents could not be read as text.
    Unreadable,
    /// The file's contents.
    Contents(String),
}

/// What to do next in the start exchange.
pub enum StartAction {
    /// Read the file of this name in the proxy directory.
    ReadPortFile { file_name: String },
    /// Send `method` with `command`, and the task definition as its argument,
    /// to the proxy listening on `localhost` at `port`.
    Post { port: u16, method: String, command: String },
    /// Connect to the debug adapter.
    Connect(TcpEndpoint),
    /// Give up with this error.
    Fail(DapError),
}

/// The value carried by a successful answer, or the reported error.
pub open spec fn envelope_result<T>(env: RemoteEnvelope<T>) -> Result<T, DapError> {
    match env {
        RemoteEnvelope::Success { result } => Ok(result),
        RemoteEnvelope::Error { code, message, data } => Err(
            DapError::RemoteError { code, message, data },
        ),
    }
}

/// The endpoint of a debug adapter listening at `port`.
pub open spec fn endpoint_at(port: u16) -> TcpEndpoint {
    TcpEndpoint { host: None, port: Some(port), timeout: None }
}

/// Unwraps an answer: its result, or the server's error.
pub fn unwrap_envelope<T>(env: RemoteEnvelope<T>) -> (r: Result<T, DapError>)
    ensures
        r == envelope_result(env),
{
    match env {
        RemoteEnvelope::Success { result } => Ok(result),
        RemoteEnvelope::Error { code, message, data } => Err(
            DapError::RemoteError { code, message, data },
        ),
    }
}

impl Debugger {
    /// First step: a workspace not marked ready fails at once; otherwise the
    /// port file, named by the hex encoding of the workspace path, is to be
    /// read. The port is looked up anew for every session, since the server
    /// may have been restarted.
    pub fn start(&self, registry: &SessionRegistry, workspace: &str) -> (r: StartAction)
        ensures
            !registry@.contains(workspace@) ==> r == StartAction::Fail(
                DapError::BackendNotInitialized,
            ),
            registry@.contains(workspace@) ==> (r matches StartAction::ReadPortFile { file_name }
                && file_name@ == hex_of_text(workspace@)),
    {
        if !registry.is_ready(workspace) {
            return StartAction::Fail(DapError::BackendNotInitialized);
        }
        StartAction::ReadPortFile { file_name: string_to_hex(workspace) }
    }

    /// Second step: a missing port file, or one that does not hold a port
    /// number, fails; otherwise the start command is to be sent to that port.
    pub fn port_file_read(&self, read: PortFileRead) -> (r: StartAction)
        ensures
            read is Missing ==> r == StartAction::Fail(DapError::PortFileMissing),
            read is Unreadable ==> r == StartAction::Fail(DapError::PortFileCorrupt),
            read matches PortFileRead::Contents(c) ==> match port_of_file(c@) {
                Ok(p) => r matches StartAction::Post { port, method, command } && port == p
                    && method@ == LSP_REQUEST@ && command@ == DAP_START_COMMAND@,
                Err(e) => r == StartAction::Fail(e),
            },
    {
        match read {
            PortFileRead::Missing => StartAction::Fail(DapError::PortFileMissing),
            PortFileRead::Unreadable => StartAction::Fail(DapError::PortFileCorrupt),
            PortFileRead::Contents(c) => match parse_port_file(c.as_str()) {
                Ok(port) => StartAction::Post {
                    port,
                    method: String::from_str(LSP_REQUEST),
                    command: String::from_str(DAP_START_COMMAND),
                },
                Err(e) => StartAction::Fail(e),
            },
        }
    }

    /// Last step: an answer that could not be had or read fails with a
    /// transport error, an error answer with the server's error; a result
    /// gives the endpoint at the port that ends its URI.
    pub fn reply_received(&self, reply: Option<RemoteEnvelope<DapStartResult>>) -> (r:
        StartAction)
        ensures
            reply is None ==> r == StartAction::Fail(DapError::TransportError),
            reply matches Some(env) ==> match envelope_result(env) {
                Ok(res) => match port_of_uri(res.uri@) {
                    Ok(p) => r == StartAction::Connect(endpoint_at(p)),
                    Err(e) => r == StartAction::Fail(e),
                },
                Err(e) => r == StartAction::Fail(e),
            },
    {
        match reply {
            None => StartAction::Fail(DapError::TransportError),
            Some(env) => match unwrap_envelope(env) {
                Ok(res) => match get_port_from_uri(res.uri.as_str()) {
                    Ok(port) => StartAction::Connect(
                        TcpEndpoint { host: None, port: Some(port), timeout: None },
                    ),
                    Err(e) => StartAction::Fail(e),
                },
                Err(e) => StartAction::Fail(e),
            },
        }
    }
}

} // verus!
