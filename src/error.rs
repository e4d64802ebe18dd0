//! The ways in which a debug request can fail.

use vstd::prelude::*;

verus! {

/// Every failure is terminal for the request that produced it.
#[derive(Clone, Debug, PartialEq, Eq)]
pub enum DapError {
    /// The debug adapter named is not the one this extension serves.
    UnknownAdapter,
    /// The configuration has no `request` field.
    MalformedConfig,
    /// The `request` field is neither `"launch"` nor `"attach"`.
    UnsupportedRequestKind,
    /// The `request` field disagrees with the shape of the configuration.
    InvalidTaskDefinition,
    /// The language server has not been launched for the workspace.
    BackendNotInitialized,
    /// No port file has been published for the workspace.
    PortFileMissing,
    /// The port file does not hold a port number.
    PortFileCorrupt,
    /// The request could not be sent, or its answer could not be read.
    TransportError,
    /// The language server answered with an error.
    RemoteError { code: i64, message: String, data: Option<String> },
    /// The answer's URI has no `:` before a port.
    MalformedUri,
    /// The text after the URI's last `:` is not a port number.
    PortParseError,
}

} // verus!
