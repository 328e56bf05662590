//! The error taxonomy of the client, shared by every layer.

use vstd::prelude::*;

verus! {

/// Every way a client operation can fail.
///
/// * `InvalidAddress` — the endpoint text is not `host:port` with a literal
///   dotted-quad IPv4 host and a decimal 16-bit port.
/// * `ConnectFailed` — the remote refused, timed out or was unreachable while
///   the connection was being established.
/// * `ConnectionClosed` — an operation was attempted after the close
///   handshake completed; the client is not reusable.
/// * `IoError` — an underlying transport write or read failed.
/// * `TruncatedHeader` — the stream ended before a full 4-byte length prefix
///   was read.
/// * `TruncatedPayload` — the stream ended before the announced payload
///   length was read.
/// * `SetFailed` / `GetFailed` / `DeleteFailed` / `ExpiresInFailed` —
///   command-scoped failures signalled by the server's response; the
///   connection stays usable.
/// * `ProtocolViolation` — the server broke the protocol contract (a
///   non-numeric success response to `EXIN`); not recoverable.
#[derive(Clone, Copy, Debug, PartialEq, Eq, Structural)]
pub enum KeyzError {
    InvalidAddress,
    ConnectFailed,
    ConnectionClosed,
    IoError,
    TruncatedHeader,
    TruncatedPayload,
    SetFailed,
    GetFailed,
    DeleteFailed,
    ExpiresInFailed,
    ProtocolViolation,
}

} // verus!
