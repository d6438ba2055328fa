//! The daemon client's state and the reading of its replies. Connecting,
//! writing and reading the socket are the caller's.

use vstd::prelude::*;
use crate::json::JsonValue;
use crate::protocol::{RpcResponse, socket_path_spec, resolve_socket_path};
use crate::text::{concat3, i64_to_decimal, signed_decimal, decimal, u64_to_decimal};

verus! {

/// Seconds a call waits for its reply.
pub const CALL_TIMEOUT_SECS: u64 = 30;

/// Client of the daemon's socket.
#[derive(Debug)]
pub struct IpcClient {
    socket_path: String,
}

/// Optional text as an optional sequence.
pub open spec fn opt_str(o: Option<&str>) -> Option<Seq<char>> {
    match o {
        Some(s) => Some(s@),
        None => None,
    }
}

/// Error text for a reply that carries an RPC error.
pub open spec fn rpc_error_text(method: Seq<char>, message: Seq<char>, code: i64) -> Seq<char> {
    "RPC error "@ + method + ": "@ + message + " (code "@ + signed_decimal(code as int) + ")"@
}

/// Error text for a reply that carries neither a result nor an error.
pub open spec fn empty_reply_text() -> Seq<char> {
    "RPC response missing both result and error"@
}

/// Error text for a call that got no reply in time.
pub open spec fn timeout_text() -> Seq<char> {
    "RPC call timed out after "@ + decimal(CALL_TIMEOUT_SECS as nat) + "s"@
}

impl IpcClient {
    /// The socket path the client talks to.
    pub closed spec fn path(&self) -> Seq<char> {
        self.socket_path@
    }

    /// A client for the default socket, resolved from the values of
    /// `HYPERMESH_SOCK`, `XDG_RUNTIME_DIR` and the home directory: the
    /// client `with_path` gives for `resolve_socket_path` of those values.
    pub fn new(
        hypermesh_sock: Option<&str>,
        xdg_runtime_dir: Option<&str>,
        home_dir: Option<&str>,
    ) -> (r: IpcClient)
        ensures
            r.path() == socket_path_spec(
                opt_str(hypermesh_sock),
                opt_str(xdg_runtime_dir),
                opt_str(home_dir),
            ),
    {
        IpcClient::with_path(resolve_socket_path(hypermesh_sock, xdg_runtime_dir, home_dir))
    }

    /// A client for `socket_path`.
    pub fn with_path(socket_path: String) -> (r: IpcClient)
        ensures
            r.path() == socket_path@,
    {
        IpcClient { socket_path }
    }

    /// The socket path.
    pub fn socket_path(&self) -> (r: &str)
        ensures
            r@ == self.path(),
    {
        self.socket_path.as_str()
    }

    /// The result of a reply to a call of `method`: an RPC error becomes an
    /// error naming the method, message and code; a reply with neither a
    /// result nor an error is an error too.
    pub fn call_ok_result(method: &str, response: RpcResponse) -> (r: Result<JsonValue, String>)
        ensures
            match response.error {
                Some(e) => r matches Err(t) && t@ == rpc_error_text(method@, e.message@, e.code),
                None => match response.result {
                    Some(v) => r matches Ok(out) && out@ == v@,
                    None => r matches Err(t) && t@ == empty_reply_text(),
                },
            },
    {
        match response.error {
            Some(e) => {
                let head = concat3("RPC error ", method, ": ");
                let mid = concat3(head.as_str(), e.message.as_str(), " (code ");
                let code = i64_to_decimal(e.code);
                let text = concat3(mid.as_str(), code.as_str(), ")");
                proof {
                    reveal_strlit("RPC error ");
                    reveal_strlit(": ");
                    reveal_strlit(" (code ");
                    reveal_strlit(")");
                }
                Err(text)
            },
            None => match response.result {
                Some(v) => Ok(v),
                None => {
                    proof {
                        reveal_strlit("RPC response missing both result and error");
                    }
                    Err(String::from_str("RPC response missing both result and error"))
                },
            },
        }
    }

    /// The error reported when no reply came within the call timeout.
    pub fn timeout_error() -> (r: String)
        ensures
            r@ == timeout_text(),
    {
        let secs = u64_to_decimal(CALL_TIMEOUT_SECS);
        proof {
            reveal_strlit("RPC call timed out after ");
            reveal_strlit("s");
        }
        concat3("RPC call timed out after ", secs.as_str(), "s")
    }
}

} // verus!
