//! JSON-RPC 2.0 protocol types and the IPC protocol-version rules.
//!
//! Wire protocol: newline-delimited JSON over a Unix domain socket.

use vstd::prelude::*;
use crate::json::{JsonValue, JsonModel};
use crate::text::{before_sep, concat3, lemma_split_acc_nonempty, parse_u64, parse_u64_spec, split_on};

verus! {

/// JSON-RPC 2.0: method not found.
pub const METHOD_NOT_FOUND: i64 = -32601;

/// JSON-RPC 2.0: invalid params.
pub const INVALID_PARAMS: i64 = -32602;

/// JSON-RPC 2.0: internal error.
pub const INTERNAL_ERROR: i64 = -32603;

/// The daemon is not running.
pub const DAEMON_NOT_RUNNING: i64 = -32000;

/// A capability token was missing, invalid, or of insufficient scope.
pub const CAPABILITY_DENIED: i64 = -32004;

/// The caller's IPC protocol major version differs from the daemon's.
pub const PROTOCOL_VERSION_MISMATCH: i64 = -32100;

/// JSON-RPC version string.
pub open spec fn jsonrpc_version() -> Seq<char> {
    "2.0"@
}

/// The daemon's IPC protocol version (the package version).
pub open spec fn ipc_protocol_version() -> Seq<char> {
    "0.1.0"@
}

/// `"2.0"` as an owned string.
pub fn jsonrpc_version_string() -> (r: String)
    ensures
        r@ == jsonrpc_version(),
{
    String::from_str("2.0")
}

/// The daemon's IPC protocol version as an owned string.
pub fn ipc_protocol_version_string() -> (r: String)
    ensures
        r@ == ipc_protocol_version(),
{
    String::from_str("0.1.0")
}

/// Major component of a semver string: the text before the first `.` of the
/// text before the first `-`, parsed as a `u64`.
pub open spec fn major_version_spec(version: Seq<char>) -> Option<u64> {
    parse_u64_spec(before_sep(before_sep(version, '-'), '.'))
}

/// Parse the major-version component of a semver string, `None` when it is
/// not a number.
pub fn major_version(version: &str) -> (r: Option<u64>)
    ensures
        r == major_version_spec(version@),
{
    proof {
        lemma_split_acc_nonempty(version@, '-', Seq::empty());
    }
    let dash_parts = split_on(version, '-');
    let core = dash_parts[0].as_str();
    proof {
        lemma_split_acc_nonempty(core@, '.', Seq::empty());
    }
    let dot_parts = split_on(core, '.');
    parse_u64(dot_parts[0].as_str())
}

/// The major version with unparseable versions read as 0.
pub open spec fn major_or_zero(version: Seq<char>) -> u64 {
    match major_version_spec(version) {
        Some(m) => m,
        None => 0,
    }
}

/// True when both versions share the major component (unparseable counts as 0).
pub fn protocol_versions_compatible(client_version: &str, daemon_version: &str) -> (r: bool)
    ensures
        r == (major_or_zero(client_version@) == major_or_zero(daemon_version@)),
{
    let a = match major_version(client_version) {
        Some(m) => m,
        None => 0,
    };
    let b = match major_version(daemon_version) {
        Some(m) => m,
        None => 0,
    };
    a == b
}

/// JSON-RPC 2.0 error object.
#[derive(Clone, Debug)]
pub struct RpcError {
    pub code: i64,
    pub message: String,
    pub data: Option<JsonValue>,
}

/// JSON-RPC 2.0 request.
#[derive(Clone, Debug)]
pub struct RpcRequest {
    pub jsonrpc: String,
    pub method: String,
    pub params: JsonValue,
    pub id: u64,
    /// Caller's IPC protocol version; absent for old clients.
    pub protocol_version: Option<String>,
    /// Base64 capability token, when the caller has one.
    pub capability_token: Option<String>,
}

/// JSON-RPC 2.0 response.
#[derive(Clone, Debug)]
pub struct RpcResponse {
    pub jsonrpc: String,
    pub result: Option<JsonValue>,
    pub error: Option<RpcError>,
    pub id: u64,
    /// Daemon's IPC protocol version.
    pub protocol_version: Option<String>,
}

/// An error with `code` and `message` and no data.
pub open spec fn is_error(e: RpcError, code: i64, message: Seq<char>) -> bool {
    e.code == code && e.message@ == message && e.data is None
}

/// The string inside an optional string.
pub open spec fn opt_view(o: Option<String>) -> Option<Seq<char>> {
    match o {
        Some(s) => Some(s@),
        None => None,
    }
}

impl RpcError {
    /// An error object with no data.
    pub fn new(code: i64, message: String) -> (r: RpcError)
        ensures
            r.code == code,
            r.message@ == message@,
            r.data is None,
    {
        RpcError { code, message, data: None }
    }
}

impl RpcRequest {
    /// A request carrying this build's protocol version and no token.
    /// Callers supply the request id (clients number their requests).
    pub fn new(method: &str, params: JsonValue, id: u64) -> (r: RpcRequest)
        ensures
            r.jsonrpc@ == jsonrpc_version(),
            r.method@ == method@,
            r.params@ == params@,
            r.id == id,
            opt_view(r.protocol_version) == Some(ipc_protocol_version()),
            r.capability_token is None,
    {
        RpcRequest {
            jsonrpc: jsonrpc_version_string(),
            method: String::from_str(method),
            params,
            id,
            protocol_version: Some(ipc_protocol_version_string()),
            capability_token: None,
        }
    }

    /// A request that also carries a base64 capability token.
    pub fn new_with_token(method: &str, params: JsonValue, capability_token: String, id: u64) -> (r:
        RpcRequest)
        ensures
            r.jsonrpc@ == jsonrpc_version(),
            r.method@ == method@,
            r.params@ == params@,
            r.id == id,
            opt_view(r.protocol_version) == Some(ipc_protocol_version()),
            opt_view(r.capability_token) == Some(capability_token@),
    {
        RpcRequest {
            jsonrpc: jsonrpc_version_string(),
            method: String::from_str(method),
            params,
            id,
            protocol_version: Some(ipc_protocol_version_string()),
            capability_token: Some(capability_token),
        }
    }

    /// A request without a protocol version, as sent by old clients.
    pub fn new_without_protocol_version(method: &str, params: JsonValue, id: u64) -> (r: RpcRequest)
        ensures
            r.jsonrpc@ == jsonrpc_version(),
            r.method@ == method@,
            r.params@ == params@,
            r.id == id,
            r.protocol_version is None,
            r.capability_token is None,
    {
        RpcRequest {
            jsonrpc: jsonrpc_version_string(),
            method: String::from_str(method),
            params,
            id,
            protocol_version: None,
            capability_token: None,
        }
    }
}

/// A response answering request `id` with `result`.
pub open spec fn is_success(r: RpcResponse, id: u64, result: JsonModel) -> bool {
    &&& r.jsonrpc@ == jsonrpc_version()
    &&& r.id == id
    &&& r.error is None
    &&& r.result matches Some(v) && v@ == result
    &&& opt_view(r.protocol_version) == Some(ipc_protocol_version())
}

/// A response answering request `id` with an error of `code` and `message`.
pub open spec fn is_error_response(r: RpcResponse, id: u64, code: i64, message: Seq<char>) -> bool {
    &&& r.jsonrpc@ == jsonrpc_version()
    &&& r.id == id
    &&& r.result is None
    &&& r.error matches Some(e) && is_error(e, code, message)
    &&& opt_view(r.protocol_version) == Some(ipc_protocol_version())
}

impl RpcResponse {
    /// A success response.
    pub fn success(id: u64, result: JsonValue) -> (r: RpcResponse)
        ensures
            is_success(r, id, result@),
    {
        RpcResponse {
            jsonrpc: jsonrpc_version_string(),
            result: Some(result),
            error: None,
            id,
            protocol_version: Some(ipc_protocol_version_string()),
        }
    }

    /// An error response.
    pub fn error(id: u64, code: i64, message: String) -> (r: RpcResponse)
        ensures
            is_error_response(r, id, code, message@),
    {
        RpcResponse {
            jsonrpc: jsonrpc_version_string(),
            result: None,
            error: Some(RpcError { code, message, data: None }),
            id,
            protocol_version: Some(ipc_protocol_version_string()),
        }
    }

    /// An error response carrying an existing error object.
    pub fn from_error(id: u64, err: RpcError) -> (r: RpcResponse)
        ensures
            r.jsonrpc@ == jsonrpc_version(),
            r.id == id,
            r.result is None,
            r.error == Some(err),
            opt_view(r.protocol_version) == Some(ipc_protocol_version()),
    {
        RpcResponse {
            jsonrpc: jsonrpc_version_string(),
            result: None,
            error: Some(err),
            id,
            protocol_version: Some(ipc_protocol_version_string()),
        }
    }
}

/// The message sent to a client whose major version differs from the daemon's.
pub open spec fn version_mismatch_message(client: Seq<char>) -> Seq<char> {
    "incompatible CLI protocol version: client "@ + client + " vs daemon "@
        + ipc_protocol_version()
        + " (major versions differ; run `hypermesh update` to upgrade the client)"@
}

/// Whether the daemon refuses a request for its protocol version: only a
/// request that states a version of another major is refused.
pub open spec fn version_refused(request: RpcRequest) -> bool {
    match request.protocol_version {
        Some(v) => major_or_zero(v@) != major_or_zero(ipc_protocol_version()),
        None => false,
    }
}

/// The daemon's version gate: `Some(response)` refuses the request,
/// `None` lets it through to dispatch.
pub fn version_gate(request: &RpcRequest) -> (r: Option<RpcResponse>)
    ensures
        r is Some <==> version_refused(*request),
        r matches Some(resp) ==> is_error_response(
            resp,
            request.id,
            PROTOCOL_VERSION_MISMATCH,
            version_mismatch_message(request.protocol_version->Some_0@),
        ),
{
    match &request.protocol_version {
        Some(client_v) => {
            let daemon_v = ipc_protocol_version_string();
            if !protocol_versions_compatible(client_v.as_str(), daemon_v.as_str()) {
                let head = concat3(
                    "incompatible CLI protocol version: client ",
                    client_v.as_str(),
                    " vs daemon ",
                );
                let msg = concat3(
                    head.as_str(),
                    daemon_v.as_str(),
                    " (major versions differ; run `hypermesh update` to upgrade the client)",
                );
                proof {
                    reveal_strlit("incompatible CLI protocol version: client ");
                    reveal_strlit(" vs daemon ");
                    reveal_strlit(
                        " (major versions differ; run `hypermesh update` to upgrade the client)",
                    );
                }
                Some(RpcResponse::error(request.id, PROTOCOL_VERSION_MISMATCH, msg))
            } else {
                None
            }
        },
        None => None,
    }
}

/// The response to a line that is not a valid request: id 0, internal error,
/// `"parse error: "` followed by the parser's message.
pub fn parse_error_response(detail: &str) -> (r: RpcResponse)
    ensures
        is_error_response(r, 0, INTERNAL_ERROR, "parse error: "@ + detail@),
{
    let msg = crate::text::concat2("parse error: ", detail);
    proof {
        reveal_strlit("parse error: ");
    }
    RpcResponse::error(0, INTERNAL_ERROR, msg)
}

/// Name for the text of `PathBuf::from(base).join(component)`.
pub uninterp spec fn path_join_spec(base: Seq<char>, component: Seq<char>) -> Seq<char>;

/// Trusted wrapper for `Path::join`: the text of `base` joined with
/// `component`, given by name (separator and absolute-component rules are
/// std's and are not restated here).
#[verifier::external_body]
pub(crate) fn path_join(base: &str, component: &str) -> (r: String)
    ensures
        r@ == path_join_spec(base@, component@),
{
    std::path::Path::new(base).join(component).to_string_lossy().into_owned()
}

/// Name for the text of a path after `PathBuf::set_file_name(name)`.
pub uninterp spec fn path_with_file_name_spec(path: Seq<char>, name: Seq<char>) -> Seq<char>;

/// Trusted wrapper for `PathBuf::set_file_name`: the text of `path` with its
/// final component replaced by `name`, given by name.
#[verifier::external_body]
fn path_with_file_name(path: &str, name: &str) -> (r: String)
    ensures
        r@ == path_with_file_name_spec(path@, name@),
{
    let mut p = std::path::PathBuf::from(path);
    p.set_file_name(name);
    p.to_string_lossy().into_owned()
}

/// The daemon socket path from the environment: `$HYPERMESH_SOCK` when set,
/// else `$XDG_RUNTIME_DIR/hypermesh/ctl.sock`, else
/// `<home>/.hypermesh/ctl.sock` with `/tmp` standing in for a missing home.
pub open spec fn socket_path_spec(
    hypermesh_sock: Option<Seq<char>>,
    xdg_runtime_dir: Option<Seq<char>>,
    home_dir: Option<Seq<char>>,
) -> Seq<char> {
    match hypermesh_sock {
        Some(p) => p,
        None => match xdg_runtime_dir {
            Some(d) => path_join_spec(path_join_spec(d, "hypermesh"@), "ctl.sock"@),
            None => {
                let home = match home_dir {
                    Some(h) => h,
                    None => "/tmp"@,
                };
                path_join_spec(path_join_spec(home, ".hypermesh"@), "ctl.sock"@)
            },
        },
    }
}

/// Resolve the daemon socket path from the values of `HYPERMESH_SOCK`,
/// `XDG_RUNTIME_DIR` and the home directory.
pub fn resolve_socket_path(
    hypermesh_sock: Option<&str>,
    xdg_runtime_dir: Option<&str>,
    home_dir: Option<&str>,
) -> (r: String)
    ensures
        r@ == socket_path_spec(
            match hypermesh_sock { Some(s) => Some(s@), None => None },
            match xdg_runtime_dir { Some(s) => Some(s@), None => None },
            match home_dir { Some(s) => Some(s@), None => None },
        ),
{
    match hypermesh_sock {
        Some(p) => String::from_str(p),
        None => match xdg_runtime_dir {
            Some(d) => {
                let dir = path_join(d, "hypermesh");
                path_join(dir.as_str(), "ctl.sock")
            },
            None => {
                let home = match home_dir {
                    Some(h) => h,
                    None => "/tmp",
                };
                let dir = path_join(home, ".hypermesh");
                path_join(dir.as_str(), "ctl.sock")
            },
        },
    }
}

/// The PID file that sits beside the socket: the socket path (resolved from
/// the same environment values as `resolve_socket_path`) with its file name
/// replaced by `daemon.pid`.
pub fn pid_file_path(
    hypermesh_sock: Option<&str>,
    xdg_runtime_dir: Option<&str>,
    home_dir: Option<&str>,
) -> (r: String)
    ensures
        r@ == path_with_file_name_spec(
            socket_path_spec(
                match hypermesh_sock { Some(s) => Some(s@), None => None },
                match xdg_runtime_dir { Some(s) => Some(s@), None => None },
                match home_dir { Some(s) => Some(s@), None => None },
            ),
            "daemon.pid"@,
        ),
{
    let sock = resolve_socket_path(hypermesh_sock, xdg_runtime_dir, home_dir);
    path_with_file_name(sock.as_str(), "daemon.pid")
}

} // verus!
