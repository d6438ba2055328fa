//! Decisions of the socket server: whether a socket left on disk is stale,
//! and which lines of a connection carry requests. Binding, reading and
//! writing are the caller's; the version check of each request is
//! `protocol::version_gate`.

use vstd::prelude::*;
use crate::text::{concat2, parse_u64, parse_u64_spec, trim_ws, unicode_trim};

verus! {

/// What the pid file next to a leftover socket says.
#[derive(PartialEq, Eq, Structural, Clone, Copy, Debug)]
pub enum SocketOwner {
    /// No owner: the socket can be removed.
    Stale,
    /// Process `pid` claims the socket; it is stale only if that process is gone.
    CheckProcess(u32),
}

/// The pid a pid file names: its trimmed text as a `u32`, 0 when it is
/// not one.
pub open spec fn pid_of(text: Seq<char>) -> u32 {
    match parse_u64_spec(unicode_trim(text)) {
        Some(n) => if n <= u32::MAX {
            n as u32
        } else {
            0
        },
        None => 0,
    }
}

/// Who owns a leftover socket, from the pid file's text (`None` when
/// there is no pid file): no file or pid 0 means stale.
pub open spec fn socket_owner_spec(pid_file: Option<Seq<char>>) -> SocketOwner {
    match pid_file {
        None => SocketOwner::Stale,
        Some(t) => if pid_of(t) == 0 {
            SocketOwner::Stale
        } else {
            SocketOwner::CheckProcess(pid_of(t))
        },
    }
}

/// Who owns a leftover socket (see `socket_owner_spec`).
pub fn socket_owner(pid_file: Option<&str>) -> (r: SocketOwner)
    ensures
        r == socket_owner_spec(match pid_file { Some(t) => Some(t@), None => None }),
{
    match pid_file {
        None => SocketOwner::Stale,
        Some(text) => {
            let t = trim_ws(text);
            let pid: u32 = match parse_u64(t.as_str()) {
                Some(n) => if n <= u32::MAX as u64 {
                    n as u32
                } else {
                    0
                },
                None => 0,
            };
            if pid == 0 {
                SocketOwner::Stale
            } else {
                SocketOwner::CheckProcess(pid)
            }
        },
    }
}

/// Error text when a live process owns the socket.
pub fn socket_in_use_message(path: &str) -> (r: String)
    ensures
        r@ == "socket already exists and owning process is alive: "@ + path@,
{
    proof {
        reveal_strlit("socket already exists and owning process is alive: ");
    }
    concat2("socket already exists and owning process is alive: ", path)
}

/// The request text of a line read from a connection: the trimmed line,
/// or nothing for a blank line (which is skipped).
pub fn request_text(line: &str) -> (r: Option<String>)
    ensures
        match r {
            Some(t) => t@ == unicode_trim(line@) && t@.len() > 0,
            None => unicode_trim(line@).len() == 0,
        },
{
    let t = trim_ws(line);
    if t.as_str().is_empty() {
        None
    } else {
        Some(t)
    }
}

} // verus!
