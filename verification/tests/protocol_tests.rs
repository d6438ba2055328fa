use blockmatrix::json::JsonValue;
use blockmatrix::protocol::{
    major_version, parse_error_response, pid_file_path, protocol_versions_compatible,
    resolve_socket_path, version_gate, RpcRequest, RpcResponse, INTERNAL_ERROR, METHOD_NOT_FOUND,
    PROTOCOL_VERSION_MISMATCH,
};

const IPC_PROTOCOL_VERSION: &str = "0.1.0";

#[test]
fn test_protocol_versions_same_major_compatible() {
    assert!(protocol_versions_compatible("0.1.0", "0.2.0"));
    assert!(protocol_versions_compatible("1.5.0", "1.0.0"));
    assert!(protocol_versions_compatible("2.0.0", "2.99.0"));
}

#[test]
fn test_protocol_versions_different_major_incompatible() {
    assert!(!protocol_versions_compatible("1.0.0", "2.0.0"));
    assert!(!protocol_versions_compatible("0.5.0", "1.0.0"));
}

#[test]
fn test_major_version_parses() {
    assert_eq!(major_version("0.1.0"), Some(0));
    assert_eq!(major_version("1.5.3-rc1"), Some(1));
    assert_eq!(major_version("not-semver"), None);
}

#[test]
fn test_request_carries_protocol_version() {
    let req = RpcRequest::new("ping", JsonValue::Null, 1);
    assert_eq!(req.protocol_version, Some(IPC_PROTOCOL_VERSION.to_string()));
}

#[test]
fn test_response_carries_protocol_version() {
    let resp = RpcResponse::success(1, JsonValue::Bool(true));
    assert_eq!(resp.protocol_version, Some(IPC_PROTOCOL_VERSION.to_string()));
}

#[test]
fn request_new_fills_fields() {
    let req = RpcRequest::new("status", JsonValue::Null, 7);
    assert_eq!(req.jsonrpc, "2.0");
    assert_eq!(req.method, "status");
    assert_eq!(req.id, 7);
    assert!(req.capability_token.is_none());
}

#[test]
fn request_with_token_carries_token() {
    let req = RpcRequest::new_with_token("status", JsonValue::Null, "dG9r".to_string(), 3);
    assert_eq!(req.capability_token, Some("dG9r".to_string()));
    assert_eq!(req.protocol_version, Some(IPC_PROTOCOL_VERSION.to_string()));
}

#[test]
fn request_without_protocol_version_has_none() {
    let req = RpcRequest::new_without_protocol_version("ping", JsonValue::Null, 2);
    assert!(req.protocol_version.is_none());
}

#[test]
fn response_error_fields() {
    let resp = RpcResponse::error(7, METHOD_NOT_FOUND, "no such method".to_string());
    assert!(resp.result.is_none());
    let err = resp.error.expect("error present");
    assert_eq!(err.code, METHOD_NOT_FOUND);
    assert_eq!(err.message, "no such method");
    assert_eq!(resp.id, 7);
}

#[test]
fn major_version_edge_cases() {
    assert_eq!(major_version("+3.0.0"), Some(3));
    assert_eq!(major_version(""), None);
    assert_eq!(major_version("18446744073709551616.0"), None);
    assert_eq!(major_version("18446744073709551615.1"), Some(u64::MAX));
    assert_eq!(major_version("12"), Some(12));
}

#[test]
fn unparseable_versions_compare_as_zero() {
    assert!(protocol_versions_compatible("garbage", "0.9.9"));
    assert!(!protocol_versions_compatible("garbage", "1.0.0"));
}

#[test]
fn version_gate_refuses_other_major() {
    let mut req = RpcRequest::new("ping", JsonValue::Null, 11);
    req.protocol_version = Some("5.0.0".to_string());
    let resp = version_gate(&req).expect("refused");
    assert_eq!(resp.id, 11);
    let err = resp.error.expect("error");
    assert_eq!(err.code, PROTOCOL_VERSION_MISMATCH);
    assert_eq!(
        err.message,
        "incompatible CLI protocol version: client 5.0.0 vs daemon 0.1.0 (major versions differ; run `hypermesh update` to upgrade the client)"
    );
}

#[test]
fn version_gate_passes_same_major_and_old_clients() {
    let req = RpcRequest::new("ping", JsonValue::Null, 1);
    assert!(version_gate(&req).is_none());
    let old = RpcRequest::new_without_protocol_version("ping", JsonValue::Null, 2);
    assert!(version_gate(&old).is_none());
    let mut minor = RpcRequest::new("ping", JsonValue::Null, 3);
    minor.protocol_version = Some("0.9.0".to_string());
    assert!(version_gate(&minor).is_none());
}

#[test]
fn parse_error_response_shape() {
    let resp = parse_error_response("expected value");
    assert_eq!(resp.id, 0);
    let err = resp.error.expect("error");
    assert_eq!(err.code, INTERNAL_ERROR);
    assert_eq!(err.message, "parse error: expected value");
}

#[test]
fn socket_path_precedence() {
    assert_eq!(
        resolve_socket_path(Some("/tmp/test-hypermesh.sock"), Some("/run/user/1"), Some("/home/a")),
        "/tmp/test-hypermesh.sock"
    );
    assert_eq!(
        resolve_socket_path(None, Some("/run/user/1"), Some("/home/a")),
        "/run/user/1/hypermesh/ctl.sock"
    );
    assert_eq!(resolve_socket_path(None, None, Some("/home/a")), "/home/a/.hypermesh/ctl.sock");
    assert_eq!(resolve_socket_path(None, None, None), "/tmp/.hypermesh/ctl.sock");
    assert!(resolve_socket_path(None, None, Some("/home/a")).ends_with("ctl.sock"));
}

#[test]
fn pid_file_sits_beside_socket() {
    assert_eq!(pid_file_path(Some("/run/user/1/hypermesh/ctl.sock"), None, None), "/run/user/1/hypermesh/daemon.pid");
    assert_eq!(pid_file_path(None, Some("/run/user/7"), Some("/home/a")), "/run/user/7/hypermesh/daemon.pid");
    assert_eq!(pid_file_path(None, None, Some("/home/a")), "/home/a/.hypermesh/daemon.pid");
}
