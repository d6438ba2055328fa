use blockmatrix::capability::{Capability, TokenFacts};
use blockmatrix::handler::{complete, CapabilityContext, DispatchStep, RequestHandler};
use blockmatrix::json::JsonValue;
use blockmatrix::protocol::{RpcError, RpcRequest, CAPABILITY_DENIED, INVALID_PARAMS, METHOD_NOT_FOUND};

/// Drive one request through the dispatcher with a fixed handler outcome
/// and a fixed token verdict.
fn dispatch(
    h: &RequestHandler,
    req: &RpcRequest,
    verdict: Result<(), RpcError>,
    outcome: Result<JsonValue, RpcError>,
) -> blockmatrix::protocol::RpcResponse {
    let step = match h.begin(req) {
        DispatchStep::CheckToken { .. } => h.after_token(req, verdict),
        other => other,
    };
    match step {
        DispatchStep::Respond(resp) => resp,
        DispatchStep::Invoke => complete(req.id, outcome),
        DispatchStep::CheckToken { .. } => panic!("token checked twice"),
    }
}

#[test]
fn test_dispatch_known_method() {
    let mut handler = RequestHandler::new();
    handler.register("ping");
    let req = RpcRequest::new("ping", JsonValue::Null, 1);
    let resp = dispatch(&handler, &req, Ok(()), Ok(JsonValue::Str("pong".into())));
    assert!(resp.error.is_none());
    assert_eq!(resp.result.expect("test: result present"), JsonValue::Str("pong".into()));
}

#[test]
fn test_dispatch_unknown_method() {
    let handler = RequestHandler::new();
    let req = RpcRequest::new("nonexistent", JsonValue::Null, 2);
    let resp = dispatch(&handler, &req, Ok(()), Ok(JsonValue::Null));
    assert!(resp.result.is_none());
    let err = resp.error.expect("test: error present");
    assert_eq!(err.code, METHOD_NOT_FOUND);
    assert_eq!(err.message, "method not found: nonexistent");
}

#[test]
fn test_dispatch_handler_error() {
    let mut handler = RequestHandler::new();
    handler.register("fail");
    let req = RpcRequest::new("fail", JsonValue::Null, 3);
    let resp = dispatch(
        &handler,
        &req,
        Ok(()),
        Err(RpcError { code: INVALID_PARAMS, message: "bad params".to_string(), data: None }),
    );
    assert!(resp.result.is_none());
    let err = resp.error.expect("test: error present");
    assert_eq!(err.code, INVALID_PARAMS);
    assert_eq!(err.message, "bad params");
}

#[test]
fn register_is_idempotent() {
    let mut h = RequestHandler::new();
    h.register("a");
    h.register("b");
    h.register("a");
    assert_eq!(h.methods(), vec!["a".to_string(), "b".to_string()]);
    assert!(h.is_registered("b"));
    assert!(!h.is_registered("c"));
}

#[test]
fn enforcement_requires_token() {
    let mut h = RequestHandler::new();
    h.register("status");
    assert!(!h.capability_enforcement_enabled());
    h.set_capability_context(CapabilityContext::new(vec![1, 2, 3]));
    assert!(h.capability_enforcement_enabled());

    let req = RpcRequest::new("status", JsonValue::Null, 9);
    let resp = dispatch(&h, &req, Ok(()), Ok(JsonValue::Null));
    assert_eq!(resp.id, 9);
    let err = resp.error.expect("denied");
    assert_eq!(err.code, CAPABILITY_DENIED);
    assert_eq!(
        err.message,
        "method 'status' requires capability ViewOnly but no capability_token was supplied"
    );
}

#[test]
fn enforcement_checks_token_then_routes() {
    let mut h = RequestHandler::new();
    h.register("config.set");
    h.set_capability_context(CapabilityContext::new(vec![]));
    let req = RpcRequest::new_with_token("config.set", JsonValue::Null, "dG9r".into(), 4);
    match h.begin(&req) {
        DispatchStep::CheckToken { token, required } => {
            assert_eq!(token, "dG9r");
            assert_eq!(required, Capability::Admin);
        }
        _ => panic!("expected a token check"),
    }
    let denied = RpcError { code: CAPABILITY_DENIED, message: "capability_token expired".into(), data: None };
    let resp = dispatch(&h, &req, Err(denied.clone()), Ok(JsonValue::Null));
    let err = resp.error.expect("a refusal");
    assert_eq!(err.code, denied.code);
    assert_eq!(err.message, denied.message);
    assert!(err.data.is_none());
    let resp = dispatch(&h, &req, Ok(()), Ok(JsonValue::Bool(true)));
    assert_eq!(resp.result, Some(JsonValue::Bool(true)));
}

#[test]
fn bootstrap_method_bypasses_enforcement() {
    let mut h = RequestHandler::new();
    h.register("auth.create_session");
    h.set_capability_context(CapabilityContext::new(vec![]));
    let req = RpcRequest::new("auth.create_session", JsonValue::Null, 5);
    assert!(matches!(h.begin(&req), DispatchStep::Invoke));
}

#[test]
fn decode_token_rejects_bad_base64() {
    let ctx = CapabilityContext::new(vec![7]);
    assert_eq!(ctx.daemon_pubkey(), &vec![7u8]);
    let e = ctx.decode_token("!!!").unwrap_err();
    assert_eq!(e.code, CAPABILITY_DENIED);
    assert!(e.message.starts_with("capability_token base64 decode failed: "));
    assert_eq!(ctx.decode_token("aGVsbG8=").expect("valid"), b"hello".to_vec());
    let e = CapabilityContext::json_decode_failure("EOF");
    assert_eq!(e.message, "capability_token JSON decode failed: EOF");
}

#[test]
fn token_validation_chain() {
    let ctx = CapabilityContext::new(vec![7, 7, 7]);
    let e = ctx.validate("not base64!", Capability::Wallet, |_, _| Err("unused".to_string())).unwrap_err();
    assert_eq!(e.code, CAPABILITY_DENIED);
    assert!(e.message.starts_with("capability_token base64 decode failed: "));
    let e = ctx
        .validate("aGk=", Capability::Wallet, |k, b| {
            assert_eq!(k, vec![7, 7, 7]);
            assert_eq!(b, b"hi".to_vec());
            Err("expected value".to_string())
        })
        .unwrap_err();
    assert_eq!(e.message, "capability_token JSON decode failed: expected value");
    let facts = |key: Vec<u8>, sig: bool, caps: Vec<Capability>| TokenFacts {
        checked_key: key,
        signature_valid: sig,
        expired: false,
        revoked: false,
        session_id: "s1".to_string(),
        capabilities: caps,
    };
    let e = ctx
        .validate("aGk=", Capability::Wallet, |k, _| Ok(facts(k, false, vec![Capability::Admin])))
        .unwrap_err();
    assert_eq!(e.message, "capability_token signature verification failed");
    // A signature checked under another key is refused as unsigned.
    let e = ctx
        .validate("aGk=", Capability::Wallet, |_, _| Ok(facts(vec![9], true, vec![Capability::Admin])))
        .unwrap_err();
    assert_eq!(e.message, "capability_token signature verification failed");
    let e = ctx
        .validate("aGk=", Capability::Admin, |k, _| Ok(facts(k, true, vec![Capability::Wallet])))
        .unwrap_err();
    assert_eq!(e.code, CAPABILITY_DENIED);
    let revoked = |k: Vec<u8>, _b: Vec<u8>| {
        let mut f = facts(k, true, vec![Capability::Admin]);
        f.revoked = true;
        Ok(f)
    };
    let e = ctx.validate("aGk=", Capability::Wallet, revoked).unwrap_err();
    assert_eq!(e.message, "capability_token session s1 has been revoked");
    assert!(ctx.validate("aGk=", Capability::Wallet, |k, _| Ok(facts(k, true, vec![Capability::Admin]))).is_ok());
}
