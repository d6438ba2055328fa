//! Request dispatch: method registry, capability enforcement, responses.
//!
//! Dispatch proceeds in steps. [`RequestHandler::begin`] decides whether a
//! request is refused outright, needs its capability token validated, or can
//! go on; [`RequestHandler::after_token`] continues once the token has been
//! checked; [`RequestHandler::route`] finds the handler; [`complete`] turns the
//! handler's outcome into the response. Running the handler itself (an async
//! closure) is left to the caller.

use vstd::prelude::*;
use crate::capability::{
    always_public, always_public_spec, capability_name, capability_name_str, check_token,
    required_capability, required_capability_spec, token_verdict, Capability, TokenFacts,
};
use crate::codecs::{base64_decode, base64_standard_decode};
use crate::json::JsonValue;
use crate::protocol::{
    is_error, is_error_response, is_success, RpcError, RpcRequest, RpcResponse, CAPABILITY_DENIED,
    METHOD_NOT_FOUND,
};
use crate::text::{concat2, concat3, copy_string, copy_strings};

verus! {

/// Capability enforcement context: the daemon key that tokens must be
/// signed with.
pub struct CapabilityContext {
    daemon_pubkey: Vec<u8>,
}

impl CapabilityContext {
    /// A context verifying tokens against `daemon_pubkey` (the issuer's key).
    pub fn new(daemon_pubkey: Vec<u8>) -> (r: CapabilityContext)
        ensures
            r.pubkey() == daemon_pubkey@,
    {
        CapabilityContext { daemon_pubkey }
    }

    /// The daemon key.
    pub closed spec fn pubkey(&self) -> Seq<u8> {
        self.daemon_pubkey@
    }

    /// The daemon key.
    pub fn daemon_pubkey(&self) -> (r: &Vec<u8>)
        ensures
            r@ == self.pubkey(),
    {
        &self.daemon_pubkey
    }

    /// First step of token validation: base64-decode the token into the bytes
    /// of its JSON form. A malformed token is `CAPABILITY_DENIED`.
    pub fn decode_token(&self, token_b64: &str) -> (r: Result<Vec<u8>, RpcError>)
        ensures
            match base64_standard_decode(token_b64@) {
                Ok(bytes) => r matches Ok(v) && v@ == bytes,
                Err(e) => r matches Err(err) && is_error(
                    err,
                    CAPABILITY_DENIED,
                    "capability_token base64 decode failed: "@ + e,
                ),
            },
    {
        match base64_decode(token_b64) {
            Ok(bytes) => Ok(bytes),
            Err(e) => {
                proof {
                    reveal_strlit("capability_token base64 decode failed: ");
                }
                Err(
                    RpcError::new(
                        CAPABILITY_DENIED,
                        concat2("capability_token base64 decode failed: ", e.as_str()),
                    ),
                )
            },
        }
    }

    /// Refusal for a token whose JSON form does not decode.
    pub fn json_decode_failure(detail: &str) -> (r: RpcError)
        ensures
            is_error(r, CAPABILITY_DENIED, "capability_token JSON decode failed: "@ + detail@),
    {
        proof {
            reveal_strlit("capability_token JSON decode failed: ");
        }
        RpcError::new(
            CAPABILITY_DENIED,
            concat2("capability_token JSON decode failed: ", detail),
        )
    }

    /// The verdict on a decoded token read by this context: a token whose
    /// signature was checked under any key but the daemon's is refused as
    /// unsigned; otherwise `token_verdict`.
    pub open spec fn context_verdict(&self, facts: TokenFacts, required: Capability) -> Result<
        (),
        Seq<char>,
    > {
        if facts.checked_key@ != self.pubkey() {
            Err("capability_token signature verification failed"@)
        } else {
            token_verdict(facts, required)
        }
    }

    /// Validate a capability token for `required`: base64-decode it, hand
    /// `read` the daemon key this context holds and the token's bytes, and
    /// judge what `read` reports (the token's JSON decoded, its signature
    /// checked under that key, its expiry and whether its session is
    /// revoked) by `context_verdict`; or refuse its decode failure. Every
    /// refusal is `CAPABILITY_DENIED`, and a token passes only when its
    /// signature verified under this context's key, it has not expired,
    /// its session is not revoked and its scope grants `required`.
    pub fn validate<F: FnOnce(Vec<u8>, Vec<u8>) -> Result<TokenFacts, String>>(
        &self,
        token_b64: &str,
        required: Capability,
        read: F,
    ) -> (r: Result<(), RpcError>)
        requires
            forall|k: Vec<u8>, b: Vec<u8>| call_requires(read, (k, b)),
        ensures
            match base64_standard_decode(token_b64@) {
                Err(e) => r matches Err(err) && is_error(
                    err,
                    CAPABILITY_DENIED,
                    "capability_token base64 decode failed: "@ + e,
                ),
                Ok(bytes) => exists|k: Vec<u8>, v: Vec<u8>, out: Result<TokenFacts, String>|
                    #![trigger call_ensures(read, (k, v), out)]
                    k@ == self.pubkey() && v@ == bytes && call_ensures(read, (k, v), out) && match out {
                        Err(d) => r matches Err(err) && is_error(
                            err,
                            CAPABILITY_DENIED,
                            "capability_token JSON decode failed: "@ + d@,
                        ),
                        Ok(f) => match self.context_verdict(f, required) {
                            Ok(()) => r is Ok,
                            Err(m) => r matches Err(err) && is_error(err, CAPABILITY_DENIED, m),
                        },
                    },
            },
            r is Ok ==> exists|f: TokenFacts|
                f.checked_key@ == self.pubkey() && #[trigger] token_verdict(f, required) is Ok,
    {
        let bytes = match self.decode_token(token_b64) {
            Ok(b) => b,
            Err(e) => {
                return Err(e);
            },
        };
        let key = crate::workflows::copy_bytes(&self.daemon_pubkey);
        let ghost k = key;
        let ghost v = bytes;
        let out = read(key, bytes);
        let ghost o = out;
        match out {
            Err(d) => {
                let r = Err(CapabilityContext::json_decode_failure(d.as_str()));
                assert(call_ensures(read, (k, v), o));
                r
            },
            Ok(f) => {
                if !crate::shard::bytes_eq(f.checked_key.as_slice(), self.daemon_pubkey.as_slice()) {
                    proof {
                        reveal_strlit("capability_token signature verification failed");
                    }
                    let r = Err(
                        RpcError::new(
                            CAPABILITY_DENIED,
                            String::from_str("capability_token signature verification failed"),
                        ),
                    );
                    assert(call_ensures(read, (k, v), o));
                    return r;
                }
                let r = check_token(&f, required);
                assert(call_ensures(read, (k, v), o));
                assert(token_verdict(f, required) is Ok ==> token_verdict(f, required) is Ok);
                r
            },
        }
    }
}

/// Whether `s` has no repeated element.
pub open spec fn no_dups(s: Seq<Seq<char>>) -> bool {
    forall|i: int, j: int| 0 <= i < j < s.len() ==> s[i] != s[j]
}

/// Dispatches incoming requests: which methods are registered, and whether
/// capability tokens are enforced.
pub struct RequestHandler {
    names: Vec<String>,
    capability_context: Option<CapabilityContext>,
}

/// What the dispatcher does next with a request.
pub enum DispatchStep {
    /// Answer with this response; no handler runs.
    Respond(RpcResponse),
    /// Validate `token` for `required` first, then call `after_token`.
    CheckToken { token: String, required: Capability },
    /// Invoke the handler registered for the request's method, then call `complete`.
    Invoke,
}

/// Message for a request that needs a capability but carries no token.
pub open spec fn no_token_message(method: Seq<char>, required: Capability) -> Seq<char> {
    "method '"@ + method + "' requires capability "@ + capability_name(required)
        + " but no capability_token was supplied"@
}

/// Message for a method nobody registered.
pub open spec fn not_found_message(method: Seq<char>) -> Seq<char> {
    "method not found: "@ + method
}

impl RequestHandler {
    /// Names of the registered methods.
    pub closed spec fn registered(&self) -> Seq<Seq<char>> {
        self.names@.map_values(|s: String| s@)
    }

    /// Whether capability enforcement is installed.
    pub closed spec fn enforcing(&self) -> bool {
        self.capability_context is Some
    }

    /// The registry never holds a name twice.
    pub closed spec fn well_formed(&self) -> bool {
        no_dups(self.registered())
    }

    /// An empty registry without enforcement.
    pub fn new() -> (r: RequestHandler)
        ensures
            r.registered() == Seq::<Seq<char>>::empty(),
            !r.enforcing(),
            r.well_formed(),
    {
        let r = RequestHandler { names: Vec::new(), capability_context: None };
        assert(r.registered() =~= Seq::<Seq<char>>::empty());
        r
    }

    /// Register `method` (registering a name twice keeps one entry).
    pub fn register(&mut self, method: &str)
        requires
            old(self).well_formed(),
        ensures
            final(self).well_formed(),
            final(self).enforcing() == old(self).enforcing(),
            final(self).registered() == (if old(self).registered().contains(method@) {
                old(self).registered()
            } else {
                old(self).registered().push(method@)
            }),
    {
        let ghost before = self.registered();
        let mut i: usize = 0;
        while i < self.names.len()
            invariant
                i <= self.names@.len(),
                before == self.names@.map_values(|s: String| s@),
                before == old(self).registered(),
                self.well_formed(),
                self.enforcing() == old(self).enforcing(),
                forall|k: int| 0 <= k < i ==> before[k] != method@,
            decreases self.names@.len() - i,
        {
            if crate::text::str_eq(self.names[i].as_str(), method) {
                assert(before[i as int] == method@);
                return;
            }
            i = i + 1;
        }
        self.names.push(String::from_str(method));
        assert(self.registered() =~= before.push(method@));
    }

    /// Install capability enforcement: from now on every request outside the
    /// public bootstrap method needs a valid token.
    pub fn set_capability_context(&mut self, ctx: CapabilityContext)
        ensures
            final(self).enforcing(),
            final(self).registered() == old(self).registered(),
            final(self).well_formed() == old(self).well_formed(),
    {
        self.capability_context = Some(ctx);
    }

    /// Whether capability enforcement is installed.
    pub fn capability_enforcement_enabled(&self) -> (r: bool)
        ensures
            r == self.enforcing(),
    {
        self.capability_context.is_some()
    }

    /// The enforcement context, when installed.
    pub fn capability_context(&self) -> (r: Option<&CapabilityContext>)
        ensures
            r is Some == self.enforcing(),
    {
        match &self.capability_context {
            Some(c) => Some(c),
            None => None,
        }
    }

    /// Names of all registered methods.
    pub fn methods(&self) -> (r: Vec<String>)
        ensures
            r@.map_values(|s: String| s@) == self.registered(),
    {
        let r = copy_strings(&self.names);
        assert(r@.map_values(|s: String| s@) =~= self.registered());
        r
    }

    /// Whether `method` is registered.
    pub fn is_registered(&self, method: &str) -> (r: bool)
        ensures
            r == self.registered().contains(method@),
    {
        let ghost names = self.registered();
        let mut i: usize = 0;
        while i < self.names.len()
            invariant
                i <= self.names@.len(),
                names == self.names@.map_values(|s: String| s@),
                forall|k: int| 0 <= k < i ==> names[k] != method@,
            decreases self.names@.len() - i,
        {
            if crate::text::str_eq(self.names[i].as_str(), method) {
                assert(names[i as int] == method@);
                return true;
            }
            i = i + 1;
        }
        false
    }

    /// First step: refuse, ask for a token check, or go on to routing.
    pub fn begin(&self, request: &RpcRequest) -> (r: DispatchStep)
        ensures
            self.enforcing() && !always_public_spec(request.method@) ==> match request.capability_token {
                None => r matches DispatchStep::Respond(resp) && is_error_response(
                    resp,
                    request.id,
                    CAPABILITY_DENIED,
                    no_token_message(
                        request.method@,
                        required_capability_spec(request.method@),
                    ),
                ),
                Some(t) => r matches DispatchStep::CheckToken { token, required } && token@ == t@
                    && required == required_capability_spec(request.method@),
            },
            !(self.enforcing() && !always_public_spec(request.method@)) ==> self.routed(*request, r),
    {
        if self.capability_context.is_some() && !always_public(request.method.as_str()) {
            let required = required_capability(request.method.as_str());
            match &request.capability_token {
                None => {
                    let head = concat3(
                        "method '",
                        request.method.as_str(),
                        "' requires capability ",
                    );
                    let msg = concat3(
                        head.as_str(),
                        capability_name_str(required),
                        " but no capability_token was supplied",
                    );
                    proof {
                        reveal_strlit("method '");
                        reveal_strlit("' requires capability ");
                        reveal_strlit(" but no capability_token was supplied");
                    }
                    DispatchStep::Respond(RpcResponse::error(request.id, CAPABILITY_DENIED, msg))
                },
                Some(t) => DispatchStep::CheckToken { token: copy_string(t), required },
            }
        } else {
            self.route(request)
        }
    }

    /// Whether `step` is what routing gives for `request`: invoke the handler
    /// of a registered method, or answer "method not found".
    pub open spec fn routed(&self, request: RpcRequest, step: DispatchStep) -> bool {
        if self.registered().contains(request.method@) {
            step is Invoke
        } else {
            step matches DispatchStep::Respond(resp) && is_error_response(
                resp,
                request.id,
                METHOD_NOT_FOUND,
                not_found_message(request.method@),
            )
        }
    }

    /// After the token check: a refusal is answered with its error, a pass
    /// goes on to routing.
    pub fn after_token(&self, request: &RpcRequest, verdict: Result<(), RpcError>) -> (r:
        DispatchStep)
        ensures
            match verdict {
                Err(e) => r matches DispatchStep::Respond(resp) && resp.id == request.id
                    && resp.result is None && resp.error == Some(e),
                Ok(()) => self.routed(*request, r),
            },
    {
        match verdict {
            Err(e) => DispatchStep::Respond(RpcResponse::from_error(request.id, e)),
            Ok(()) => self.route(request),
        }
    }

    /// Find the handler for the request's method.
    pub fn route(&self, request: &RpcRequest) -> (r: DispatchStep)
        ensures
            self.routed(*request, r),
    {
        if self.is_registered(request.method.as_str()) {
            DispatchStep::Invoke
        } else {
            let msg = concat2("method not found: ", request.method.as_str());
            proof {
                reveal_strlit("method not found: ");
            }
            DispatchStep::Respond(RpcResponse::error(request.id, METHOD_NOT_FOUND, msg))
        }
    }
}

/// The response for a handler's outcome on request `id`.
pub fn complete(id: u64, outcome: Result<JsonValue, RpcError>) -> (r: RpcResponse)
    ensures
        match outcome {
            Ok(v) => is_success(r, id, v@),
            Err(e) => r.id == id && r.result is None && r.error == Some(e),
        },
{
    match outcome {
        Ok(v) => RpcResponse::success(id, v),
        Err(e) => RpcResponse::from_error(id, e),
    }
}

/// A request to a method nobody registered is answered "method not found",
/// with the request's id, whenever it is not refused for its token first.
pub proof fn law_unknown_method_not_found(h: RequestHandler, request: RpcRequest, step: DispatchStep)
    requires
        !h.registered().contains(request.method@),
        h.routed(request, step),
    ensures
        step matches DispatchStep::Respond(resp) && resp.id == request.id && (
        resp.error matches Some(e) && e.code == METHOD_NOT_FOUND),
{
}

/// Without enforcement, a registered method is always invoked: no token is
/// ever asked for.
pub proof fn law_no_enforcement_invokes(h: RequestHandler, request: RpcRequest, step: DispatchStep)
    requires
        !h.enforcing(),
        h.registered().contains(request.method@),
        h.routed(request, step),
    ensures
        step is Invoke,
{
}

} // verus!
