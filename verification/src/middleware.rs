//! The authorization middleware.
//!
//! It wraps the dispatcher: for every call it checks whether the call's
//! method name is in the protected set; if so, it evaluates the metadata's
//! auth outcome and either short-circuits with an authorization error or
//! forwards the call unchanged. Envelopes that expect no response pass
//! through unchecked, as do calls to unprotected methods; this mirrors the
//! deliberate scope of the guard, which special-cases only response-expecting
//! calls.

use vstd::prelude::*;
use crate::metadata::{parser_error_message, RpcMeta};
use crate::protocol::{Call, ErrorCode, Id, IdView, Output, OutputView, RpcError, RpcErrorView, Version};

verus! {

/// The middleware's verdict on one call: answer now with a completed
/// response, or proceed to the next stage unchanged.
#[derive(Debug, PartialEq, Eq)]
pub enum Guard {
    Stop(Output),
    Continue,
}

/// Whether the metadata carries the expected credential: a header that
/// decoded to exactly `"root"`.
pub open spec fn auth_ok(meta: RpcMeta) -> bool {
    meta.auth matches Some(Ok(v)) && v@ == "root"@
}

/// The message of the authorization error for metadata that does not carry
/// the credential: one message for an absent header, one for a header that
/// did not decode, and one for any other decoded value.
pub open spec fn deny_message(meta: RpcMeta) -> Seq<char> {
    match meta.auth {
        None => "X-Admin-Auth header required"@,
        Some(r) => match r {
            Err(_) => parser_error_message(),
            Ok(_) => "X-Admin-Auth must be 'root'"@,
        },
    }
}

/// The response an authorization failure short-circuits with: an
/// InvalidRequest error carrying the given message, correlated to the
/// originating call's id and protocol version.
pub open spec fn denial_view(jsonrpc: Option<Version>, id: IdView, message: Seq<char>) -> OutputView {
    OutputView::Failure {
        jsonrpc,
        error: RpcErrorView { code: ErrorCode::InvalidRequest, message, data: None },
        id,
    }
}

/// Gates access to protected methods before they reach the dispatcher.
/// Stateless aside from the immutable protected set captured at construction.
pub struct ProtectRpcMiddleware {
    pub protected: Vec<String>,
}

impl ProtectRpcMiddleware {
    /// Whether the method name is in the protected set. Membership is
    /// decided by exact string equality.
    pub open spec fn is_protected(self, method: Seq<char>) -> bool {
        exists|i: int| 0 <= i < self.protected@.len() && #[trigger] self.protected@[i]@ == method
    }

    /// Whether the middleware short-circuits a response-expecting call to
    /// this method under this metadata.
    pub open spec fn denies(self, method: Seq<char>, meta: RpcMeta) -> bool {
        self.is_protected(method) && !auth_ok(meta)
    }

    pub fn new(protected: Vec<String>) -> (m: Self)
        ensures
            m.protected == protected,
    {
        Self { protected }
    }

    /// Whether the method name is in the protected set.
    fn contains_method(&self, method: &String) -> (r: bool)
        ensures
            r == self.is_protected(method@),
    {
        let mut i: usize = 0;
        while i < self.protected.len()
            invariant
                i <= self.protected@.len(),
                forall|j: int| 0 <= j < i ==> #[trigger] self.protected@[j]@ != method@,
            decreases self.protected@.len() - i,
        {
            if self.protected[i].eq(method) {
                return true;
            }
            i = i + 1;
        }
        false
    }

    /// The short-circuit response for one authorization failure.
    fn unauthorized_error(message: String, jsonrpc: Option<Version>, id: Id) -> (out: Output)
        ensures
            out@ == denial_view(jsonrpc, id@, message@),
    {
        let error = RpcError { code: ErrorCode::InvalidRequest, message, data: None };
        Output::from(Err(error), id, jsonrpc)
    }

    /// Decides whether a response-expecting call may proceed.
    ///
    /// A call to an unprotected method always continues. A call to a
    /// protected method continues exactly when the metadata carries the
    /// credential `"root"`; otherwise the call is answered at once with an
    /// InvalidRequest error whose message names what was wrong with the
    /// header, correlated to the call's id and protocol version.
    pub fn handle_admin_rpc_call(
        &self,
        meta: &RpcMeta,
        jsonrpc: Option<Version>,
        method: String,
        id: Id,
    ) -> (g: Guard)
        ensures
            self.denies(method@, *meta) ==> (g matches Guard::Stop(out) && out@ == denial_view(
                jsonrpc,
                id@,
                deny_message(*meta),
            )),
            !self.denies(method@, *meta) ==> g is Continue,
    {
        if self.contains_method(&method) {
            match &meta.auth {
                None => {
                    return Guard::Stop(Self::unauthorized_error(
                        "X-Admin-Auth header required".to_owned(),
                        jsonrpc,
                        id,
                    ));
                },
                Some(auth) => match auth {
                    Ok(auth) => {
                        let expected = "root".to_owned();
                        if *auth != expected {
                            return Guard::Stop(Self::unauthorized_error(
                                "X-Admin-Auth must be 'root'".to_owned(),
                                jsonrpc,
                                id,
                            ));
                        }
                    },
                    Err(error) => {
                        return Guard::Stop(Self::unauthorized_error(error.message(), jsonrpc, id));
                    },
                },
            }
        }
        Guard::Continue
    }

    /// Inspects one call. Only a response-expecting call is checked; every
    /// other envelope shape is forwarded unchanged.
    pub fn on_call(&self, call: &Call, meta: &RpcMeta) -> (g: Guard)
        ensures
            match *call {
                Call::MethodCall(mc) => {
                    &&& self.denies(mc.method@, *meta) ==> (g matches Guard::Stop(out)
                        && out@ == denial_view(mc.jsonrpc, mc.id@, deny_message(*meta)))
                    &&& !self.denies(mc.method@, *meta) ==> g is Continue
                },
                _ => g is Continue,
            },
    {
        match call {
            Call::MethodCall(mc) => {
                let jsonrpc = mc.jsonrpc;
                let method = mc.method.clone();
                let id = mc.id.clone();
                self.handle_admin_rpc_call(meta, jsonrpc, method, id)
            },
            _ => Guard::Continue,
        }
    }
}

} // verus!
