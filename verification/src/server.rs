//! The composed request path: middleware in front of the dispatcher.
//!
//! A handler is built at startup from two independently constructed method
//! tables, a public one and an admin one. The names of the admin table
//! become the protected set, fixed for the process lifetime; both tables
//! are merged into a single lookup, later registrations overriding earlier
//! ones. Per request, the middleware then either short-circuits with an
//! authorization error or forwards the call to the dispatcher unchanged.

use vstd::prelude::*;
use crate::dispatch::{Dispatcher, Method};
use crate::metadata::RpcMeta;
use crate::methods::{handler_result, Handler};
use crate::middleware::{denial_view, deny_message, Guard, ProtectRpcMiddleware};
use crate::protocol::{invalid_request_view, Call, MethodCall, Output, OutputView, Version};

verus! {

/// A named handler, as the registry takes it: one table entry before the
/// protected flag is attached.
#[derive(Debug, PartialEq, Eq)]
pub struct Registration {
    pub name: String,
    pub handler: Handler,
}

/// The full RPC core: the protection middleware wrapping the dispatcher.
pub struct RpcHandler {
    pub middleware: ProtectRpcMiddleware,
    pub dispatcher: Dispatcher,
}

/// The spec-level response of [`RpcHandler::handle_call`]: `None` for an
/// envelope that expects no response, otherwise the single response unit.
///
/// A response-expecting call that the middleware denies is answered with
/// the authorization error; any other such call is answered by the
/// dispatcher. Envelopes that expect no response pass the middleware
/// unchecked and produce nothing; a malformed envelope is answered with
/// the InvalidRequest error under the protocol's current version.
pub open spec fn response_view(h: RpcHandler, call: Call, meta: RpcMeta) -> Option<OutputView> {
    match call {
        Call::MethodCall(mc) => Some(
            if h.middleware.denies(mc.method@, meta) {
                denial_view(mc.jsonrpc, mc.id@, deny_message(meta))
            } else {
                h.dispatcher.dispatch_view(mc)
            },
        ),
        Call::Notification(_) => None,
        Call::Invalid { id } => Some(invalid_request_view(Some(Version::V2), id@)),
    }
}

/// The view of an optional response, for stating contracts over it.
pub open spec fn response_of(out: Option<Output>) -> Option<OutputView> {
    match out {
        None => None,
        Some(o) => Some(o@),
    }
}

impl RpcHandler {
    /// Builds the core from the two handler tables.
    ///
    /// The protected set is exactly the names of the admin table. The
    /// merged table holds the public entries first and the admin entries
    /// after them, so an admin registration overrides a public one of the
    /// same name, while the name stays protected.
    pub fn new(public: Vec<Registration>, admin: Vec<Registration>) -> (h: RpcHandler)
        ensures
            h.middleware.protected@.len() == admin@.len(),
            forall|i: int|
                0 <= i < admin@.len() ==> #[trigger] h.middleware.protected@[i]@ == admin@[i].name@,
            h.dispatcher.methods@.len() == public@.len() + admin@.len(),
            forall|i: int|
                0 <= i < public@.len() ==> {
                    let m = #[trigger] h.dispatcher.methods@[i]@;
                    m.name == public@[i].name@ && m.handler == public@[i].handler && !m.protected
                },
            forall|j: int|
                public@.len() <= j < public@.len() + admin@.len() ==> {
                    let m = #[trigger] h.dispatcher.methods@[j]@;
                    m.name == admin@[j - public@.len()].name@
                        && m.handler == admin@[j - public@.len()].handler && m.protected
                },
    {
        let mut protected: Vec<String> = Vec::new();
        let mut k: usize = 0;
        while k < admin.len()
            invariant
                k <= admin@.len(),
                protected@.len() == k,
                forall|i: int| 0 <= i < k ==> #[trigger] protected@[i]@ == admin@[i].name@,
            decreases admin@.len() - k,
        {
            protected.push(admin[k].name.clone());
            k = k + 1;
        }

        let mut methods: Vec<Method> = Vec::new();
        let mut k: usize = 0;
        while k < public.len()
            invariant
                k <= public@.len(),
                methods@.len() == k,
                forall|i: int|
                    0 <= i < k ==> {
                        let m = #[trigger] methods@[i]@;
                        m.name == public@[i].name@ && m.handler == public@[i].handler
                            && !m.protected
                    },
            decreases public@.len() - k,
        {
            methods.push(
                Method { name: public[k].name.clone(), handler: public[k].handler, protected: false },
            );
            k = k + 1;
        }
        let mut k: usize = 0;
        while k < admin.len()
            invariant
                k <= admin@.len(),
                methods@.len() == public@.len() + k,
                forall|i: int|
                    0 <= i < public@.len() ==> {
                        let m = #[trigger] methods@[i]@;
                        m.name == public@[i].name@ && m.handler == public@[i].handler
                            && !m.protected
                    },
                forall|j: int|
                    public@.len() <= j < public@.len() + k ==> {
                        let m = #[trigger] methods@[j]@;
                        m.name == admin@[j - public@.len()].name@
                            && m.handler == admin@[j - public@.len()].handler && m.protected
                    },
            decreases admin@.len() - k,
        {
            methods.push(
                Method { name: admin[k].name.clone(), handler: admin[k].handler, protected: true },
            );
            k = k + 1;
        }

        RpcHandler {
            middleware: ProtectRpcMiddleware::new(protected),
            dispatcher: Dispatcher { methods },
        }
    }

    /// Handles one parsed call under the request's metadata: guard first,
    /// then, if the call may proceed, dispatch.
    pub fn handle_call(&self, call: &Call, meta: &RpcMeta) -> (out: Option<Output>)
        ensures
            response_of(out) == response_view(*self, *call, *meta),
    {
        match self.middleware.on_call(call, meta) {
            Guard::Stop(out) => Some(out),
            Guard::Continue => match call {
                Call::MethodCall(mc) => Some(self.dispatcher.dispatch(mc, meta)),
                Call::Notification(_) => None,
                Call::Invalid { id } => Some(
                    Output::invalid_request(id.clone(), Some(Version::V2)),
                ),
            },
        }
    }
}

/// A call to a protected method with no auth header is always answered
/// with the InvalidRequest error "X-Admin-Auth header required",
/// correlated to the call's id and protocol version; the dispatcher is
/// never reached.
pub proof fn lemma_protected_call_without_header_denied(
    h: RpcHandler,
    mc: MethodCall,
    meta: RpcMeta,
    out: Option<Output>,
)
    requires
        response_of(out) == response_view(h, Call::MethodCall(mc), meta),
        h.middleware.is_protected(mc.method@),
        meta.auth is None,
    ensures
        out matches Some(o) && o@ == denial_view(
            mc.jsonrpc,
            mc.id@,
            "X-Admin-Auth header required"@,
        ),
{
}

/// A call to a protected method whose header decoded to any value other
/// than `"root"` is always answered with the InvalidRequest error
/// "X-Admin-Auth must be 'root'", correlated to the call's id and
/// protocol version.
pub proof fn lemma_protected_call_with_wrong_value_denied(
    h: RpcHandler,
    mc: MethodCall,
    meta: RpcMeta,
    out: Option<Output>,
)
    requires
        response_of(out) == response_view(h, Call::MethodCall(mc), meta),
        h.middleware.is_protected(mc.method@),
        meta.auth matches Some(Ok(v)) && v@ != "root"@,
    ensures
        out matches Some(o) && o@ == denial_view(
            mc.jsonrpc,
            mc.id@,
            "X-Admin-Auth must be 'root'"@,
        ),
{
}

/// A call whose header decoded to exactly `"root"` always reaches the
/// dispatcher and is answered exactly as the dispatcher answers it; in
/// particular, when the method name resolves, the response is the success
/// whose payload is the underlying handler's result on the call's own
/// parameters.
pub proof fn lemma_call_with_root_header_dispatched(
    h: RpcHandler,
    mc: MethodCall,
    meta: RpcMeta,
    out: Option<Output>,
)
    requires
        response_of(out) == response_view(h, Call::MethodCall(mc), meta),
        meta.auth matches Some(Ok(v)) && v@ == "root"@,
    ensures
        out matches Some(o) && o@ == h.dispatcher.dispatch_view(mc),
        h.dispatcher.spec_lookup(mc.method@) matches Some(m) ==> (out matches Some(o)
            && o@ == OutputView::Success {
            jsonrpc: mc.jsonrpc,
            result: handler_result(m.handler, mc.params),
            id: mc.id@,
        }),
{
}

/// The response to a call of an unprotected method does not depend on the
/// auth header: under any two metadata values, absent, valid or malformed,
/// the call is answered the same. The same holds of every envelope that
/// expects no response and of every malformed envelope.
pub proof fn lemma_unprotected_call_ignores_header(
    h: RpcHandler,
    call: Call,
    meta1: RpcMeta,
    meta2: RpcMeta,
    out1: Option<Output>,
    out2: Option<Output>,
)
    requires
        response_of(out1) == response_view(h, call, meta1),
        response_of(out2) == response_view(h, call, meta2),
        call matches Call::MethodCall(mc) ==> !h.middleware.is_protected(mc.method@),
    ensures
        response_of(out1) == response_of(out2),
{
}

/// Every response to a response-expecting call echoes the call's id and
/// protocol version exactly, whether it is a success, an authorization
/// error, or a dispatch error.
pub proof fn lemma_response_echoes_call(
    h: RpcHandler,
    mc: MethodCall,
    meta: RpcMeta,
    out: Option<Output>,
)
    requires
        response_of(out) == response_view(h, Call::MethodCall(mc), meta),
    ensures
        out matches Some(o) && o@.id() == mc.id@ && o@.version() == mc.jsonrpc,
{
}

} // verus!
