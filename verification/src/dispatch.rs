//! The merged method table and the dispatcher.
//!
//! The table maps method names to handlers and is built once at startup;
//! lookup resolves a name to its latest registration, so a name registered
//! twice is served by the later entry.

use vstd::prelude::*;
use crate::metadata::RpcMeta;
use crate::methods::{handler_result, Handler};
use crate::protocol::{ErrorCode, MethodCall, Output, OutputView, RpcError, RpcErrorView};

verus! {

/// One entry of the method table.
#[derive(Debug, PartialEq, Eq)]
pub struct Method {
    pub name: String,
    pub handler: Handler,
    pub protected: bool,
}

/// Spec-level shape of a [`Method`]: the name as a sequence of characters.
pub struct MethodView {
    pub name: Seq<char>,
    pub handler: Handler,
    pub protected: bool,
}

impl View for Method {
    type V = MethodView;

    open spec fn view(&self) -> MethodView {
        MethodView { name: self.name@, handler: self.handler, protected: self.protected }
    }
}

/// The entry that a lookup of `name` resolves to: the last entry of the
/// table carrying that name, if any.
pub open spec fn lookup_in(methods: Seq<Method>, name: Seq<char>) -> Option<MethodView>
    decreases methods.len(),
{
    if methods.len() == 0 {
        None
    } else if methods.last().name@ == name {
        Some(methods.last()@)
    } else {
        lookup_in(methods.drop_last(), name)
    }
}

/// Resolves an incoming call's method name to a handler, invokes it, and
/// packages its result into a protocol response.
pub struct Dispatcher {
    pub methods: Vec<Method>,
}

impl Dispatcher {
    /// The table entry serving this method name, if any.
    pub open spec fn spec_lookup(self, name: Seq<char>) -> Option<MethodView> {
        lookup_in(self.methods@, name)
    }

    /// The response this dispatcher produces for a response-expecting call:
    /// the handler's result on the call's parameters when the name resolves,
    /// and the MethodNotFound error when it does not, in both cases
    /// correlated to the call's id and protocol version.
    pub open spec fn dispatch_view(self, call: MethodCall) -> OutputView {
        match self.spec_lookup(call.method@) {
            Some(m) => OutputView::Success {
                jsonrpc: call.jsonrpc,
                result: handler_result(m.handler, call.params),
                id: call.id@,
            },
            None => OutputView::Failure {
                jsonrpc: call.jsonrpc,
                error: RpcErrorView {
                    code: ErrorCode::MethodNotFound,
                    message: ErrorCode::MethodNotFound.spec_description(),
                    data: None,
                },
                id: call.id@,
            },
        }
    }

    /// The table entry serving this method name, if any.
    fn lookup(&self, name: &String) -> (r: Option<&Method>)
        ensures
            match self.spec_lookup(name@) {
                None => r is None,
                Some(mv) => r matches Some(m) && m@ == mv,
            },
    {
        let mut i: usize = self.methods.len();
        proof {
            assert(self.methods@.take(i as int) =~= self.methods@);
        }
        while i > 0
            invariant
                i <= self.methods@.len(),
                lookup_in(self.methods@.take(i as int), name@) == self.spec_lookup(name@),
            decreases i,
        {
            i = i - 1;
            proof {
                assert(self.methods@.take(i + 1).last() == self.methods@[i as int]);
                assert(self.methods@.take(i + 1).drop_last() =~= self.methods@.take(i as int));
            }
            if self.methods[i].name.eq(name) {
                return Some(&self.methods[i]);
            }
        }
        None
    }

    /// Handles a response-expecting call.
    ///
    /// The metadata plays no part here: authorization is the middleware's
    /// concern, and the handlers do not read it.
    pub fn dispatch(&self, call: &MethodCall, _meta: &RpcMeta) -> (out: Output)
        ensures
            out@ == self.dispatch_view(*call),
    {
        match self.lookup(&call.method) {
            Some(m) => {
                let result = m.handler.invoke(call.params);
                Output::from(result, call.id.clone(), call.jsonrpc)
            },
            None => Output::from(
                Err(RpcError::new(ErrorCode::MethodNotFound)),
                call.id.clone(),
                call.jsonrpc,
            ),
        }
    }
}

} // verus!
