//! The two arithmetic method handlers.
//!
//! Both are pure and total: every intermediate operation saturates at the
//! byte range, so no input can fail.

use vstd::prelude::*;
use crate::protocol::{Params, RpcError};

verus! {

/// Clamps a mathematical integer to the byte range.
pub open spec fn clamp_u8(x: int) -> u8 {
    if x > 255 {
        255u8
    } else if x < 0 {
        0u8
    } else {
        x as u8
    }
}

/// The result of the public method `g`: `a * 10 + b - 3`, each step
/// saturating at the byte range.
pub open spec fn g_result(a: u8, b: u8) -> u8 {
    clamp_u8(clamp_u8(clamp_u8(a * 10) + b) - 3)
}

/// The result of the admin method `f`: `a * 10 + b + 2`, each step
/// saturating at the byte range.
pub open spec fn f_result(a: u8, b: u8) -> u8 {
    clamp_u8(clamp_u8(clamp_u8(a * 10) + b) + 2)
}

/// Saturating multiplication by ten on bytes.
fn saturating_mul_10(a: u8) -> (r: u8)
    ensures
        r == clamp_u8(a * 10),
{
    match a.checked_mul(10) {
        Some(v) => v,
        None => u8::MAX,
    }
}

/// The handler behind the public method `g`.
pub struct MainRpcImpl;

impl MainRpcImpl {
    pub fn g(&self, a: u8, b: u8) -> (r: Result<u8, RpcError>)
        ensures
            r == Ok::<u8, RpcError>(g_result(a, b)),
    {
        Ok(saturating_mul_10(a).saturating_add(b).saturating_sub(3))
    }
}

/// The handler behind the admin method `f`.
pub struct AdminRpcImpl;

impl AdminRpcImpl {
    pub fn f(&self, a: u8, b: u8) -> (r: Result<u8, RpcError>)
        ensures
            r == Ok::<u8, RpcError>(f_result(a, b)),
    {
        Ok(saturating_mul_10(a).saturating_add(b).saturating_add(2))
    }
}

/// Names one of the registered handlers, so that a method table entry can
/// refer to it as data.
#[derive(Clone, Copy, Debug, PartialEq, Eq, Structural)]
pub enum Handler {
    MainG,
    AdminF,
}

/// The value a handler returns for the given parameters.
pub open spec fn handler_result(h: Handler, p: Params) -> u8 {
    match h {
        Handler::MainG => g_result(p.a, p.b),
        Handler::AdminF => f_result(p.a, p.b),
    }
}

impl Handler {
    /// Invokes the named handler. Both handlers are total: the call never fails.
    pub fn invoke(&self, params: Params) -> (r: Result<u8, RpcError>)
        ensures
            r == Ok::<u8, RpcError>(handler_result(*self, params)),
    {
        match self {
            Handler::MainG => MainRpcImpl.g(params.a, params.b),
            Handler::AdminF => AdminRpcImpl.f(params.a, params.b),
        }
    }
}

} // verus!
