//! The JSON-RPC envelope, modelled as plain data.
//!
//! These types mirror the wire protocol's request and response units:
//! a call names a method and carries parameters and a correlation id;
//! an output is either a success payload or a structured error, always
//! correlated to the originating id and protocol version.

use vstd::prelude::*;

verus! {

/// Protocol version carried in the envelope (`"jsonrpc": "2.0"`).
#[derive(Clone, Copy, Debug, PartialEq, Eq, Structural)]
pub enum Version {
    V2,
}

/// Correlation id of a call: null, a number, or a string.
#[derive(Debug, PartialEq, Eq)]
pub enum Id {
    Null,
    Num(u64),
    Str(String),
}

/// Spec-level shape of an [`Id`]: the string variant as a sequence of characters.
pub enum IdView {
    Null,
    Num(u64),
    Str(Seq<char>),
}

impl View for Id {
    type V = IdView;

    open spec fn view(&self) -> IdView {
        match self {
            Id::Null => IdView::Null,
            Id::Num(n) => IdView::Num(*n),
            Id::Str(s) => IdView::Str(s@),
        }
    }
}

impl Clone for Id {
    fn clone(&self) -> (r: Self)
        ensures
            r == *self,
    {
        match self {
            Id::Null => Id::Null,
            Id::Num(n) => Id::Num(*n),
            Id::Str(s) => Id::Str(s.clone()),
        }
    }
}

/// Parameters of the two arithmetic methods: a pair of bytes.
#[derive(Clone, Copy, Debug, PartialEq, Eq, Structural)]
pub struct Params {
    pub a: u8,
    pub b: u8,
}

/// A parsed request envelope expecting a response.
#[derive(Debug, PartialEq, Eq)]
pub struct MethodCall {
    pub jsonrpc: Option<Version>,
    pub method: String,
    pub params: Params,
    pub id: Id,
}

/// A parsed fire-and-forget envelope: no id, so no response is produced.
#[derive(Debug, PartialEq, Eq)]
pub struct Notification {
    pub jsonrpc: Option<Version>,
    pub method: String,
    pub params: Params,
}

/// Any parsed request envelope.
#[derive(Debug, PartialEq, Eq)]
pub enum Call {
    MethodCall(MethodCall),
    Notification(Notification),
    Invalid { id: Id },
}

/// The error class of a response.
#[derive(Clone, Copy, Debug, PartialEq, Eq, Structural)]
pub enum ErrorCode {
    InvalidRequest,
    MethodNotFound,
}

impl ErrorCode {
    /// The numeric code sent on the wire for this error class.
    pub open spec fn spec_code(self) -> i64 {
        match self {
            ErrorCode::InvalidRequest => -32600i64,
            ErrorCode::MethodNotFound => -32601i64,
        }
    }

    pub fn code(&self) -> (c: i64)
        ensures
            c == self.spec_code(),
    {
        match self {
            ErrorCode::InvalidRequest => -32600i64,
            ErrorCode::MethodNotFound => -32601i64,
        }
    }

    /// The human-readable description of this error class.
    pub open spec fn spec_description(self) -> Seq<char> {
        match self {
            ErrorCode::InvalidRequest => "Invalid request"@,
            ErrorCode::MethodNotFound => "Method not found"@,
        }
    }

    pub fn description(&self) -> (s: String)
        ensures
            s@ == self.spec_description(),
    {
        match self {
            ErrorCode::InvalidRequest => "Invalid request".to_owned(),
            ErrorCode::MethodNotFound => "Method not found".to_owned(),
        }
    }
}

/// A structured response error: a class, a message, and optional data.
#[derive(Debug, PartialEq, Eq)]
pub struct RpcError {
    pub code: ErrorCode,
    pub message: String,
    pub data: Option<String>,
}

/// Spec-level shape of an [`RpcError`].
pub struct RpcErrorView {
    pub code: ErrorCode,
    pub message: Seq<char>,
    pub data: Option<Seq<char>>,
}

impl View for RpcError {
    type V = RpcErrorView;

    open spec fn view(&self) -> RpcErrorView {
        RpcErrorView {
            code: self.code,
            message: self.message@,
            data: match self.data {
                None => None,
                Some(d) => Some(d@),
            },
        }
    }
}

impl RpcError {
    /// An error of the given class whose message is the class description.
    pub fn new(code: ErrorCode) -> (e: RpcError)
        ensures
            e@ == (RpcErrorView { code, message: code.spec_description(), data: None }),
    {
        RpcError { code, message: code.description(), data: None }
    }
}

/// A response unit: a success payload or an error, correlated to an id.
#[derive(Debug, PartialEq, Eq)]
pub enum Output {
    Success(Success),
    Failure(Failure),
}

/// A successful response carrying the handler's result.
#[derive(Debug, PartialEq, Eq)]
pub struct Success {
    pub jsonrpc: Option<Version>,
    pub result: u8,
    pub id: Id,
}

/// A failed response carrying a structured error.
#[derive(Debug, PartialEq, Eq)]
pub struct Failure {
    pub jsonrpc: Option<Version>,
    pub error: RpcError,
    pub id: Id,
}

/// Spec-level shape of an [`Output`].
pub enum OutputView {
    Success { jsonrpc: Option<Version>, result: u8, id: IdView },
    Failure { jsonrpc: Option<Version>, error: RpcErrorView, id: IdView },
}

impl View for Output {
    type V = OutputView;

    open spec fn view(&self) -> OutputView {
        match self {
            Output::Success(s) => OutputView::Success {
                jsonrpc: s.jsonrpc,
                result: s.result,
                id: s.id@,
            },
            Output::Failure(f) => OutputView::Failure {
                jsonrpc: f.jsonrpc,
                error: f.error@,
                id: f.id@,
            },
        }
    }
}

impl OutputView {
    /// The correlation id of the response.
    pub open spec fn id(self) -> IdView {
        match self {
            OutputView::Success { id, .. } => id,
            OutputView::Failure { id, .. } => id,
        }
    }

    /// The protocol version of the response.
    pub open spec fn version(self) -> Option<Version> {
        match self {
            OutputView::Success { jsonrpc, .. } => jsonrpc,
            OutputView::Failure { jsonrpc, .. } => jsonrpc,
        }
    }
}

/// The response shape for a malformed request envelope.
pub open spec fn invalid_request_view(jsonrpc: Option<Version>, id: IdView) -> OutputView {
    OutputView::Failure {
        jsonrpc,
        error: RpcErrorView {
            code: ErrorCode::InvalidRequest,
            message: ErrorCode::InvalidRequest.spec_description(),
            data: None,
        },
        id,
    }
}

impl Output {
    /// Wraps a handler result into a response correlated with the call.
    pub fn from(result: Result<u8, RpcError>, id: Id, jsonrpc: Option<Version>) -> (out: Output)
        ensures
            out@ == match result {
                Ok(v) => OutputView::Success { jsonrpc, result: v, id: id@ },
                Err(e) => OutputView::Failure { jsonrpc, error: e@, id: id@ },
            },
    {
        match result {
            Ok(result) => Output::Success(Success { jsonrpc, result, id }),
            Err(error) => Output::Failure(Failure { jsonrpc, error, id }),
        }
    }

    /// A failure response indicating a malformed request envelope.
    pub fn invalid_request(id: Id, jsonrpc: Option<Version>) -> (out: Output)
        ensures
            out@ == invalid_request_view(jsonrpc, id@),
    {
        Output::Failure(Failure { id, jsonrpc, error: RpcError::new(ErrorCode::InvalidRequest) })
    }
}

} // verus!
