use rpc_guard::metadata::{extract_metadata, RpcMeta};
use rpc_guard::methods::Handler;
use rpc_guard::protocol::{
    Call, ErrorCode, Failure, Id, MethodCall, Notification, Output, Params, RpcError, Success,
    Version,
};
use rpc_guard::server::{Registration, RpcHandler};

fn handler() -> RpcHandler {
    RpcHandler::new(
        vec![Registration { name: "g".to_string(), handler: Handler::MainG }],
        vec![Registration { name: "f".to_string(), handler: Handler::AdminF }],
    )
}

fn method_call(method: &str, a: u8, b: u8, id: Id) -> Call {
    Call::MethodCall(MethodCall {
        jsonrpc: Some(Version::V2),
        method: method.to_string(),
        params: Params { a, b },
        id,
    })
}

fn meta_with(header: Option<&[u8]>) -> RpcMeta {
    let bytes = header.map(|h| h.to_vec());
    extract_metadata(bytes.as_ref())
}

fn success(result: u8, id: Id) -> Option<Output> {
    Some(Output::Success(Success { jsonrpc: Some(Version::V2), result, id }))
}

fn invalid_request(message: &str, id: Id) -> Option<Output> {
    Some(Output::Failure(Failure {
        jsonrpc: Some(Version::V2),
        error: RpcError {
            code: ErrorCode::InvalidRequest,
            message: message.to_string(),
            data: None,
        },
        id,
    }))
}

#[test]
fn public_method_without_header_succeeds() {
    let out = handler().handle_call(&method_call("g", 5, 3, Id::Num(1)), &meta_with(None));
    assert_eq!(out, success(50, Id::Num(1)));
}

#[test]
fn protected_method_without_header_is_denied() {
    let out = handler().handle_call(&method_call("f", 5, 3, Id::Num(1)), &meta_with(None));
    assert_eq!(out, invalid_request("X-Admin-Auth header required", Id::Num(1)));
}

#[test]
fn protected_method_with_root_header_succeeds() {
    let out = handler().handle_call(&method_call("f", 5, 3, Id::Num(1)), &meta_with(Some(b"root")));
    assert_eq!(out, success(55, Id::Num(1)));
}

#[test]
fn protected_method_with_wrong_header_is_denied() {
    let out = handler().handle_call(&method_call("f", 5, 3, Id::Num(1)), &meta_with(Some(b"toor")));
    assert_eq!(out, invalid_request("X-Admin-Auth must be 'root'", Id::Num(1)));
}

#[test]
fn saturation_holds_at_every_step() {
    let out =
        handler().handle_call(&method_call("f", 255, 255, Id::Num(7)), &meta_with(Some(b"root")));
    assert_eq!(out, success(255, Id::Num(7)));
}

#[test]
fn saturation_clamps_to_zero() {
    let out = handler().handle_call(&method_call("g", 0, 0, Id::Num(2)), &meta_with(None));
    assert_eq!(out, success(0, Id::Num(2)));
}

#[test]
fn protected_method_with_undecodable_header_reports_the_parse_error() {
    let out =
        handler().handle_call(&method_call("f", 1, 1, Id::Num(1)), &meta_with(Some(&[b'r', 0xFF])));
    assert_eq!(
        out,
        invalid_request(
            "X-Admin-Auth header value must contain only visible ASCII characters",
            Id::Num(1),
        ),
    );
}

#[test]
fn public_method_ignores_malformed_header() {
    let out = handler().handle_call(&method_call("g", 5, 3, Id::Num(3)), &meta_with(Some(&[0xFF])));
    assert_eq!(out, success(50, Id::Num(3)));
}

#[test]
fn public_method_ignores_wrong_header() {
    let out = handler().handle_call(&method_call("g", 5, 3, Id::Num(3)), &meta_with(Some(b"toor")));
    assert_eq!(out, success(50, Id::Num(3)));
}

#[test]
fn root_header_gives_the_handlers_own_result() {
    let direct = rpc_guard::methods::AdminRpcImpl.f(9, 4).unwrap();
    let out = handler().handle_call(&method_call("f", 9, 4, Id::Num(5)), &meta_with(Some(b"root")));
    assert_eq!(out, success(direct, Id::Num(5)));
}

#[test]
fn unknown_method_is_not_found() {
    let out = handler().handle_call(&method_call("h", 5, 3, Id::Num(4)), &meta_with(None));
    assert_eq!(
        out,
        Some(Output::Failure(Failure {
            jsonrpc: Some(Version::V2),
            error: RpcError {
                code: ErrorCode::MethodNotFound,
                message: "Method not found".to_string(),
                data: None,
            },
            id: Id::Num(4),
        })),
    );
}

#[test]
fn response_echoes_string_id_and_version() {
    let out = handler().handle_call(
        &method_call("g", 1, 2, Id::Str("abc".to_string())),
        &meta_with(None),
    );
    assert_eq!(out, success(9, Id::Str("abc".to_string())));
}

#[test]
fn response_echoes_absent_version() {
    let call = Call::MethodCall(MethodCall {
        jsonrpc: None,
        method: "g".to_string(),
        params: Params { a: 1, b: 2 },
        id: Id::Null,
    });
    let out = handler().handle_call(&call, &meta_with(None));
    assert_eq!(
        out,
        Some(Output::Success(Success { jsonrpc: None, result: 9, id: Id::Null })),
    );
}

#[test]
fn notification_produces_no_response() {
    let call = Call::Notification(Notification {
        jsonrpc: Some(Version::V2),
        method: "g".to_string(),
        params: Params { a: 5, b: 3 },
    });
    assert_eq!(handler().handle_call(&call, &meta_with(None)), None);
}

#[test]
fn protected_notification_bypasses_the_guard() {
    let call = Call::Notification(Notification {
        jsonrpc: Some(Version::V2),
        method: "f".to_string(),
        params: Params { a: 5, b: 3 },
    });
    assert_eq!(handler().handle_call(&call, &meta_with(None)), None);
}

#[test]
fn invalid_call_is_answered_with_invalid_request() {
    let out = handler().handle_call(&Call::Invalid { id: Id::Num(9) }, &meta_with(None));
    assert_eq!(out, invalid_request("Invalid request", Id::Num(9)));
}

#[test]
fn admin_registration_overrides_public_entry_but_stays_protected() {
    let h = RpcHandler::new(
        vec![Registration { name: "f".to_string(), handler: Handler::MainG }],
        vec![Registration { name: "f".to_string(), handler: Handler::AdminF }],
    );
    let denied = h.handle_call(&method_call("f", 5, 3, Id::Num(1)), &meta_with(None));
    assert_eq!(denied, invalid_request("X-Admin-Auth header required", Id::Num(1)));
    let out = h.handle_call(&method_call("f", 5, 3, Id::Num(1)), &meta_with(Some(b"root")));
    assert_eq!(out, success(55, Id::Num(1)));
}

#[test]
fn error_codes_match_the_wire_protocol() {
    assert_eq!(ErrorCode::InvalidRequest.code(), -32600);
    assert_eq!(ErrorCode::MethodNotFound.code(), -32601);
}
