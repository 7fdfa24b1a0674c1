use rpc_guard::methods::{AdminRpcImpl, MainRpcImpl};

#[test]
fn g_computes_its_formula() {
    assert_eq!(MainRpcImpl.g(5, 3), Ok(50));
    assert_eq!(MainRpcImpl.g(0, 0), Ok(0));
    assert_eq!(MainRpcImpl.g(0, 2), Ok(0));
    assert_eq!(MainRpcImpl.g(1, 0), Ok(7));
}

#[test]
fn g_saturates_each_step() {
    assert_eq!(MainRpcImpl.g(255, 255), Ok(252));
    assert_eq!(MainRpcImpl.g(25, 5), Ok(252));
    assert_eq!(MainRpcImpl.g(26, 0), Ok(252));
}

#[test]
fn f_computes_its_formula() {
    assert_eq!(AdminRpcImpl.f(5, 3), Ok(55));
    assert_eq!(AdminRpcImpl.f(0, 0), Ok(2));
    assert_eq!(AdminRpcImpl.f(1, 1), Ok(13));
}

#[test]
fn f_saturates_each_step() {
    assert_eq!(AdminRpcImpl.f(255, 255), Ok(255));
    assert_eq!(AdminRpcImpl.f(25, 4), Ok(255));
    assert_eq!(AdminRpcImpl.f(25, 3), Ok(255));
    assert_eq!(AdminRpcImpl.f(25, 2), Ok(254));
}
