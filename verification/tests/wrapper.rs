use tx_listener::{ClientError, ClientMiddleware};

#[derive(Debug, PartialEq, Eq)]
struct NodeError {
    code: i64,
    message: String,
}

fn timeout() -> NodeError {
    NodeError { code: -32000, message: String::from("request timed out") }
}

#[test]
fn new_takes_ownership_and_inner_gives_it_back() {
    let client = ClientMiddleware::new(String::from("node"));
    assert_eq!(client.inner(), "node");
    assert_eq!(client.inner().len(), 4);
}

#[test]
fn layers_nest() {
    let outer = ClientMiddleware::new(ClientMiddleware::new(17u64));
    assert_eq!(*outer.inner().inner(), 17u64);
}

#[test]
fn forward_hands_on_success_unchanged() {
    let client = ClientMiddleware::new(0u8);
    let reply: Result<String, NodeError> = Ok(String::from("Geth/v1.10.26"));
    assert_eq!(client.forward(reply), Ok(String::from("Geth/v1.10.26")));
    let height: Result<u64, NodeError> = Ok(16_000_000);
    assert_eq!(client.forward(height), Ok(16_000_000u64));
    let absent: Result<Option<u64>, NodeError> = Ok(None);
    assert_eq!(client.forward(absent), Ok(None));
}

#[test]
fn forward_retags_failure() {
    let client = ClientMiddleware::new(0u8);
    let reply: Result<u64, NodeError> = Err(timeout());
    assert_eq!(client.forward(reply), Err(ClientError::MiddlewareError(timeout())));
}

#[test]
fn forwarded_error_is_recovered_unchanged() {
    let client = ClientMiddleware::new(0u8);
    let reply: Result<u64, NodeError> = Err(timeout());
    match client.forward(reply) {
        Ok(_) => panic!("a failure came through as a success"),
        Err(err) => {
            assert_eq!(*err.as_inner(), timeout());
            assert_eq!(err.into_inner(), timeout());
        }
    }
}

#[test]
fn from_wraps_under_the_one_variant() {
    let err = ClientError::from(timeout());
    assert_eq!(err, ClientError::MiddlewareError(timeout()));
    assert_ne!(err, ClientError::MiddlewareError(NodeError { code: 1, message: String::new() }));
    let ClientError::MiddlewareError(cause) = err;
    assert_eq!(cause.code, -32000);
    assert_eq!(cause.message, "request timed out");
}

#[test]
fn two_layers_wrap_twice() {
    let lower = ClientMiddleware::new(0u8);
    let upper = ClientMiddleware::new(ClientMiddleware::new(0u8));
    let reply: Result<u64, NodeError> = Err(timeout());
    let through_both = upper.forward(lower.forward(reply));
    assert_eq!(
        through_both,
        Err(ClientError::MiddlewareError(ClientError::MiddlewareError(timeout())))
    );
    match through_both {
        Ok(_) => panic!("a failure came through as a success"),
        Err(err) => assert_eq!(err.into_inner().into_inner(), timeout()),
    }
    let fine: Result<u64, NodeError> = Ok(5);
    assert_eq!(upper.forward(lower.forward(fine)), Ok(5u64));
}
