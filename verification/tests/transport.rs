use proxy_exerciser::fault::SetupFault;
use proxy_exerciser::proxy::{client_or_fault, get_proxy_client, proxy_address, proxy_or_fault};

#[test]
fn the_proxy_is_the_local_host_at_the_port() {
    assert_eq!(proxy_address(1080), "http://localhost:1080");
    assert_eq!(proxy_address(0), "http://localhost:0");
    assert_eq!(proxy_address(8), "http://localhost:8");
    assert_eq!(proxy_address(65535), "http://localhost:65535");
}

#[test]
fn a_client_for_a_local_proxy_can_be_made() {
    assert!(get_proxy_client(1080).is_ok());
    assert!(get_proxy_client(1).is_ok());
    assert!(get_proxy_client(65535).is_ok());
}

#[test]
fn the_handle_can_be_shared() {
    let handle = get_proxy_client(1080).unwrap();
    let other = handle.clone();
    assert_eq!(std::sync::Arc::strong_count(&handle), 2);
    assert_eq!(std::sync::Arc::strong_count(&other), 2);
}

#[test]
fn a_rejected_address_is_a_setup_fault() {
    let rejected = reqwest::Proxy::http("");
    assert!(rejected.is_err());
    assert!(matches!(proxy_or_fault(rejected), Err(SetupFault::ProxyAddress)));
    let accepted = reqwest::Proxy::http("http://localhost:1080");
    assert!(accepted.is_ok());
    assert!(proxy_or_fault(accepted).is_ok());
}

#[test]
fn a_client_that_was_built_is_handed_on() {
    let built = reqwest::Client::builder().build();
    assert!(built.is_ok());
    assert!(client_or_fault(built).is_ok());
}

#[test]
fn a_client_that_was_not_built_is_a_setup_fault() {
    // A header value with a line break is refused when the client is built.
    let built = reqwest::Client::builder().user_agent("a\nb").build();
    assert!(built.is_err());
    assert!(matches!(client_or_fault(built), Err(SetupFault::ClientBuild)));
}
