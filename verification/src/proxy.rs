//! The handle through which every test request reaches the proxy under test.

use crate::decimal::{decimal, push_decimal};
use crate::fault::SetupFault;
use std::sync::Arc;
use vstd::prelude::*;

verus! {

/// `reqwest::Client`, the transport handle. Nothing inside it is visible
/// here; it is only made and handed on.
#[verifier::external_type_specification]
#[verifier::external_body]
pub struct ExClient(reqwest::Client);

/// `reqwest::Proxy`, the description of a proxy that a client is built with.
#[verifier::external_type_specification]
#[verifier::external_body]
pub struct ExProxy(reqwest::Proxy);

/// `reqwest::Error`, the error of every fallible call into the HTTP library.
#[verifier::external_type_specification]
#[verifier::external_body]
pub struct ExError(reqwest::Error);

/// Whether `reqwest::Proxy::http` takes the text as the address of a proxy.
/// It does so when the text parses as a URL with a host, as it stands or
/// with `http://` put before it.
pub uninterp spec fn accepted_as_proxy(address: Seq<char>) -> bool;

/// The address of the proxy under test: the local host at the given port.
pub open spec fn proxy_address_text(port: u16) -> Seq<char> {
    "http://localhost:"@ + decimal(port as nat)
}

/// The address of the proxy under test: the local host at the given port.
pub fn proxy_address(port: u16) -> (address: String)
    ensures
        address@ == proxy_address_text(port),
{
    let mut address = String::from_str("http://localhost:");
    push_decimal(&mut address, port as u128);
    address
}

/// Calls `reqwest::Proxy::http`, which parses the address and, if it is a
/// URL, describes a proxy for all plain-HTTP traffic. The outcome depends on
/// the text alone; the contract names it and says nothing of the proxy made.
#[verifier::external_body]
fn parse_proxy(address: &str) -> (parsed: Result<reqwest::Proxy, reqwest::Error>)
    ensures
        parsed is Ok <==> accepted_as_proxy(address@),
{
    reqwest::Proxy::http(address)
}

/// Calls `reqwest::Client::builder`, hands the builder the proxy and builds
/// the client. Nothing is claimed of the outcome.
#[verifier::external_body]
fn build_client(proxy: reqwest::Proxy) -> (built: Result<reqwest::Client, reqwest::Error>) {
    reqwest::Client::builder().proxy(proxy).build()
}

/// Turns the outcome of parsing the proxy's address into the library's own
/// terms: a rejected address is a setup fault.
pub fn proxy_or_fault(parsed: Result<reqwest::Proxy, reqwest::Error>) -> (proxy: Result<
    reqwest::Proxy,
    SetupFault,
>)
    ensures
        match parsed {
            Ok(made) => proxy == Ok::<reqwest::Proxy, SetupFault>(made),
            Err(_) => proxy == Err::<reqwest::Proxy, SetupFault>(SetupFault::ProxyAddress),
        },
{
    match parsed {
        Ok(made) => Ok(made),
        Err(_) => Err(SetupFault::ProxyAddress),
    }
}

/// Turns the outcome of building the client into the library's own terms: a
/// client that was built is put behind a shared handle, and a failure is a
/// setup fault.
pub fn client_or_fault(built: Result<reqwest::Client, reqwest::Error>) -> (handle: Result<
    Arc<reqwest::Client>,
    SetupFault,
>)
    ensures
        match built {
            Ok(client) => handle matches Ok(shared) && *shared == client,
            Err(_) => handle == Err::<Arc<reqwest::Client>, SetupFault>(SetupFault::ClientBuild),
        },
{
    match built {
        Ok(client) => Ok(Arc::new(client)),
        Err(_) => Err(SetupFault::ClientBuild),
    }
}

/// Makes a transport handle that routes every request through
/// `http://localhost:<port>`. The handle can be shared by any number of
/// requests in flight.
///
/// The address is rejected exactly when the HTTP library does not take it;
/// whether a client can then be built is the HTTP library's to say.
pub fn get_proxy_client(port: u16) -> (handle: Result<Arc<reqwest::Client>, SetupFault>)
    ensures
        handle == Err::<Arc<reqwest::Client>, SetupFault>(SetupFault::ProxyAddress)
            <==> !accepted_as_proxy(proxy_address_text(port)),
        handle matches Err(fault) ==> fault == SetupFault::ProxyAddress || fault
            == SetupFault::ClientBuild,
{
    let address = proxy_address(port);
    match proxy_or_fault(parse_proxy(address.as_str())) {
        Err(fault) => Err(fault),
        Ok(proxy) => client_or_fault(build_client(proxy)),
    }
}

} // verus!
