//! The transport handles that the connection carries, and the calls that
//! create them. The contracts of the three wrappers are not proved: each
//! restates what the named function of `tonic` or `tokio` does.

use crate::client::ClientError;
use vstd::prelude::*;

verus! {

/// `tonic::transport::Endpoint`: a parsed target address. Opaque here.
#[verifier::external_type_specification]
#[verifier::external_body]
pub struct ExEndpoint(tonic::transport::Endpoint);

/// `tonic::transport::Channel`: the shared, cloneable connection handle.
/// Opaque here.
#[verifier::external_type_specification]
#[verifier::external_body]
pub struct ExChannel(tonic::transport::Channel);

/// `http::uri::InvalidUri`: why an address was not accepted. Opaque here.
#[verifier::external_type_specification]
#[verifier::external_body]
pub struct ExInvalidUri(tonic::codegen::http::uri::InvalidUri);

/// `tokio::runtime::Handle`: a handle to a running Tokio runtime. Opaque
/// here.
#[verifier::external_type_specification]
#[verifier::external_body]
pub struct ExRuntimeHandle(tokio::runtime::Handle);

/// `tokio::runtime::TryCurrentError`: no runtime surrounds the caller.
/// Opaque here.
#[verifier::external_type_specification]
#[verifier::external_body]
pub struct ExTryCurrentError(tokio::runtime::TryCurrentError);

/// `tokio::sync::mpsc::Sender`: the sending half of a bounded queue. Opaque
/// here.
#[verifier::external_type_specification]
#[verifier::external_body]
#[verifier::reject_recursive_types(T)]
pub struct ExSender<T>(tokio::sync::mpsc::Sender<T>);

/// Whether `tonic::transport::Channel::from_shared` accepts the text as a
/// target address, which it does exactly when the text parses as a URI.
pub uninterp spec fn accepted_address(addr: Seq<char>) -> bool;

/// `tonic::transport::Channel::from_shared`: parses the address as a URI.
/// The outcome depends on the text alone, so `accepted_address` names it.
#[verifier::external_body]
fn endpoint_from_shared(addr: String) -> (r: Result<
    tonic::transport::Endpoint,
    tonic::codegen::http::uri::InvalidUri,
>)
    ensures
        r.is_ok() == accepted_address(addr@),
{
    tonic::transport::Channel::from_shared(addr)
}

/// A target address that this crate parsed. It holds the endpoint as
/// `Channel::from_shared` made it, with every setting at tonic's default;
/// only [`ParsedEndpoint::parse`] makes one and nothing changes it.
pub struct ParsedEndpoint {
    endpoint: tonic::transport::Endpoint,
}

impl ParsedEndpoint {
    /// Parses the server address. It succeeds exactly on the texts that
    /// tonic accepts as a URI, and refuses the others as
    /// [`ClientError::InvalidAddress`].
    pub fn parse(addr: String) -> (r: Result<ParsedEndpoint, ClientError>)
        ensures
            r.is_ok() == accepted_address(addr@),
            r matches Err(e) ==> e == ClientError::InvalidAddress,
    {
        match endpoint_from_shared(addr) {
            Ok(endpoint) => Ok(ParsedEndpoint { endpoint }),
            Err(_) => Err(ClientError::InvalidAddress),
        }
    }
}

/// `tokio::runtime::Handle::try_current`: the runtime that surrounds the
/// calling thread, if there is one. It depends on where the call is made,
/// so nothing is claimed of the result.
#[verifier::external_body]
pub(crate) fn current_runtime() -> Result<tokio::runtime::Handle, tokio::runtime::TryCurrentError> {
    tokio::runtime::Handle::try_current()
}

/// `tonic::transport::Endpoint::connect_lazy`, called inside the given
/// runtime (`Handle::enter`), where it can spawn its worker. The endpoint
/// has tonic's default settings, no rate limit and the default buffer size
/// among them, under which the connection stack is built without a check
/// that could fail. The channel does not connect before its first use.
#[verifier::external_body]
pub(crate) fn connect_lazy_on(
    endpoint: &ParsedEndpoint,
    runtime: &tokio::runtime::Handle,
) -> tonic::transport::Channel {
    let _entered = runtime.enter();
    endpoint.endpoint.connect_lazy()
}

} // verus!
