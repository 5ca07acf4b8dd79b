//! Everything this crate takes on trust from the transport, `tonic`: the
//! types that option values and errors carry through unread, and the one
//! computation asked of it, whether an endpoint address is a URI.

use vstd::prelude::*;
use tonic::codegen::http::uri::InvalidUri;
use tonic::transport::{Channel, Endpoint};
use tonic::Status;

verus! {

/// `tonic::transport::Channel`, the pre-constructed RPC channel. The value is
/// carried through unread.
#[verifier::external_type_specification]
#[verifier::external_body]
pub struct ExChannel(Channel);

/// `tonic::transport::Endpoint`, one parsed endpoint address. The value is
/// carried through unread.
#[verifier::external_type_specification]
#[verifier::external_body]
pub struct ExEndpoint(Endpoint);

/// `http::uri::InvalidUri`, the reason an endpoint address was not accepted.
/// The value is carried through unread.
#[verifier::external_type_specification]
#[verifier::external_body]
pub struct ExInvalidUri(InvalidUri);

/// `tonic::Status`, the status an RPC ended with. The value is carried
/// through unread.
#[verifier::external_type_specification]
#[verifier::external_body]
pub struct ExStatus(Status);

/// `Channel::clone`: a second handle to the channel. Nothing is claimed of
/// it.
pub assume_specification[ <Channel as Clone>::clone ](channel: &Channel) -> (r: Channel)
;

/// Whether the transport accepts the text as the URI of an endpoint.
pub uninterp spec fn endpoint_uri_accepted(address: Seq<char>) -> bool;

/// `tonic::transport::Channel::from_shared`: parses the address as a URI and
/// makes an endpoint of it. What is claimed: the call succeeds exactly on the
/// addresses that `endpoint_uri_accepted` names, that is, whether it succeeds
/// depends on the text of the address alone. Nothing is claimed of the
/// endpoint or of the reason for a refusal.
#[verifier::external_body]
pub(crate) fn endpoint_from_shared(address: &String) -> (r: Result<Endpoint, InvalidUri>)
    ensures
        r is Ok == endpoint_uri_accepted(address@),
{
    Channel::from_shared(address.clone())
}

} // verus!
