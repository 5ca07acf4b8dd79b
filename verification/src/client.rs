//! What the client decides before it connects: whether every endpoint
//! address it was given is a URI the transport accepts.

use vstd::prelude::*;
use crate::error::Error;
use crate::options::client::ClientOptions;
use crate::transport::{endpoint_from_shared, endpoint_uri_accepted};
use tonic::codegen::http::uri::InvalidUri;
use tonic::transport::Endpoint;

verus! {

/// Whether the transport accepts every address of the list.
pub open spec fn all_accepted(addresses: Seq<Seq<char>>) -> bool {
    forall|i: int| 0 <= i < addresses.len() ==> endpoint_uri_accepted(#[trigger] addresses[i])
}

/// Takes the outcome of parsing one more address: an endpoint joins the list
/// behind those already there, and a refusal becomes the crate's invalid-URI
/// error, with the transport's reason inside.
pub fn admit_endpoint(endpoints: Vec<Endpoint>, parsed: Result<Endpoint, InvalidUri>) -> (r: Result<
    Vec<Endpoint>,
    Error,
>)
    ensures
        match parsed {
            Ok(endpoint) => r matches Ok(list) && list@ == endpoints@.push(endpoint),
            Err(reason) => r matches Err(Error::InvalidUri(inner)) && inner == reason,
        },
{
    match parsed {
        Ok(endpoint) => {
            let mut list = endpoints;
            list.push(endpoint);
            Ok(list)
        },
        Err(reason) => Err(Error::InvalidUri(reason)),
    }
}

/// Parses the endpoint addresses of the options, in their order. Where the
/// transport accepts them all there is one endpoint for each; else the first
/// refusal comes back as an invalid-URI error.
pub fn parse_endpoints(options: &ClientOptions) -> (r: Result<Vec<Endpoint>, Error>)
    ensures
        all_accepted(options@.endpoints) ==> (r matches Ok(list) && list@.len()
            == options@.endpoints.len()),
        !all_accepted(options@.endpoints) ==> r matches Err(Error::InvalidUri(_)),
{
    let addresses = options.endpoints();
    let mut list: Vec<Endpoint> = Vec::new();
    let mut i: usize = 0;
    while i < addresses.len()
        invariant
            i <= addresses@.len(),
            addresses.deep_view() == options@.endpoints,
            list@.len() == i,
            all_accepted(options@.endpoints.subrange(0, i as int)),
        decreases addresses@.len() - i,
    {
        assert(addresses.deep_view()[i as int] == addresses@[i as int]@);
        let parsed = endpoint_from_shared(&addresses[i]);
        proof {
            if parsed is Ok {
                assert forall|j: int| 0 <= j < i + 1 implies endpoint_uri_accepted(
                    #[trigger] options@.endpoints.subrange(0, i + 1)[j],
                ) by {
                    if j < i {
                        assert(options@.endpoints.subrange(0, i as int)[j]
                            == options@.endpoints.subrange(0, i + 1)[j]);
                    }
                }
            }
        }
        match admit_endpoint(list, parsed) {
            Ok(longer) => {
                list = longer;
            },
            Err(e) => {
                return Err(e);
            },
        }
        i = i + 1;
    }
    assert(options@.endpoints.subrange(0, i as int) =~= options@.endpoints);
    Ok(list)
}

} // verus!
