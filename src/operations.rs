use vstd::prelude::*;

use crate::error::ApiError;
use crate::options::{InspectNetworkQueryParams, ListNetworksQueryParams, PruneNetworksQueryParams};
use crate::query::{entry_keys_unique, json_object_text};
use crate::request::{
    build_request, network_path, network_path_of, serialize_payload, transpose_option,
    RequestMethod, RequestSpec,
};

verus! {

// One request builder per network operation. Mutating operations take the
// outcome of writing their options as JSON; query options are encoded here.

/// The request of the create-network operation: `POST /networks/create`, no
/// query, the options' JSON as body.
pub fn create_network_request(payload: Result<Vec<u8>, serde_json::Error>) -> (r: Result<
    RequestSpec,
    ApiError,
>)
    ensures
        payload matches Ok(b) ==> (r matches Ok(q) && q.has_parts(
            RequestMethod::Post,
            "/networks/create"@,
            Seq::empty(),
            b@,
        )),
        payload matches Err(e) ==> r == Err::<RequestSpec, ApiError>(
            ApiError::JsonSerializeError { err: e },
        ),
{
    build_request(
        RequestMethod::Post,
        "/networks/create".to_owned(),
        Ok(None),
        serialize_payload(payload),
    )
}

/// The request of the remove-network operation: `DELETE /networks/{name}`,
/// no query, no body.
pub fn remove_network_request(network_name: &str) -> (r: Result<RequestSpec, ApiError>)
    ensures
        r matches Ok(q) && q.has_parts(
            RequestMethod::Delete,
            network_path(network_name@, ""@),
            Seq::empty(),
            Seq::empty(),
        ),
{
    build_request(
        RequestMethod::Delete,
        network_path_of(network_name, ""),
        Ok(None),
        Ok(Vec::new()),
    )
}

/// The request of the inspect-network operation: `GET /networks/{name}`, no
/// body, and the query pairs of the options, none when there are no options.
pub fn inspect_network_request<Q: InspectNetworkQueryParams>(
    network_name: &str,
    options: Option<Q>,
) -> (r: Result<RequestSpec, ApiError>)
    ensures
        r matches Ok(q) && q.has_parts(
            RequestMethod::Get,
            network_path(network_name@, ""@),
            match options {
                Some(o) => o.query_spec(),
                None => Seq::empty(),
            },
            Seq::empty(),
        ),
{
    let query = match options {
        Some(o) => Some(o.into_array()),
        None => None,
    };
    build_request(
        RequestMethod::Get,
        network_path_of(network_name, ""),
        transpose_option(query),
        Ok(Vec::new()),
    )
}

/// The request of the list-networks operation: `GET /networks`, no body, no
/// query without options, and with options the single pair `filters` holding
/// the JSON object of the filter map (`{}` for an empty map). The filter keys
/// must be unique.
pub fn list_networks_request<Q: ListNetworksQueryParams>(options: Option<Q>) -> (r: Result<
    RequestSpec,
    ApiError,
>)
    requires
        options matches Some(o) ==> entry_keys_unique(o.filters_spec()),
    ensures
        options is None ==> (r matches Ok(q) && q.has_parts(
            RequestMethod::Get,
            "/networks"@,
            Seq::empty(),
            Seq::empty(),
        )),
        options matches Some(o) ==> (r matches Ok(q) && q.has_parts(
            RequestMethod::Get,
            "/networks"@,
            seq![("filters"@, json_object_text(o.filters_spec()))],
            Seq::empty(),
        )),
        options matches Some(o) ==> (o.filters_spec().len() == 0 ==> (r matches Ok(q)
            && q.query_view() == seq![("filters"@, seq!['{', '}'])])),
{
    let query = match options {
        Some(o) => Some(o.into_array()),
        None => None,
    };
    build_request(RequestMethod::Get, "/networks".to_owned(), transpose_option(query), Ok(Vec::new()))
}

/// The request of the connect-network operation:
/// `POST /networks/{name}/connect`, no query, the options' JSON as body.
pub fn connect_network_request(
    network_name: &str,
    payload: Result<Vec<u8>, serde_json::Error>,
) -> (r: Result<RequestSpec, ApiError>)
    ensures
        payload matches Ok(b) ==> (r matches Ok(q) && q.has_parts(
            RequestMethod::Post,
            network_path(network_name@, "/connect"@),
            Seq::empty(),
            b@,
        )),
        payload matches Err(e) ==> r == Err::<RequestSpec, ApiError>(
            ApiError::JsonSerializeError { err: e },
        ),
{
    build_request(
        RequestMethod::Post,
        network_path_of(network_name, "/connect"),
        Ok(None),
        serialize_payload(payload),
    )
}

/// The request of the disconnect-network operation:
/// `POST /networks/{name}/disconnect`, no query, the options' JSON as body.
pub fn disconnect_network_request(
    network_name: &str,
    payload: Result<Vec<u8>, serde_json::Error>,
) -> (r: Result<RequestSpec, ApiError>)
    ensures
        payload matches Ok(b) ==> (r matches Ok(q) && q.has_parts(
            RequestMethod::Post,
            network_path(network_name@, "/disconnect"@),
            Seq::empty(),
            b@,
        )),
        payload matches Err(e) ==> r == Err::<RequestSpec, ApiError>(
            ApiError::JsonSerializeError { err: e },
        ),
{
    build_request(
        RequestMethod::Post,
        network_path_of(network_name, "/disconnect"),
        Ok(None),
        serialize_payload(payload),
    )
}

/// The request of the prune-networks operation: `POST /networks/prune`, no
/// body, no query without options, and with options the single pair
/// `filters` holding the JSON object of the filter map (`{}` for an empty
/// map). The filter keys must be unique.
pub fn prune_networks_request<Q: PruneNetworksQueryParams>(options: Option<Q>) -> (r: Result<
    RequestSpec,
    ApiError,
>)
    requires
        options matches Some(o) ==> entry_keys_unique(o.filters_spec()),
    ensures
        options is None ==> (r matches Ok(q) && q.has_parts(
            RequestMethod::Post,
            "/networks/prune"@,
            Seq::empty(),
            Seq::empty(),
        )),
        options matches Some(o) ==> (r matches Ok(q) && q.has_parts(
            RequestMethod::Post,
            "/networks/prune"@,
            seq![("filters"@, json_object_text(o.filters_spec()))],
            Seq::empty(),
        )),
        options matches Some(o) ==> (o.filters_spec().len() == 0 ==> (r matches Ok(q)
            && q.query_view() == seq![("filters"@, seq!['{', '}'])])),
{
    let query = match options {
        Some(o) => Some(o.into_array()),
        None => None,
    };
    build_request(
        RequestMethod::Post,
        "/networks/prune".to_owned(),
        transpose_option(query),
        Ok(Vec::new()),
    )
}

} // verus!
