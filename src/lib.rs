//! Typed requests and results for the network endpoints of a container
//! daemon's HTTP API: option records, their query-parameter encoders, the
//! request descriptors of each operation, and the response decoders.
//!
//! Option records are generic over their text, which may be owned (`String`)
//! or borrowed (`&str`). Query options become an ordered list of string pairs;
//! filter maps travel as one JSON-encoded pair. Each operation's request is
//! assembled from those pairs and, for mutating operations, a JSON body; the
//! response is then decoded into a typed result or one of three distinct kinds
//! of error.

mod error;
mod extern_types;
mod operations;
mod options;
mod query;
mod request;
mod response;
mod results;
mod text;

pub use error::ApiError;
pub use operations::{
    connect_network_request, create_network_request, disconnect_network_request,
    inspect_network_request, list_networks_request, prune_networks_request,
    remove_network_request,
};
pub use options::{
    insert_entry, ConnectNetworkOptions, CreateNetworkOptions, DisconnectNetworkOptions, EndpointIPAMConfig,
    EndpointSettings, InspectNetworkOptions, InspectNetworkQueryParams, IPAMConfig,
    ListNetworksOptions, ListNetworksQueryParams, PruneNetworksOptions, PruneNetworksQueryParams,
    IPAM,
};
pub use query::{
    encode_filters, filter_keys_unique, filters_query, owned_filters, owned_texts,
};
pub use request::{
    build_request, network_path_of, serialize_payload, transpose_option, RequestMethod,
    RequestSpec,
};
pub use response::{process_into_unit, process_into_value};
pub use results::{
    CreateNetworkResults, InspectNetworkResults, InspectNetworkResultsContainers,
    ListNetworksResults, PruneNetworksResults,
};
pub use text::{keys_unique, TextParam};
