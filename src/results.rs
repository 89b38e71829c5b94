use vstd::prelude::*;

use crate::options::IPAM;

verus! {

// Records read back from the daemon. Their text is always owned, since each
// one is decoded afresh from a response body; maps are key/value pairs.

/// Result of the create-network operation.
#[derive(Debug, Clone)]
pub struct CreateNetworkResults {
    pub id: String,
    pub warning: String,
}

/// Result of the inspect-network operation.
#[derive(Debug, Clone)]
pub struct InspectNetworkResults {
    pub name: String,
    pub id: String,
    pub created: String,
    pub scope: String,
    pub driver: String,
    pub enable_ipv6: bool,
    pub ipam: IPAM<String>,
    pub internal: bool,
    pub attachable: bool,
    pub ingress: bool,
    pub containers: Vec<(String, InspectNetworkResultsContainers)>,
    pub options: Vec<(String, String)>,
    pub labels: Vec<(String, String)>,
    pub config_from: Vec<(String, String)>,
    pub config_only: bool,
}

/// A container attached to an inspected or listed network.
#[derive(Debug, Clone)]
pub struct InspectNetworkResultsContainers {
    pub name: String,
    pub endpoint_id: Option<String>,
    pub mac_address: Option<String>,
    pub ipv4_address: Option<String>,
    pub ipv6_address: Option<String>,
}

/// One entry of the result of the list-networks operation.
#[derive(Debug, Clone)]
pub struct ListNetworksResults {
    pub name: String,
    pub id: String,
    pub created: String,
    pub scope: String,
    pub driver: String,
    pub enable_ipv6: bool,
    pub internal: bool,
    pub attachable: bool,
    pub ingress: bool,
    pub ipam: IPAM<String>,
    pub options: Vec<(String, String)>,
    pub config_from: Vec<(String, String)>,
    pub config_only: bool,
    pub containers: Vec<(String, InspectNetworkResultsContainers)>,
    pub labels: Vec<(String, String)>,
}

/// Result of the prune-networks operation.
#[derive(Debug, Clone)]
pub struct PruneNetworksResults {
    pub networks_deleted: Option<Vec<String>>,
}

} // verus!
