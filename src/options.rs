use vstd::prelude::*;

use crate::error::ApiError;
use crate::query::{
    bool_text, empty_pairs, encode_filters, entry_keys_unique, filter_entries, filter_keys_unique,
    json_object_text, lemma_keys_unique_as_texts, pairs_view, push_pair,
};
use crate::text::{keys_unique, TextParam};

verus! {

// Maps of this module are lists of key/value pairs whose keys are unique
// (`keys_unique`); their order is the order in which the pairs are written on
// the wire. `insert_entry` adds to such a map and keeps its keys unique.

/// Sets the value of `key` in a map: an entry whose key has the same text
/// keeps its place and its key and takes the new value; with no such entry,
/// the pair is appended.
pub fn insert_entry<K: TextParam, V>(m: &mut Vec<(K, V)>, key: K, value: V)
    requires
        keys_unique(old(m)@),
    ensures
        keys_unique(final(m)@),
        forall|i: int|
            0 <= i < old(m)@.len() && #[trigger] old(m)@[i].0.text() == key.text() ==> final(m)@
                == old(m)@.update(i, (old(m)@[i].0, value)),
        (forall|i: int| 0 <= i < old(m)@.len() ==> #[trigger] old(m)@[i].0.text() != key.text())
            ==> final(m)@ == old(m)@.push((key, value)),
{
    let k = key.to_text();
    let mut i: usize = 0;
    while i < m.len()
        invariant
            i <= m@.len(),
            m@ == old(m)@,
            keys_unique(old(m)@),
            k@ == key.text(),
            forall|j: int| 0 <= j < i ==> #[trigger] m@[j].0.text() != key.text(),
        decreases m@.len() - i,
    {
        if m[i].0.to_text() == k {
            let (old_key, _) = m.remove(i);
            m.insert(i, (old_key, value));
            let ghost found = i as int;
            assert(m@ =~= old(m)@.update(found, (old(m)@[found].0, value)));
            assert forall|j: int| 0 <= j < m@.len() implies #[trigger] m@[j].0 == old(m)@[j].0 by {}
            assert forall|j: int|
                0 <= j < old(m)@.len() && #[trigger] old(m)@[j].0.text() == key.text() implies j
                == found by {
                if j != found {
                    if j < found {
                        assert(old(m)@[j].0.text() != old(m)@[found].0.text());
                    } else {
                        assert(old(m)@[found].0.text() != old(m)@[j].0.text());
                    }
                }
            }
            return;
        }
        i = i + 1;
    }
    m.push((key, value));
}

/// Network configuration sent to the create-network operation.
#[derive(Debug, Clone, Default)]
pub struct CreateNetworkOptions<T> {
    /// The network's name.
    pub name: T,
    /// Ask the daemon for a best-effort check of networks with the same name.
    pub check_duplicate: bool,
    /// Name of the network driver plugin to use.
    pub driver: T,
    /// Restrict external access to the network.
    pub internal: bool,
    /// Let regular containers from workers in swarm mode attach to a globally
    /// scoped network.
    pub attachable: bool,
    /// The network provides the routing mesh in swarm mode.
    pub ingress: bool,
    /// IP address management of the network.
    pub ipam: IPAM<T>,
    /// Enable IPv6 on the network.
    pub enable_ipv6: bool,
    /// Driver-specific options.
    pub options: Vec<(T, T)>,
    /// User-defined key/value metadata.
    pub labels: Vec<(T, T)>,
}

/// IP address management of a network.
#[derive(Debug, Clone, Default)]
pub struct IPAM<T> {
    /// Name of the IPAM driver to use.
    pub driver: T,
    /// Per-subnet configurations; their order is kept.
    pub config: Vec<IPAMConfig<T>>,
    /// Driver-specific options.
    pub options: Option<Vec<(T, T)>>,
}

/// One subnet of an IPAM configuration.
#[derive(Debug, Clone, Default)]
pub struct IPAMConfig<T> {
    pub subnet: Option<T>,
    pub ip_range: Option<T>,
    pub gateway: Option<T>,
    pub aux_address: Option<Vec<(T, T)>>,
}

/// Query options of the inspect-network operation.
#[derive(Debug, Clone, Default)]
pub struct InspectNetworkOptions<T> {
    /// Detailed inspect output for troubleshooting.
    pub verbose: bool,
    /// Filter the network by scope (swarm, global, or local).
    pub scope: T,
}

/// Query options of the list-networks operation.
#[derive(Debug, Clone, Default)]
pub struct ListNetworksOptions<T> {
    /// Filters on the listed networks: each key (`driver`, `id`, `label`,
    /// `name`, `scope`, `type`) with its list of accepted values.
    pub filters: Vec<(T, Vec<T>)>,
}

/// Body of the connect-network operation.
#[derive(Debug, Clone, Default)]
pub struct ConnectNetworkOptions<T> {
    /// The ID or name of the container to connect to the network.
    pub container: T,
    /// Configuration of the container's endpoint on the network.
    pub endpoint_config: EndpointSettings<T>,
}

/// Configuration of a network endpoint.
#[derive(Debug, Clone, Default)]
pub struct EndpointSettings<T> {
    /// The endpoint's IPAM configuration.
    pub ipam_config: EndpointIPAMConfig<T>,
    pub links: Vec<T>,
    pub aliases: Vec<T>,
    /// Unique ID of the network.
    pub network_id: T,
    /// Unique ID of the service endpoint in a sandbox.
    pub endpoint_id: T,
    /// Gateway address on this network.
    pub gateway: T,
    /// IPv4 address.
    pub ip_address: T,
    /// Mask length of the IPv4 address.
    pub ip_prefix_len: isize,
    /// IPv6 gateway address.
    pub ipv6_gateway: T,
    /// Global IPv6 address.
    pub global_ipv6_address: T,
    /// Mask length of the global IPv6 address.
    pub global_ipv6_prefix_len: i64,
    /// MAC address of the endpoint on this network.
    pub mac_address: T,
    /// Options handed to the driver as they are.
    pub driver_opts: Option<Vec<(T, T)>>,
}

/// IPAM configuration of an endpoint.
#[derive(Debug, Clone, Default)]
pub struct EndpointIPAMConfig<T> {
    pub ipv4_address: Option<T>,
    pub ipv6_address: Option<T>,
    pub link_local_ips: Option<Vec<T>>,
}

/// Body of the disconnect-network operation.
#[derive(Debug, Clone, Default)]
pub struct DisconnectNetworkOptions<T> {
    /// The ID or name of the container to disconnect from the network.
    pub container: T,
    /// Force the container to disconnect from the network.
    pub force: bool,
}

/// Query options of the prune-networks operation.
#[derive(Debug, Clone, Default)]
pub struct PruneNetworksOptions<T> {
    /// Filters on the pruned networks: `until` and `label` (or `label!`), each
    /// with its list of values.
    pub filters: Vec<(T, Vec<T>)>,
}

/// Options of the inspect-network operation that can be written as query
/// pairs; writing them never fails.
pub trait InspectNetworkQueryParams: Sized {
    /// The query pairs these options stand for, in order.
    spec fn query_spec(&self) -> Seq<(Seq<char>, Seq<char>)>;

    /// Encodes these options as query pairs.
    fn into_array(self) -> (r: Result<arrayvec::ArrayVec<(String, String), 2>, ApiError>)
        ensures
            r matches Ok(a) && pairs_view(a) == self.query_spec(),
    ;
}

/// Options of the list-networks operation: a filter map, written as the
/// single query pair `filters` whose value is the JSON object of the whole
/// map, also when the map is empty.
pub trait ListNetworksQueryParams: Sized {
    /// The filter map these options carry: key texts with their value texts.
    spec fn filters_spec(&self) -> Seq<(Seq<char>, Seq<Seq<char>>)>;

    /// Whether no two filter keys have the same text, which encoding asks.
    fn keys_are_unique(&self) -> (r: bool)
        ensures
            r == entry_keys_unique(self.filters_spec()),
    ;

    /// Encodes these options as query pairs; this never fails.
    fn into_array(self) -> (r: Result<arrayvec::ArrayVec<(String, String), 2>, ApiError>)
        requires
            entry_keys_unique(self.filters_spec()),
        ensures
            r matches Ok(a) && pairs_view(a) == seq![
                ("filters"@, json_object_text(self.filters_spec())),
            ],
            self.filters_spec().len() == 0 ==> (r matches Ok(a) && pairs_view(a) == seq![
                ("filters"@, seq!['{', '}']),
            ]),
    ;
}

/// Options of the prune-networks operation: a filter map, written as the
/// single query pair `filters` whose value is the JSON object of the whole
/// map, also when the map is empty.
pub trait PruneNetworksQueryParams: Sized {
    /// The filter map these options carry: key texts with their value texts.
    spec fn filters_spec(&self) -> Seq<(Seq<char>, Seq<Seq<char>>)>;

    /// Whether no two filter keys have the same text, which encoding asks.
    fn keys_are_unique(&self) -> (r: bool)
        ensures
            r == entry_keys_unique(self.filters_spec()),
    ;

    /// Encodes these options as query pairs; this never fails.
    fn into_array(self) -> (r: Result<arrayvec::ArrayVec<(String, String), 2>, ApiError>)
        requires
            entry_keys_unique(self.filters_spec()),
        ensures
            r matches Ok(a) && pairs_view(a) == seq![
                ("filters"@, json_object_text(self.filters_spec())),
            ],
            self.filters_spec().len() == 0 ==> (r matches Ok(a) && pairs_view(a) == seq![
                ("filters"@, seq!['{', '}']),
            ]),
    ;
}

impl<T: TextParam> InspectNetworkQueryParams for InspectNetworkOptions<T> {
    /// `verbose` then `scope`, both always present.
    open spec fn query_spec(&self) -> Seq<(Seq<char>, Seq<char>)> {
        seq![("verbose"@, bool_text(self.verbose)), ("scope"@, self.scope.text())]
    }

    fn into_array(self) -> (r: Result<arrayvec::ArrayVec<(String, String), 2>, ApiError>) {
        let verbose = if self.verbose {
            "true".to_owned()
        } else {
            "false".to_owned()
        };
        let mut a = empty_pairs();
        push_pair(&mut a, ("verbose".to_owned(), verbose));
        push_pair(&mut a, ("scope".to_owned(), self.scope.to_text()));
        assert(pairs_view(a) =~= self.query_spec());
        Ok(a)
    }
}

impl<T: TextParam> ListNetworksQueryParams for ListNetworksOptions<T> {
    open spec fn filters_spec(&self) -> Seq<(Seq<char>, Seq<Seq<char>>)> {
        filter_entries(self.filters@)
    }

    fn keys_are_unique(&self) -> (r: bool) {
        proof {
            lemma_keys_unique_as_texts(self.filters@);
        }
        filter_keys_unique(&self.filters)
    }

    fn into_array(self) -> (r: Result<arrayvec::ArrayVec<(String, String), 2>, ApiError>) {
        proof {
            lemma_keys_unique_as_texts(self.filters@);
        }
        encode_filters(&self.filters)
    }
}

impl<T: TextParam> PruneNetworksQueryParams for PruneNetworksOptions<T> {
    open spec fn filters_spec(&self) -> Seq<(Seq<char>, Seq<Seq<char>>)> {
        filter_entries(self.filters@)
    }

    fn keys_are_unique(&self) -> (r: bool) {
        proof {
            lemma_keys_unique_as_texts(self.filters@);
        }
        filter_keys_unique(&self.filters)
    }

    fn into_array(self) -> (r: Result<arrayvec::ArrayVec<(String, String), 2>, ApiError>) {
        proof {
            lemma_keys_unique_as_texts(self.filters@);
        }
        encode_filters(&self.filters)
    }
}

} // verus!
