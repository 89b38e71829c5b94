use bollard_network::{
    build_request, connect_network_request, create_network_request, disconnect_network_request,
    encode_filters, filter_keys_unique, filters_query, insert_entry, inspect_network_request, list_networks_request,
    network_path_of, owned_filters, owned_texts, process_into_unit, process_into_value,
    prune_networks_request, remove_network_request, serialize_payload, transpose_option,
    ApiError, CreateNetworkOptions, InspectNetworkOptions, InspectNetworkQueryParams,
    ListNetworksOptions, ListNetworksQueryParams, PruneNetworksOptions, PruneNetworksQueryParams,
    RequestMethod, RequestSpec, TextParam,
};

fn pairs(a: &arrayvec::ArrayVec<(String, String), 2>) -> Vec<(&str, &str)> {
    a.iter().map(|(k, v)| (k.as_str(), v.as_str())).collect()
}

fn query_pairs(r: &RequestSpec) -> Vec<(&str, &str)> {
    match &r.query {
        Some(a) => pairs(a),
        None => Vec::new(),
    }
}

fn json_error() -> serde_json::Error {
    serde_json::from_str::<serde_json::Value>("{").unwrap_err()
}

#[test]
fn inspect_options_encode_verbose_then_scope() {
    let options = InspectNetworkOptions { verbose: true, scope: "global" };
    let a = options.into_array().unwrap();
    assert_eq!(pairs(&a), vec![("verbose", "true"), ("scope", "global")]);
}

#[test]
fn inspect_options_owned_text_encode_false() {
    let options = InspectNetworkOptions { verbose: false, scope: String::from("local") };
    let a = options.into_array().unwrap();
    assert_eq!(pairs(&a), vec![("verbose", "false"), ("scope", "local")]);
}

#[test]
fn inspect_options_default_keeps_both_pairs() {
    let options: InspectNetworkOptions<&str> = Default::default();
    let a = options.into_array().unwrap();
    assert_eq!(pairs(&a), vec![("verbose", "false"), ("scope", "")]);
}

#[test]
fn list_options_encode_one_filters_pair() {
    let options = ListNetworksOptions { filters: vec![("label", vec!["maintainer=x"])] };
    let a = options.into_array().unwrap();
    assert_eq!(pairs(&a), vec![("filters", "{\"label\":[\"maintainer=x\"]}")]);
}

#[test]
fn list_options_keep_entry_order() {
    let options = ListNetworksOptions {
        filters: vec![
            (String::from("name"), vec![String::from("a"), String::from("b")]),
            (String::from("driver"), vec![]),
        ],
    };
    let a = options.into_array().unwrap();
    assert_eq!(pairs(&a), vec![("filters", "{\"name\":[\"a\",\"b\"],\"driver\":[]}")]);
}

#[test]
fn filters_escape_quotes() {
    let a = encode_filters(&vec![("label", vec!["a\"b"])]).unwrap();
    assert_eq!(pairs(&a), vec![("filters", "{\"label\":[\"a\\\"b\"]}")]);
}

#[test]
fn prune_options_empty_filters_give_empty_object() {
    let options: PruneNetworksOptions<&str> = PruneNetworksOptions { filters: vec![] };
    let a = options.into_array().unwrap();
    assert_eq!(pairs(&a), vec![("filters", "{}")]);
}

#[test]
fn prune_absent_and_empty_options_differ() {
    let absent = prune_networks_request::<PruneNetworksOptions<&str>>(None).unwrap();
    let empty = prune_networks_request(Some(PruneNetworksOptions::<&str> { filters: vec![] }))
        .unwrap();
    assert!(absent.query.is_none());
    assert_eq!(query_pairs(&absent).len(), 0);
    assert_eq!(query_pairs(&empty), vec![("filters", "{}")]);
    assert_eq!(empty.method, RequestMethod::Post);
    assert_eq!(empty.path, "/networks/prune");
    assert!(empty.body.is_empty());
}

#[test]
fn inspect_without_options_has_no_query() {
    let r = inspect_network_request::<InspectNetworkOptions<&str>>("my_network", None).unwrap();
    assert!(r.query.is_none());
    assert_eq!(r.method, RequestMethod::Get);
    assert_eq!(r.path, "/networks/my_network");
    assert!(r.body.is_empty());
}

#[test]
fn inspect_with_options_has_two_pairs() {
    let options = InspectNetworkOptions { verbose: true, scope: "swarm" };
    let r = inspect_network_request("net1", Some(options)).unwrap();
    assert_eq!(query_pairs(&r), vec![("verbose", "true"), ("scope", "swarm")]);
    assert_eq!(r.path, "/networks/net1");
}

#[test]
fn list_without_options_has_no_query() {
    let r = list_networks_request::<ListNetworksOptions<&str>>(None).unwrap();
    assert!(r.query.is_none());
    assert_eq!(r.method, RequestMethod::Get);
    assert_eq!(r.path, "/networks");
    assert!(r.body.is_empty());
}

#[test]
fn list_with_options_has_filters_pair() {
    let options = ListNetworksOptions { filters: vec![("driver", vec!["bridge"])] };
    let r = list_networks_request(Some(options)).unwrap();
    assert_eq!(query_pairs(&r), vec![("filters", "{\"driver\":[\"bridge\"]}")]);
}

#[test]
fn create_request_carries_body() {
    let r = create_network_request(Ok(b"{\"Name\":\"certs\"}".to_vec())).unwrap();
    assert_eq!(r.method, RequestMethod::Post);
    assert_eq!(r.path, "/networks/create");
    assert!(r.query.is_none());
    assert_eq!(r.body, b"{\"Name\":\"certs\"}".to_vec());
}

#[test]
fn create_request_reports_serialize_error() {
    let r = create_network_request(Err(json_error()));
    assert!(matches!(r, Err(ApiError::JsonSerializeError { .. })));
}

#[test]
fn remove_request_path() {
    let r = remove_network_request("my_network_name").unwrap();
    assert_eq!(r.method, RequestMethod::Delete);
    assert_eq!(r.path, "/networks/my_network_name");
    assert!(r.query.is_none());
    assert!(r.body.is_empty());
}

#[test]
fn connect_request_path_and_body() {
    let r = connect_network_request("net", Ok(b"{}".to_vec())).unwrap();
    assert_eq!(r.method, RequestMethod::Post);
    assert_eq!(r.path, "/networks/net/connect");
    assert!(r.query.is_none());
    assert_eq!(r.body, b"{}".to_vec());
}

#[test]
fn disconnect_request_path_and_error() {
    let r = disconnect_network_request("net", Ok(b"{\"Force\":true}".to_vec())).unwrap();
    assert_eq!(r.path, "/networks/net/disconnect");
    assert_eq!(r.body, b"{\"Force\":true}".to_vec());
    let e = disconnect_network_request("net", Err(json_error()));
    assert!(matches!(e, Err(ApiError::JsonSerializeError { .. })));
}

#[test]
fn network_path_is_not_escaped() {
    assert_eq!(network_path_of("a b/c", "/connect"), "/networks/a b/c/connect");
}

#[test]
fn non_success_status_is_transport_error_for_unit() {
    for status in [404u16, 409, 500, 304, 199, 300] {
        let r = process_into_unit(status, b"{\"message\":\"no such network\"}".to_vec());
        match r {
            Err(ApiError::DockerResponseServerError { status_code, body }) => {
                assert_eq!(status_code, status);
                assert_eq!(body, b"{\"message\":\"no such network\"}".to_vec());
            },
            _ => panic!("expected a transport error"),
        }
    }
}

#[test]
fn success_status_gives_unit() {
    assert!(process_into_unit(204, Vec::new()).is_ok());
    assert!(process_into_unit(200, b"garbage".to_vec()).is_ok());
}

#[test]
fn non_success_status_wins_over_bad_json() {
    let body = b"not json".to_vec();
    let decoded = serde_json::from_slice::<serde_json::Value>(&body);
    let r = process_into_value(500, body, decoded);
    let e = r.unwrap_err();
    assert!(e.is_transport_error());
    assert!(matches!(e, ApiError::DockerResponseServerError { status_code: 500, .. }));
}

#[test]
fn malformed_json_is_deserialize_error() {
    let body = b"{\"Name\": ".to_vec();
    let decoded = serde_json::from_slice::<serde_json::Value>(&body);
    let e = process_into_value(200, body, decoded).unwrap_err();
    assert!(!e.is_transport_error());
    match e {
        ApiError::JsonDeserializeError { content, .. } => {
            assert_eq!(content, b"{\"Name\": ".to_vec())
        },
        _ => panic!("expected a deserialization error"),
    }
}

#[test]
fn well_formed_json_is_returned() {
    let body = b"{\"Id\":\"abc\"}".to_vec();
    let decoded = serde_json::from_slice::<serde_json::Value>(&body);
    let v = process_into_value(201, body, decoded).unwrap();
    assert_eq!(v["Id"], "abc");
}

#[test]
fn build_request_reports_query_error_first() {
    let r = build_request(
        RequestMethod::Get,
        String::from("/networks"),
        Err(ApiError::JsonSerializeError { err: json_error() }),
        Err(ApiError::DockerResponseServerError { status_code: 1, body: vec![] }),
    );
    assert!(matches!(r, Err(ApiError::JsonSerializeError { .. })));
    let r = build_request(
        RequestMethod::Get,
        String::from("/networks"),
        Ok(None),
        Err(ApiError::DockerResponseServerError { status_code: 1, body: vec![] }),
    );
    assert!(matches!(r, Err(ApiError::DockerResponseServerError { status_code: 1, .. })));
}

#[test]
fn transpose_option_cases() {
    assert!(matches!(transpose_option::<u8>(None), Ok(None)));
    assert!(matches!(transpose_option::<u8>(Some(Ok(3))), Ok(Some(3))));
    let e = transpose_option::<u8>(Some(Err(ApiError::JsonSerializeError { err: json_error() })));
    assert!(matches!(e, Err(ApiError::JsonSerializeError { .. })));
}

#[test]
fn serialize_payload_cases() {
    assert_eq!(serialize_payload(Ok(vec![1, 2])).unwrap(), vec![1, 2]);
    assert!(matches!(serialize_payload(Err(json_error())), Err(ApiError::JsonSerializeError { .. })));
}

#[test]
fn filters_query_cases() {
    let a = filters_query(Ok(String::from("{\"x\":[]}"))).unwrap();
    assert_eq!(pairs(&a), vec![("filters", "{\"x\":[]}")]);
    assert!(matches!(filters_query(Err(json_error())), Err(ApiError::JsonSerializeError { .. })));
}

#[test]
fn owned_copies_keep_text_and_order() {
    assert_eq!(owned_texts(&vec!["b", "a"]), vec![String::from("b"), String::from("a")]);
    let f = owned_filters(&vec![("k", vec!["v1", "v2"]), ("j", vec![])]);
    assert_eq!(
        f,
        vec![
            (String::from("k"), vec![String::from("v1"), String::from("v2")]),
            (String::from("j"), vec![]),
        ]
    );
    assert_eq!("abc".to_text(), "abc");
    assert_eq!(String::from("xyz").to_text(), "xyz");
}

#[test]
fn create_options_default_and_literal() {
    let config = CreateNetworkOptions { name: "certs", ..Default::default() };
    assert_eq!(config.name, "certs");
    assert_eq!(config.driver, "");
    assert!(config.ipam.config.is_empty());
    assert!(config.labels.is_empty());
}

#[test]
fn insert_entry_replaces_value_in_place() {
    let mut filters = vec![("label", vec!["a=1"]), ("name", vec!["web"])];
    insert_entry(&mut filters, "label", vec!["b=2", "c=3"]);
    assert_eq!(filters, vec![("label", vec!["b=2", "c=3"]), ("name", vec!["web"])]);
    let a = ListNetworksOptions { filters }.into_array().unwrap();
    assert_eq!(pairs(&a), vec![("filters", "{\"label\":[\"b=2\",\"c=3\"],\"name\":[\"web\"]}")]);
}

#[test]
fn insert_entry_appends_new_key() {
    let mut labels: Vec<(String, String)> = Vec::new();
    insert_entry(&mut labels, String::from("maintainer"), String::from("x"));
    insert_entry(&mut labels, String::from("tier"), String::from("db"));
    insert_entry(&mut labels, String::from("maintainer"), String::from("y"));
    assert_eq!(
        labels,
        vec![
            (String::from("maintainer"), String::from("y")),
            (String::from("tier"), String::from("db")),
        ]
    );
}

#[test]
fn filter_keys_unique_detects_repeats() {
    assert!(filter_keys_unique(&vec![("label", vec!["a"]), ("name", vec![])]));
    assert!(!filter_keys_unique(&vec![("label", vec!["a"]), ("name", vec![]), ("label", vec![])]));
    assert!(filter_keys_unique::<&str>(&vec![]));
    let list = ListNetworksOptions { filters: vec![("x", vec![]), ("x", vec!["1"])] };
    assert!(!list.keys_are_unique());
    let prune = PruneNetworksOptions { filters: vec![(String::from("until"), vec![String::from("1h")])] };
    assert!(prune.keys_are_unique());
}

#[test]
fn filters_escape_control_characters() {
    let a = encode_filters(&vec![("k\\", vec!["\u{1f}\n\t\u{8}\u{c}\r/é"])]).unwrap();
    assert_eq!(pairs(&a), vec![("filters", "{\"k\\\\\":[\"\\u001f\\n\\t\\b\\f\\r/é\"]}")]);
}
