use vstd::prelude::*;
use vstd::string::*;

use crate::error::ApiError;
use crate::query::pairs_view;

verus! {

/// The HTTP methods the network operations use.
#[derive(Debug, Clone, Copy, PartialEq, Eq, Structural)]
pub enum RequestMethod {
    Get,
    Post,
    Delete,
}

/// A request ready for the transport: method, path, query pairs (absent when
/// the caller gave no options) and JSON body (empty for bodiless requests).
#[derive(Debug)]
pub struct RequestSpec {
    pub method: RequestMethod,
    pub path: String,
    pub query: Option<arrayvec::ArrayVec<(String, String), 2>>,
    pub body: Vec<u8>,
}

impl RequestSpec {
    /// The query pairs of this request; none when no options were given.
    pub open spec fn query_view(self) -> Seq<(Seq<char>, Seq<char>)> {
        match self.query {
            Some(a) => pairs_view(a),
            None => Seq::empty(),
        }
    }

    /// This request has the given method, path, query pairs and body.
    pub open spec fn has_parts(
        self,
        method: RequestMethod,
        path: Seq<char>,
        query: Seq<(Seq<char>, Seq<char>)>,
        body: Seq<u8>,
    ) -> bool {
        &&& self.method == method
        &&& self.path@ == path
        &&& self.query_view() == query
        &&& self.body@ == body
    }
}

/// The path of a network, or of one of its sub-resources: the name is put in
/// as it is, with no escaping.
pub open spec fn network_path(name: Seq<char>, suffix: Seq<char>) -> Seq<char> {
    "/networks/"@ + name + suffix
}

/// Builds `/networks/{name}{suffix}`.
pub fn network_path_of(name: &str, suffix: &str) -> (r: String)
    ensures
        r@ == network_path(name@, suffix@),
{
    let mut p = String::from_str("/networks/");
    p.append(name);
    p.append(suffix);
    p
}

/// Assembles a request from its method and path, the outcome of encoding its
/// query pairs and the outcome of encoding its body. The first failure, query
/// before body, is returned as it came.
pub fn build_request(
    method: RequestMethod,
    path: String,
    query: Result<Option<arrayvec::ArrayVec<(String, String), 2>>, ApiError>,
    body: Result<Vec<u8>, ApiError>,
) -> (r: Result<RequestSpec, ApiError>)
    ensures
        query matches Err(e) ==> r == Err::<RequestSpec, ApiError>(e),
        query is Ok ==> (body matches Err(e) ==> r == Err::<RequestSpec, ApiError>(e)),
        query matches Ok(q) ==> (body matches Ok(b) ==> r == Ok::<RequestSpec, ApiError>(
            RequestSpec { method, path, query: q, body: b },
        )),
{
    match query {
        Err(e) => Err(e),
        Ok(q) => match body {
            Err(e) => Err(e),
            Ok(b) => Ok(RequestSpec { method, path, query: q, body: b }),
        },
    }
}

/// Turns absent options into an absent query, and the outcome of encoding
/// present options into an outcome holding a present query.
pub fn transpose_option<A>(o: Option<Result<A, ApiError>>) -> (r: Result<Option<A>, ApiError>)
    ensures
        o is None ==> r == Ok::<Option<A>, ApiError>(None),
        o matches Some(Ok(a)) ==> r == Ok::<Option<A>, ApiError>(Some(a)),
        o matches Some(Err(e)) ==> r == Err::<Option<A>, ApiError>(e),
{
    match o {
        None => Ok(None),
        Some(Ok(a)) => Ok(Some(a)),
        Some(Err(e)) => Err(e),
    }
}

/// The body of a mutating request, given the outcome of writing its options
/// as JSON: the bytes, or the serialization error.
pub fn serialize_payload(payload: Result<Vec<u8>, serde_json::Error>) -> (r: Result<Vec<u8>, ApiError>)
    ensures
        payload matches Ok(b) ==> r == Ok::<Vec<u8>, ApiError>(b),
        payload matches Err(e) ==> r == Err::<Vec<u8>, ApiError>(ApiError::JsonSerializeError { err: e }),
{
    match payload {
        Ok(b) => Ok(b),
        Err(e) => Err(ApiError::JsonSerializeError { err: e }),
    }
}

} // verus!
