use vstd::prelude::*;

verus! {

/// The ways a network operation can fail.
///
/// Encoding failures, transport failures and decoding failures stay apart, so
/// that a caller can tell "the request failed" from "the request succeeded but
/// its response could not be read".
#[derive(Debug)]
#[allow(inconsistent_fields)]
pub enum ApiError {
    /// An option record could not be turned into its wire form; raised before
    /// any request is sent.
    JsonSerializeError { err: serde_json::Error },
    /// The response body did not have the shape of the expected result.
    JsonDeserializeError { content: Vec<u8>, err: serde_json::Error },
    /// The daemon answered with a status outside the success range.
    DockerResponseServerError { status_code: u16, body: Vec<u8> },
    /// The request could not be assembled by the HTTP layer.
    HttpClientError { err: http::Error },
    /// The connection or the exchange itself failed.
    HyperResponseError { err: hyper::Error },
}

impl ApiError {
    /// Whether this error arose on the transport side (a failed exchange or a
    /// non-success status), as opposed to while encoding or decoding JSON.
    pub open spec fn is_transport(self) -> bool {
        self is DockerResponseServerError || self is HttpClientError || self is HyperResponseError
    }

    /// Executable form of [`ApiError::is_transport`].
    pub fn is_transport_error(&self) -> (r: bool)
        ensures
            r == self.is_transport(),
    {
        match self {
            ApiError::DockerResponseServerError { .. } => true,
            ApiError::HttpClientError { .. } => true,
            ApiError::HyperResponseError { .. } => true,
            _ => false,
        }
    }
}

} // verus!
