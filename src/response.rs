use vstd::prelude::*;

use crate::error::ApiError;

verus! {

/// Whether an HTTP status is in the success range.
pub open spec fn is_success(status: u16) -> bool {
    200 <= status <= 299
}

/// Decodes the response of an operation that returns no payload.
///
/// A success status gives `()`; any other status is the daemon's rejection,
/// a transport error that carries the status and the body as they came.
pub fn process_into_unit(status: u16, body: Vec<u8>) -> (r: Result<(), ApiError>)
    ensures
        is_success(status) ==> r is Ok,
        !is_success(status) ==> r == Err::<(), ApiError>(
            ApiError::DockerResponseServerError { status_code: status, body },
        ),
        r is Err ==> r->Err_0.is_transport(),
{
    if 200 <= status && status <= 299 {
        Ok(())
    } else {
        Err(ApiError::DockerResponseServerError { status_code: status, body })
    }
}

/// Decodes the response of an operation that returns a record, given the
/// status, the raw body, and the outcome of reading the body as that record.
///
/// A non-success status is a transport error whatever the body holds. Under a
/// success status the record is returned, or, where the body could not be
/// read as one, a deserialization error that keeps the body; the two kinds
/// never mix.
pub fn process_into_value<V>(status: u16, body: Vec<u8>, decoded: Result<V, serde_json::Error>) -> (r:
    Result<V, ApiError>)
    ensures
        !is_success(status) ==> r == Err::<V, ApiError>(
            ApiError::DockerResponseServerError { status_code: status, body },
        ),
        is_success(status) ==> (decoded matches Ok(v) ==> r == Ok::<V, ApiError>(v)),
        is_success(status) ==> (decoded matches Err(e) ==> r == Err::<V, ApiError>(
            ApiError::JsonDeserializeError { content: body, err: e },
        )),
        r matches Err(e) ==> (e.is_transport() <==> !is_success(status)),
{
    if 200 <= status && status <= 299 {
        match decoded {
            Ok(v) => Ok(v),
            Err(e) => Err(ApiError::JsonDeserializeError { content: body, err: e }),
        }
    } else {
        Err(ApiError::DockerResponseServerError { status_code: status, body })
    }
}

} // verus!
