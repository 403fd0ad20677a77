//! Response envelope around every payload the service hands back: a success
//! flag, an optional payload, and pagination metadata.

use vstd::prelude::*;

verus! {

/// Pagination metadata carried beside every payload. `total` is the size of
/// the full filtered set, independent of the page actually returned.
pub struct Meta {
    pub total: i64,
    pub limit: Option<i64>,
    pub offset: Option<i64>,
}

impl Default for Meta {
    /// An empty result set: no matches, no pagination window.
    fn default() -> (m: Meta)
        ensures
            m.total == 0,
            m.limit is None,
            m.offset is None,
    {
        Meta { total: 0, limit: None, offset: None }
    }
}

/// The envelope wrapping a payload (single entity or page of entities).
pub struct ApiResponse<T> {
    pub success: bool,
    pub data: Option<T>,
    pub meta: Meta,
}

impl<T> ApiResponse<T> {
    /// A successful response with no pagination metadata.
    pub fn success(data: T) -> (r: ApiResponse<T>)
        ensures
            r.success,
            r.data == Some(data),
            r.meta.total == 0,
            r.meta.limit is None,
            r.meta.offset is None,
    {
        ApiResponse { success: true, data: Some(data), meta: Meta::default() }
    }

    /// A successful response carrying the full pagination metadata.
    pub fn with_meta(data: T, total: i64, limit: Option<i64>, offset: Option<i64>) -> (r:
        ApiResponse<T>)
        ensures
            r.success,
            r.data == Some(data),
            r.meta.total == total,
            r.meta.limit == limit,
            r.meta.offset == offset,
    {
        ApiResponse { success: true, data: Some(data), meta: Meta { total, limit, offset } }
    }

    /// A failed response: no payload, empty metadata. The message itself is
    /// carried separately by the error value, not inside the envelope.
    pub fn error(_message: String) -> (r: ApiResponse<T>)
        ensures
            !r.success,
            r.data is None,
            r.meta.total == 0,
            r.meta.limit is None,
            r.meta.offset is None,
    {
        ApiResponse { success: false, data: None, meta: Meta { total: 0, limit: None, offset: None } }
    }
}

/// Payload of the liveness endpoint.
pub struct HealthResponse {
    pub success: bool,
    pub message: String,
}

/// The fixed liveness payload.
pub fn health() -> (r: HealthResponse)
    ensures
        r.success,
        r.message@ == "helloword"@,
{
    HealthResponse { success: true, message: "helloword".to_owned() }
}

} // verus!
