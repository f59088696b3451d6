//! Content negotiation for the read path: whether a request's headers ask
//! for JSON.

use vstd::prelude::*;
use crate::text::str_starts_with;

verus! {

/// The media type whose presence at the front of an `Accept` header value
/// selects JSON delivery.
pub open spec fn json_media_type() -> Seq<char> {
    "application/json"@
}

/// Whether a request will accept JSON, based on its `Accept` header value:
/// true exactly when the header is present and starts with the JSON media
/// type. API consumers set their headers accordingly; qualities are not
/// interpreted.
pub fn accepts_json(accept_header: Option<&str>) -> (r: bool)
    ensures
        r == match accept_header {
            None => false,
            Some(h) => h@.len() >= json_media_type().len() && h@.subrange(
                0,
                json_media_type().len() as int,
            ) == json_media_type(),
        },
{
    match accept_header {
        None => false,
        Some(h) => str_starts_with(h, "application/json"),
    }
}

/// The decision of content negotiation: whether a request accepts JSON.
#[derive(Clone, Copy, Debug, PartialEq, Eq, Structural)]
pub struct AcceptsJson(pub bool);

impl AcceptsJson {
    /// Decide from the request's `Accept` header value, if any.
    pub fn from_header(accept_header: Option<&str>) -> (r: AcceptsJson)
        ensures
            r.0 == match accept_header {
                None => false,
                Some(h) => h@.len() >= json_media_type().len() && h@.subrange(
                    0,
                    json_media_type().len() as int,
                ) == json_media_type(),
            },
    {
        AcceptsJson(accepts_json(accept_header))
    }
}

} // verus!
