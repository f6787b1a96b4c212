//! The fixed HTTP answers of the service: the root redirect and the
//! not-found reply of a lookup.

use vstd::prelude::*;
use crate::dataset::LookupMiss;

verus! {

/// The status of a permanent redirect.
pub const MOVED_PERMANENTLY: u16 = 301;

/// The status of a lookup that found nothing.
pub const NOT_FOUND: u16 = 404;

/// A redirect: its status and the location it sends the client to.
pub struct Redirect {
    pub status: u16,
    pub location: String,
}

/// The answer to the root path: a permanent redirect to the documentation.
/// It takes nothing, so no query or body of the request can change it.
pub fn root() -> (r: Redirect)
    ensures
        r.status == MOVED_PERMANENTLY,
        r.location@ == "/docs"@,
{
    Redirect { status: MOVED_PERMANENTLY, location: "/docs".to_owned() }
}

impl LookupMiss {
    /// The status a miss is answered with.
    pub fn status(&self) -> (r: u16)
        ensures
            r == NOT_FOUND,
    {
        NOT_FOUND
    }

    /// The plain-text body a miss is answered with.
    pub fn message(&self) -> (r: String)
        ensures
            r@ == "Weather data not found"@,
    {
        "Weather data not found".to_owned()
    }
}

} // verus!
