//! The answer to a request: an HTTP status code and a body.

use vstd::prelude::*;

verus! {

/// An HTTP status code and the body text sent with it.
pub struct Reply {
    pub status: u16,
    pub body: String,
}

} // verus!
