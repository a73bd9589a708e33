//! Typed request payloads carried as message bodies.

use vstd::prelude::*;

verus! {

/// The payload of a `Pull` request: the reference of the image to pull.
#[derive(Debug, PartialEq, Eq)]
pub struct PullRequest {
    pub image: String,
}

} // verus!
