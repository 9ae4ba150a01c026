//! What the content-addressable store answers to an upload.

use vstd::prelude::*;

verus! {

/// The answer to an upload: the name under which the content was sent, and the
/// hash by which the store addresses it.
#[derive(Debug)]
pub struct IpfsOutput {
    pub name: String,
    pub hash: String,
}

} // verus!
