//! The parts of a batch request.

use vstd::prelude::*;

verus! {

/// A way of transferring an object.
#[derive(Clone, Copy, Debug, PartialEq, Eq, Structural)]
pub enum Transfer {
    Basic,
}

/// An object that the request names.
#[derive(Debug)]
pub struct Object {
    pub oid: String,
    pub size: u64,
}

} // verus!
