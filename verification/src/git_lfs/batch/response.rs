//! The parts of the answer to a batch request.

use crate::git_lfs::Error;
use crate::web::Field;
use vstd::prelude::*;

verus! {

/// What the server says of one object.
#[derive(Debug)]
pub struct Object {
    pub oid: String,
    pub size: u64,
    pub inner: Inner,
}

/// The actions that transfer an object, or the reason why there are none.
#[derive(Debug)]
pub enum Inner {
    Actions { upload: Option<Box<Action>>, verify: Option<Box<Action>>, download: Option<Box<Action>> },
    Error(Error),
}

/// A request that carries out one step of a transfer.
#[derive(Debug)]
pub struct Action {
    pub href: ::url::Url,
    pub header: Vec<Field>,
}

} // verus!
