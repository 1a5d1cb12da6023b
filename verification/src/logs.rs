//! The telemetry record of one finished request, and where the records are kept.

use crate::cache::Source;
use crate::git_lfs::Operation;
use crate::text::{join_path, joined_path};
use vstd::prelude::*;

verus! {

/// The name under which the agent keeps its files in the repository's
/// metadata directory.
pub const PRODUCT_NAME: &'static str = "lfs-cache";

/// The record of one finished request. `T` is the type of a point in time.
#[derive(Debug)]
pub struct Line<T> {
    pub operation: Operation,
    pub oid: String,
    pub size: u64,
    /// Where the object came from, if it came from the cache.
    pub cache: Option<Source>,
    pub start: T,
    pub finish: T,
}

/// The directory of the logs, below the repository's metadata directory.
pub fn dir(git_dir: &str) -> (r: String)
    ensures
        r@ == joined_path(joined_path(git_dir@, PRODUCT_NAME@), "logs"@),
{
    let product = join_path(git_dir, PRODUCT_NAME);
    join_path(product.as_str(), "logs")
}

} // verus!
