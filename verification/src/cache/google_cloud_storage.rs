//! The cache in a bucket of an object store: an object is named by a prefix
//! and its identifier.

use crate::git_lfs::Error;
use crate::misc::Failure;
use crate::text::concat;
use vstd::prelude::*;

verus! {

/// A cache in the bucket `bucket`.
#[derive(Debug)]
pub struct Cache {
    pub bucket: String,
    pub prefix: Option<String>,
}

/// The configuration of the cache.
#[derive(Debug)]
pub struct Args {
    pub bucket: String,
    pub prefix: Option<String>,
}

/// The object that a hit was read from.
#[derive(Debug)]
pub struct Source {
    pub bucket: String,
    pub name: String,
}

/// What the object store answered instead of success.
#[derive(Debug)]
pub enum ApiError {
    /// The store refused the request: its status and its answer.
    Api { status: u16, body: String },
    /// The request did not reach the store, or its answer could not be read.
    Other(String),
}

/// The name of the object `oid` with the prefix `prefix`.
pub open spec fn name_of(prefix: Option<String>, oid: Seq<char>) -> Seq<char> {
    match prefix {
        Some(p) => p@ + oid,
        None => oid,
    }
}

impl Cache {
    /// The cache that `args` configures.
    pub open spec fn of(args: Args) -> Cache {
        Cache { bucket: args.bucket, prefix: args.prefix }
    }

    /// Whether `source` is where this cache keeps the object `oid`.
    pub open spec fn names(&self, oid: Seq<char>, source: Source) -> bool {
        &&& source.bucket@ == self.bucket@
        &&& source.name@ == name_of(self.prefix, oid)
    }

    /// The cache that `args` configures.
    pub fn new(args: Args) -> (r: Cache)
        ensures
            r == Cache::of(args),
    {
        Cache { bucket: args.bucket, prefix: args.prefix }
    }

    /// The object that `oid` is read from.
    pub fn get(&self, oid: &str) -> (r: Source)
        ensures
            self.names(oid@, r),
    {
        Source { bucket: self.bucket.clone(), name: self.name(oid) }
    }

    /// The object that `oid` is written to.
    pub fn put(&self, oid: &str) -> (r: Source)
        ensures
            self.names(oid@, r),
    {
        Source { bucket: self.bucket.clone(), name: self.name(oid) }
    }

    /// The name of the object `oid`.
    pub fn name(&self, oid: &str) -> (r: String)
        ensures
            r@ == name_of(self.prefix, oid@),
    {
        match &self.prefix {
            Some(prefix) => concat(prefix.as_str(), oid),
            None => oid.to_owned(),
        }
    }
}

/// The failure that an answer of the object store amounts to: a refusal
/// becomes the error of a server, with the store's status and answer.
pub fn map_err(e: ApiError) -> (r: Failure)
    ensures
        match e {
            ApiError::Api { status, body } => r == Failure::Server(
                Error { code: status, message: body },
            ),
            ApiError::Other(text) => r == Failure::Other(text),
        },
{
    match e {
        ApiError::Api { status, body } => Failure::Server(Error { code: status, message: body }),
        ApiError::Other(text) => Failure::Other(text),
    }
}

} // verus!
