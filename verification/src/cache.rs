//! The secondary cache: one of three backends behind one contract. What a
//! backend reads and sends is done by its caller; this module says where an
//! object lies in each backend and what a hit reports.
//!
//! The size that is declared for an object is a hint to every backend when
//! an object is fetched, and to the cache in a directory when one is stored.
//! Where an object is stored over HTTP or in the object store, the request
//! announces the declared size as the length of its body.

use crate::misc::Failure;
use vstd::prelude::*;

pub mod filesystem;
pub mod google_cloud_storage;
pub mod http;

verus! {

/// A configured cache.
#[derive(Debug)]
pub enum Cache {
    Filesystem(filesystem::Cache),
    GoogleCloudStorage(google_cloud_storage::Cache),
    Http(http::Cache),
}

/// The configuration of a cache.
#[derive(Debug)]
pub enum Args {
    Filesystem(filesystem::Opts),
    GoogleCloudStorage(google_cloud_storage::Args),
    Http(http::Args),
}

/// Where a hit came from.
#[derive(Debug)]
pub enum Source {
    Filesystem(filesystem::Source),
    GoogleCloudStorage(google_cloud_storage::Source),
    Http(http::Source),
}

/// Where a backend finds or puts an object.
#[derive(Debug)]
pub enum Place {
    Filesystem(filesystem::Place),
    GoogleCloudStorage(google_cloud_storage::Source),
    Http(http::Source),
}

impl Cache {
    /// Whether this is the cache that `args` configures.
    pub open spec fn configured_by(&self, args: Args) -> bool {
        match (args, *self) {
            (Args::Filesystem(a), Cache::Filesystem(c)) => c == filesystem::Cache::of(a),
            (Args::GoogleCloudStorage(a), Cache::GoogleCloudStorage(c)) => c
                == google_cloud_storage::Cache::of(a),
            (Args::Http(a), Cache::Http(c)) => c == http::Cache::of(a),
            _ => false,
        }
    }

    /// The cache that `args` configures.
    pub fn new(args: Args) -> (r: Cache)
        ensures
            r.configured_by(args),
    {
        match args {
            Args::Filesystem(a) => Cache::Filesystem(filesystem::Cache::new(a)),
            Args::GoogleCloudStorage(a) => Cache::GoogleCloudStorage(
                google_cloud_storage::Cache::new(a),
            ),
            Args::Http(a) => Cache::Http(http::Cache::new(a)),
        }
    }

    /// Where the object `oid` is fetched from.
    pub fn get(&self, oid: &str) -> (r: Result<Place, Failure>)
        requires
            self is Filesystem ==> oid@.len() >= 4,
        ensures
            match *self {
                Cache::Filesystem(c) => r matches Ok(Place::Filesystem(p)) && c.places(oid@, p),
                Cache::GoogleCloudStorage(c) => r matches Ok(Place::GoogleCloudStorage(s))
                    && c.names(oid@, s),
                Cache::Http(c) => match r {
                    Ok(Place::Http(s)) => c.locates(oid@, Ok(s)),
                    Err(f) => c.locates(oid@, Err(f)),
                    _ => false,
                },
            },
    {
        match self {
            Cache::Filesystem(c) => Ok(Place::Filesystem(c.get(oid))),
            Cache::GoogleCloudStorage(c) => Ok(Place::GoogleCloudStorage(c.get(oid))),
            Cache::Http(c) => match c.get(oid) {
                Ok(s) => Ok(Place::Http(s)),
                Err(f) => Err(f),
            },
        }
    }

    /// Where the object `oid` is stored.
    pub fn put(&self, oid: &str) -> (r: Result<Place, Failure>)
        requires
            self is Filesystem ==> oid@.len() >= 4,
        ensures
            match *self {
                Cache::Filesystem(c) => r matches Ok(Place::Filesystem(p)) && c.places(oid@, p),
                Cache::GoogleCloudStorage(c) => r matches Ok(Place::GoogleCloudStorage(s))
                    && c.names(oid@, s),
                Cache::Http(c) => match r {
                    Ok(Place::Http(s)) => c.locates(oid@, Ok(s)),
                    Err(f) => c.locates(oid@, Err(f)),
                    _ => false,
                },
            },
    {
        match self {
            Cache::Filesystem(c) => Ok(Place::Filesystem(c.put(oid))),
            Cache::GoogleCloudStorage(c) => Ok(Place::GoogleCloudStorage(c.put(oid))),
            Cache::Http(c) => match c.put(oid) {
                Ok(s) => Ok(Place::Http(s)),
                Err(f) => Err(f),
            },
        }
    }
}

impl Place {
    /// What a hit at this place reports as its source.
    pub fn source(self) -> (r: Source)
        ensures
            match (self, r) {
                (Place::Filesystem(p), Source::Filesystem(s)) => s.path == p.path,
                (Place::GoogleCloudStorage(p), Source::GoogleCloudStorage(s)) => s == p,
                (Place::Http(p), Source::Http(s)) => s == p,
                _ => false,
            },
    {
        match self {
            Place::Filesystem(p) => Source::Filesystem(filesystem::Source { path: p.path }),
            Place::GoogleCloudStorage(s) => Source::GoogleCloudStorage(s),
            Place::Http(s) => Source::Http(s),
        }
    }
}

} // verus!
