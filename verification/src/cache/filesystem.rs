//! The cache in a directory: an object lies below two levels of
//! subdirectories, named by the first and the second pair of characters of
//! its identifier.

use crate::text::{join_path, joined_path};
use vstd::prelude::*;

verus! {

/// A cache in the directory `dir`.
#[derive(Debug)]
pub struct Cache {
    pub dir: String,
}

/// The configuration of the cache: its root directory.
#[derive(Debug)]
pub struct Opts {
    pub dir: String,
}

/// The file that a hit was read from.
#[derive(Debug)]
pub struct Source {
    pub path: String,
}

/// The file of an object and the directory that holds it. A new object is
/// written to a file of its own in `parent` and renamed to `path` when it is
/// complete.
#[derive(Debug)]
pub struct Place {
    pub parent: String,
    pub path: String,
}

/// The directory of the object `oid` below `dir`.
pub open spec fn parent_of(dir: Seq<char>, oid: Seq<char>) -> Seq<char>
    recommends
        oid.len() >= 4,
{
    joined_path(joined_path(dir, oid.subrange(0, 2)), oid.subrange(2, 4))
}

/// The file of the object `oid` below `dir`.
pub open spec fn path_of(dir: Seq<char>, oid: Seq<char>) -> Seq<char>
    recommends
        oid.len() >= 4,
{
    joined_path(parent_of(dir, oid), oid)
}

impl Cache {
    /// The cache that `opts` configures.
    pub open spec fn of(opts: Opts) -> Cache {
        Cache { dir: opts.dir }
    }

    /// Whether `place` is where this cache keeps the object `oid`.
    pub open spec fn places(&self, oid: Seq<char>, place: Place) -> bool {
        &&& place.parent@ == parent_of(self.dir@, oid)
        &&& place.path@ == path_of(self.dir@, oid)
    }

    /// The cache in the directory that `opts` names. The directory is
    /// expected to exist and to be given in canonical form.
    pub fn new(opts: Opts) -> (r: Cache)
        ensures
            r == Cache::of(opts),
    {
        Cache { dir: opts.dir }
    }

    /// Where the object `oid` is read from.
    pub fn get(&self, oid: &str) -> (r: Place)
        requires
            oid@.len() >= 4,
        ensures
            self.places(oid@, r),
    {
        self.place(oid)
    }

    /// Where the object `oid` is written to.
    pub fn put(&self, oid: &str) -> (r: Place)
        requires
            oid@.len() >= 4,
        ensures
            self.places(oid@, r),
    {
        self.place(oid)
    }

    fn place(&self, oid: &str) -> (r: Place)
        requires
            oid@.len() >= 4,
        ensures
            self.places(oid@, r),
    {
        let first = join_path(self.dir.as_str(), oid.substring_char(0, 2));
        let parent = join_path(first.as_str(), oid.substring_char(2, 4));
        let path = join_path(parent.as_str(), oid);
        Place { parent, path }
    }

    /// The file of the object `oid`.
    pub fn path(&self, oid: &str) -> (r: String)
        requires
            oid@.len() >= 4,
        ensures
            r@ == path_of(self.dir@, oid@),
    {
        self.place(oid).path
    }
}

} // verus!
