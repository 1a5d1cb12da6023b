//! The statistics of the telemetry: how many objects were transferred and
//! how large they were, in all and for hits and misses of the cache.

use crate::logs::Line;
use crate::text::{decimal, decimal_of, ends_with, to_chars};
use vstd::prelude::*;

verus! {

/// How a size reads for a person, in binary units.
pub uninterp spec fn formatted_size(size: u64) -> Seq<char>;

/// `humansize::format_size` with the `BINARY` options.
#[verifier::external_body]
fn format_size(size: u64) -> (r: String)
    ensures
        r@ == formatted_size(size),
{
    ::humansize::format_size(size, ::humansize::BINARY)
}

/// A number of objects and their size in all.
#[derive(Clone, Copy, Debug, PartialEq, Eq, Structural)]
pub struct Stat {
    pub count: usize,
    pub size: u64,
}

/// The statistics of a set of records.
#[derive(Clone, Copy, Debug, PartialEq, Eq, Structural)]
pub struct Stats {
    pub total: Stat,
    pub hit: Stat,
    pub miss: Stat,
}

impl Stat {
    /// No objects.
    pub fn new() -> (r: Stat)
        ensures
            r == (Stat { count: 0, size: 0 }),
    {
        Stat { count: 0, size: 0 }
    }

    /// Whether one more object of `size` bytes can be counted.
    pub open spec fn has_room(&self, size: u64) -> bool {
        self.count < usize::MAX && self.size + size <= u64::MAX
    }

    /// Whether one more object of `size` bytes can be counted.
    pub fn fits(&self, size: u64) -> (r: bool)
        ensures
            r == self.has_room(size),
    {
        self.count < usize::MAX && size <= u64::MAX - self.size
    }

    /// Counts the object of `line`.
    pub fn push<T>(&mut self, line: &Line<T>)
        requires
            old(self).has_room(line.size),
        ensures
            final(self).count == old(self).count + 1,
            final(self).size == old(self).size + line.size,
    {
        self.count = self.count + 1;
        self.size = self.size + line.size;
    }

    /// How the statistic reads: the number of objects, and their size in
    /// brackets.
    pub open spec fn text_of(count: usize, size: u64) -> Seq<char> {
        decimal_of(count as nat) + " objects ("@ + formatted_size(size) + seq![')']
    }

    /// How the statistic reads.
    pub fn to_text(&self) -> (r: String)
        ensures
            r@ == Stat::text_of(self.count, self.size),
    {
        proof {
            reveal_strlit(")");
            assert(")"@ =~= seq![')']);
        }
        let mut r = decimal(self.count as u64);
        r.append(" objects (");
        r.append(format_size(self.size).as_str());
        r.append(")");
        r
    }
}

impl Stats {
    /// The statistics of no records.
    pub fn new() -> (r: Stats)
        ensures
            r.total == (Stat { count: 0, size: 0 }),
            r.hit == r.total,
            r.miss == r.total,
    {
        Stats { total: Stat::new(), hit: Stat::new(), miss: Stat::new() }
    }

    /// Whether a record of `size` bytes can be counted.
    pub open spec fn has_room(&self, size: u64) -> bool {
        self.total.has_room(size) && self.hit.has_room(size) && self.miss.has_room(size)
    }

    /// Counts the record `line`: in all, and as a hit where it names the
    /// cache as its source, else as a miss. `false`, and nothing counted,
    /// where the counters would overflow.
    pub fn record<T>(&mut self, line: &Line<T>) -> (r: bool)
        ensures
            r == old(self).has_room(line.size),
            !r ==> *final(self) == *old(self),
            r ==> final(self).total == (Stat {
                count: (old(self).total.count + 1) as usize,
                size: (old(self).total.size + line.size) as u64,
            }),
            r && line.cache is Some ==> final(self).miss == old(self).miss && final(self).hit == (
            Stat {
                count: (old(self).hit.count + 1) as usize,
                size: (old(self).hit.size + line.size) as u64,
            }),
            r && line.cache is None ==> final(self).hit == old(self).hit && final(self).miss == (
            Stat {
                count: (old(self).miss.count + 1) as usize,
                size: (old(self).miss.size + line.size) as u64,
            }),
    {
        if !(self.total.fits(line.size) && self.hit.fits(line.size) && self.miss.fits(line.size)) {
            return false;
        }
        self.total.push(line);
        if line.cache.is_some() {
            self.hit.push(line);
        } else {
            self.miss.push(line);
        }
        true
    }
}

/// Whether a file with the name `name` holds records: its name ends with
/// the extension of the records and is more than the extension.
pub fn is_log(name: &str) -> (r: bool)
    ensures
        r == (".jsonl"@.is_suffix_of(name@) && name@.len() > ".jsonl"@.len()),
{
    let cs = to_chars(name);
    let xs = to_chars(".jsonl");
    ends_with(&cs, &xs) && cs.len() > xs.len()
}

} // verus!
