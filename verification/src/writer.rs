//! A channel whose writer owns the file: the writer names the file when it
//! is made, opens the streams, and hands the path on when it finishes. A
//! writer that goes away before that leaves no file.

use crate::channel::{Cursor, Published, Writer as Books};
use crate::text::{join_path, joined_path};
use vstd::prelude::*;

verus! {

/// Whether `name` can be the name of a writer's file: thirty-six characters,
/// each a hexadecimal digit in lower case or a hyphen.
pub open spec fn is_name(name: Seq<char>) -> bool {
    &&& name.len() == 36
    &&& forall|i: int|
        0 <= i < name.len() ==> {
            let c = #[trigger] name[i];
            ('0' <= c && c <= '9') || ('a' <= c && c <= 'f') || c == '-'
        }
}

/// `Uuid::new_v4` of the `uuid` crate, in its hyphenated form: a name drawn
/// at random. Whatever is drawn, the name has thirty-six characters, each a
/// hexadecimal digit in lower case or a hyphen.
#[verifier::external_body]
fn random_name() -> (r: String)
    ensures
        is_name(r@),
{
    ::uuid::Uuid::new_v4().to_string()
}

/// The writer of a channel in a file of its own.
pub struct Writer {
    path: Option<String>,
    books: Books,
}

/// A writer whose file lies in `dir`, under a name drawn at random. The
/// file is for the caller to create, with the directories above it.
pub fn new_in(dir: &str) -> (r: Writer)
    ensures
        r.wf(),
        r.written() == Seq::<Seq<u8>>::empty(),
        r.published() == Published::start(),
        exists|name: Seq<char>| is_name(name) && r.path() == Some(joined_path(dir@, name)),
{
    let name = random_name();
    let path = join_path(dir, name.as_str());
    let w = Writer { path: Some(path), books: Books::start() };
    assert(is_name(name@) && w.path() == Some(joined_path(dir@, name@)));
    w
}

impl Writer {
    /// The path of the file, as long as the writer owns it.
    pub closed spec fn path(&self) -> Option<Seq<char>> {
        match self.path {
            Some(p) => Some(p@),
            None => None,
        }
    }

    /// The chunks written.
    pub closed spec fn written(&self) -> Seq<Seq<u8>> {
        self.books.written()
    }

    /// What the writer has published.
    pub closed spec fn published(&self) -> Published {
        self.books.published()
    }

    /// The writer owns its file, and its books are in order.
    pub closed spec fn wf(&self) -> bool {
        self.path is Some && self.books.wf()
    }

    /// The path of the file.
    pub fn file(&self) -> (r: Option<&String>)
        ensures
            r is Some <==> self.path() is Some,
            r matches Some(p) ==> self.path() == Some(p@),
    {
        match &self.path {
            Some(p) => Some(p),
            None => None,
        }
    }

    /// Counts the chunk `data`, which was appended to the file, and gives
    /// what is to be published.
    pub fn write(&mut self, data: &[u8]) -> (r: Published)
        requires
            old(self).wf(),
            old(self).published().length + data@.len() <= u64::MAX,
        ensures
            final(self).wf(),
            final(self).path() == old(self).path(),
            final(self).written() == old(self).written().push(data@),
            final(self).published() == r,
            r == old(self).published().grown(data@.len()),
    {
        self.books.write(data)
    }

    /// Finishes, after the file was flushed: gives what is to be published
    /// and the path of the file, which the caller owns from now on.
    pub fn finish(self) -> (r: (Published, String))
        requires
            self.wf(),
        ensures
            r.0 == self.published().ended(),
            self.path() == Some(r.1@),
    {
        let published = self.books.finish();
        match self.path {
            Some(p) => (published, p),
            None => (published, String::new()),
        }
    }

    /// A new stream, at the start of the file.
    pub fn subscribe(&self) -> (r: Cursor)
        ensures
            r == Cursor::start(),
    {
        Cursor { position: 0, generation: 0 }
    }

    /// Ends a writer that has not finished: gives the path of the file,
    /// which the caller removes.
    pub fn drop(self) -> (r: Option<String>)
        ensures
            r is Some <==> self.path() is Some,
            r matches Some(p) ==> self.path() == Some(p@),
    {
        self.path
    }
}

} // verus!
