//! The framing of the messages: one message is one line. The reader cuts
//! the bytes that arrive into lines, and the writer ends each message with
//! a line feed.

use crate::misc::{output_text, text_of, Failure};
use crate::text::{trim, trimmed};
use vstd::prelude::*;

verus! {

/// The position of the first line feed in `bytes`, or the length of `bytes`
/// if there is none.
pub open spec fn line_end(bytes: Seq<u8>) -> int
    decreases bytes.len(),
{
    if bytes.len() == 0 || bytes[0] == 10 {
        0
    } else {
        1 + line_end(bytes.drop_first())
    }
}

/// `bytes` without one trailing carriage return.
pub open spec fn without_cr(bytes: Seq<u8>) -> Seq<u8> {
    if bytes.len() > 0 && bytes.last() == 13 {
        bytes.drop_last()
    } else {
        bytes
    }
}

/// Whether `bytes` hold a whole line.
pub open spec fn has_line(bytes: Seq<u8>) -> bool {
    line_end(bytes) < bytes.len()
}

/// The first line of `bytes`, without its end.
pub open spec fn first_line(bytes: Seq<u8>) -> Seq<u8> {
    without_cr(bytes.take(line_end(bytes)))
}

/// What follows the first line of `bytes`.
pub open spec fn after_line(bytes: Seq<u8>) -> Seq<u8> {
    bytes.skip(line_end(bytes) + 1)
}

proof fn lemma_line_end(bytes: Seq<u8>, i: int)
    requires
        0 <= i <= bytes.len(),
        i < bytes.len() ==> bytes[i] == 10,
        forall|j: int| 0 <= j < i ==> bytes[j] != 10,
    ensures
        line_end(bytes) == i,
    decreases i,
{
    if i > 0 {
        let rest = bytes.drop_first();
        assert forall|j: int| 0 <= j < i - 1 implies rest[j] != 10 by {
            assert(rest[j] == bytes[j + 1]);
        }
        if i < bytes.len() {
            assert(rest[i - 1] == bytes[i]);
        }
        lemma_line_end(rest, i - 1);
    }
}

/// The reader of messages: it holds the bytes that arrived and were not yet
/// handed out as lines.
pub struct Reader {
    buffer: Vec<u8>,
}

impl Reader {
    /// The bytes that arrived and were not yet handed out.
    pub closed spec fn pending(&self) -> Seq<u8> {
        self.buffer@
    }

    /// A reader that holds nothing.
    pub fn new() -> (r: Reader)
        ensures
            r.pending() == Seq::<u8>::empty(),
    {
        Reader { buffer: Vec::new() }
    }

    /// Takes in the bytes that arrived.
    pub fn feed(&mut self, bytes: &[u8])
        ensures
            final(self).pending() == old(self).pending() + bytes@,
    {
        let mut i: usize = 0;
        while i < bytes.len()
            invariant
                i <= bytes.len(),
                self.buffer@ == old(self).buffer@ + bytes@.take(i as int),
            decreases bytes.len() - i,
        {
            self.buffer.push(bytes[i]);
            assert(bytes@.take(i + 1) =~= bytes@.take(i as int).push(bytes@[i as int]));
            i += 1;
        }
        assert(bytes@.take(bytes.len() as int) =~= bytes@);
    }

    /// The next line, once a whole line has arrived: the bytes before the
    /// line feed, without a carriage return at their end.
    pub fn read(&mut self) -> (r: Option<Vec<u8>>)
        ensures
            r is Some <==> has_line(old(self).pending()),
            r matches Some(line) ==> line@ == first_line(old(self).pending())
                && final(self).pending() == after_line(old(self).pending()),
            r is None ==> final(self).pending() == old(self).pending(),
    {
        let n = self.buffer.len();
        let mut i: usize = 0;
        while i < n && self.buffer[i] != 10
            invariant
                n == self.buffer.len(),
                self.buffer@ == old(self).buffer@,
                i <= n,
                forall|j: int| 0 <= j < i ==> self.buffer@[j] != 10,
            decreases n - i,
        {
            i += 1;
        }
        proof {
            lemma_line_end(self.buffer@, i as int);
        }
        if i >= n {
            return None;
        }
        let rest = self.buffer.split_off(i + 1);
        let mut line: Vec<u8> = Vec::new();
        core::mem::swap(&mut self.buffer, &mut line);
        self.buffer = rest;
        let ghost whole = old(self).buffer@;
        assert(line@ =~= whole.take(i + 1));
        line.pop();
        assert(line@ =~= whole.take(i as int));
        if line.len() > 0 && line[line.len() - 1] == 13 {
            line.pop();
        }
        assert(line@ =~= first_line(whole));
        assert(self.buffer@ =~= after_line(whole));
        Some(line)
    }

    /// The last line, when nothing more arrives: the bytes that are left,
    /// unless there are none.
    pub fn finish(self) -> (r: Option<Vec<u8>>)
        ensures
            r is Some <==> self.pending().len() > 0,
            r matches Some(line) ==> line@ == self.pending(),
    {
        if self.buffer.len() > 0 {
            Some(self.buffer)
        } else {
            None
        }
    }
}

/// The text of the message that the line `line` holds. A line that is not
/// well-formed UTF-8 holds none, and neither does a blank line.
pub fn message(line: Vec<u8>) -> (r: Result<String, Failure>)
    ensures
        match text_of(line@) {
            Some(t) => if trimmed(t).len() == 0 {
                r matches Err(Failure::Other(m)) && m@ == "blank line"@
            } else {
                r matches Ok(s) && s@ == t
            },
            None => r matches Err(Failure::Other(m)) && m@ == "invalid utf-8"@,
        },
{
    match output_text(line) {
        Ok(text) => {
            if trim(text.as_str()).unicode_len() == 0 {
                Err(Failure::other("blank line"))
            } else {
                Ok(text)
            }
        },
        Err(f) => Err(f),
    }
}

/// The writer of messages.
pub struct Writer {}

impl Writer {
    /// A writer of messages.
    pub fn new() -> (r: Writer) {
        Writer {  }
    }

    /// The bytes that send the message `line`: the message, then a line
    /// feed. They are to be written and flushed at once.
    pub fn write(&mut self, line: Vec<u8>) -> (r: Vec<u8>)
        ensures
            r@ == line@.push(10u8),
    {
        let mut r = line;
        r.push(10u8);
        r
    }
}

} // verus!
