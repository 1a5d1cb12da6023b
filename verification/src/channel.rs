//! The fan-out channel: one writer appends bytes to a file and publishes how
//! far it has come; any number of readers follow it, each with a cursor of
//! its own. This module keeps the writer's books and decides what a reader
//! does next. Its caller owns the file and hands the publication on.
//!
//! The laws at the end of the module speak of a model of the whole channel:
//! the bytes written, how many of them the file holds, what is published,
//! and one reader.

use vstd::prelude::*;

verus! {

/// What the writer has published: the length that it has written, whether
/// it has finished, and how often it has started over.
#[derive(Clone, Copy, Debug, PartialEq, Eq, Structural)]
pub struct Published {
    pub length: u64,
    pub eof: bool,
    pub generation: u64,
}

impl Published {
    /// What is published at the start: nothing written, in the first
    /// generation.
    pub open spec fn start() -> Published {
        Published { length: 0, eof: false, generation: 0 }
    }

    /// What is published after `len` more bytes were written.
    pub open spec fn grown(self, len: nat) -> Published {
        Published { length: (self.length + len) as u64, ..self }
    }

    /// What is published after the writer started over: nothing written,
    /// in the next generation.
    pub open spec fn restarted(self) -> Published {
        Published { length: 0, eof: false, generation: (self.generation + 1) as u64 }
    }

    /// What is published after the writer finished.
    pub open spec fn ended(self) -> Published {
        Published { eof: true, ..self }
    }
}

/// Why a reader fails.
#[derive(Clone, Copy, Debug, PartialEq, Eq, Structural)]
pub enum Broken {
    /// The writer went away without finishing.
    Pipe,
    /// The writer started over after the reader had read.
    Reset,
}

/// What a reader does next.
#[derive(Clone, Copy, Debug, PartialEq, Eq, Structural)]
pub enum Poll {
    /// It reads the next block from the file.
    Read,
    /// It waits for the next publication.
    Wait,
    /// Its stream ends.
    End,
    /// Its stream fails.
    Fail(Broken),
}

/// What a reader does with what it read.
#[derive(Clone, Copy, Debug, PartialEq, Eq, Structural)]
pub enum Advance {
    /// It hands the block on.
    Emit,
    /// The block was empty: it waits for the next publication.
    Wait,
    /// The block was empty and the writer is gone: its stream fails.
    Fail(Broken),
}

/// The life of a channel.
#[derive(Clone, Copy, Debug, PartialEq, Eq, Structural)]
pub enum State {
    /// The file exists and nothing was written.
    Fresh,
    /// The writer is at work.
    Open,
    /// The writer has emptied the file and not yet published that.
    ResetPending,
    /// The writer has finished.
    Closed,
    /// The file was kept.
    Kept,
    /// The file was removed.
    Discarded,
}

/// What happens to a channel.
#[derive(Clone, Copy, Debug, PartialEq, Eq, Structural)]
pub enum Transition {
    Init,
    Truncate,
    Publish,
    Finish,
    Keep,
    Drop,
}

impl State {
    /// The state after `t`, where `t` may happen in this state: a channel
    /// is initialized once, started over only while it is open, kept only
    /// when it is closed, and dropped in any state but when it was kept.
    pub open spec fn after(self, t: Transition) -> Option<State> {
        match (self, t) {
            (State::Fresh, Transition::Init) => Some(State::Open),
            (State::Open, Transition::Truncate) => Some(State::ResetPending),
            (State::ResetPending, Transition::Publish) => Some(State::Open),
            (State::Open, Transition::Finish) => Some(State::Closed),
            (State::Closed, Transition::Keep) => Some(State::Kept),
            (State::Kept, Transition::Drop) => None,
            (State::Discarded, Transition::Drop) => None,
            (_, Transition::Drop) => Some(State::Discarded),
            _ => None,
        }
    }

    /// The state after `t`, where `t` may happen in this state.
    pub fn next(self, t: Transition) -> (r: Option<State>)
        ensures
            r == self.after(t),
    {
        match (self, t) {
            (State::Fresh, Transition::Init) => Some(State::Open),
            (State::Open, Transition::Truncate) => Some(State::ResetPending),
            (State::ResetPending, Transition::Publish) => Some(State::Open),
            (State::Open, Transition::Finish) => Some(State::Closed),
            (State::Closed, Transition::Keep) => Some(State::Kept),
            (State::Kept, Transition::Drop) => None,
            (State::Discarded, Transition::Drop) => None,
            (_, Transition::Drop) => Some(State::Discarded),
            _ => None,
        }
    }

    /// Whether the file is removed when the channel goes away in this
    /// state: always, unless it was kept or is removed already.
    pub fn unlinks(self) -> (r: bool)
        ensures
            r == (self.after(Transition::Drop) == Some(State::Discarded)),
    {
        match self {
            State::Kept | State::Discarded => false,
            _ => true,
        }
    }
}

/// The chunks `chunks` one after the other.
pub open spec fn joined(chunks: Seq<Seq<u8>>) -> Seq<u8>
    decreases chunks.len(),
{
    if chunks.len() == 0 {
        Seq::empty()
    } else {
        joined(chunks.drop_last()) + chunks.last()
    }
}

/// A channel: it knows the size that its object is declared to have, and
/// how far its life has come.
#[derive(Debug)]
pub struct Channel {
    size: u64,
    state: State,
}

/// A channel for an object of the declared size `size`.
pub fn new_in(size: u64) -> (r: Channel)
    ensures
        r.wf(),
        r.size() == size,
        r.state() == State::Fresh,
{
    Channel { size, state: State::Fresh }
}

impl Channel {
    /// The declared size.
    pub closed spec fn size(&self) -> u64 {
        self.size
    }

    /// The state of the channel.
    pub closed spec fn state(&self) -> State {
        self.state
    }

    /// A channel that is there has its file: it was neither kept nor
    /// removed.
    pub open spec fn wf(&self) -> bool {
        self.state() != State::Kept && self.state() != State::Discarded
    }

    /// The declared size.
    pub fn declared_size(&self) -> (r: u64)
        ensures
            r == self.size(),
    {
        self.size
    }

    /// The state of the channel.
    pub fn current(&self) -> (r: State)
        ensures
            r == self.state(),
    {
        self.state
    }

    /// The writer and a reader of the channel, which starts empty. A
    /// channel that is initialized again starts over with a new writer.
    pub fn init(&mut self) -> (r: (Writer, Reader))
        requires
            old(self).wf(),
        ensures
            final(self).wf(),
            final(self).size() == old(self).size(),
            final(self).state() == State::Open,
            r.0.wf(),
            r.0.written() == Seq::<Seq<u8>>::empty(),
            r.0.published() == Published::start(),
    {
        self.state = State::Open;
        (Writer::start(), Reader {  })
    }

    /// Takes note of what the writer did: `Truncate`, `Publish` or
    /// `Finish`. Whether it may happen in this state; the channel stays as
    /// it is where it may not.
    pub fn record(&mut self, t: Transition) -> (r: bool)
        requires
            old(self).wf(),
        ensures
            final(self).wf(),
            final(self).size() == old(self).size(),
            r == ((t == Transition::Truncate || t == Transition::Publish || t
                == Transition::Finish) && old(self).state().after(t) is Some),
            r ==> Some(final(self).state()) == old(self).state().after(t),
            !r ==> final(self).state() == old(self).state(),
    {
        match t {
            Transition::Truncate | Transition::Publish | Transition::Finish => {},
            _ => {
                return false;
            },
        }
        match self.state.next(t) {
            Some(s) => {
                self.state = s;
                true
            },
            None => false,
        }
    }

    /// Ends the channel: its file is kept, and its caller then owns it,
    /// where the writer has finished; else the file is removed.
    pub fn keep(self) -> (r: State)
        requires
            self.wf(),
        ensures
            self.state() == State::Closed ==> r == State::Kept,
            self.state() != State::Closed ==> r == State::Discarded,
            Some(r) == self.state().after(Transition::Keep) || Some(r) == self.state().after(
                Transition::Drop,
            ),
    {
        match self.state.next(Transition::Keep) {
            Some(s) => s,
            None => State::Discarded,
        }
    }
}

/// The exclusive end of a channel: it appends, starts over, and finishes.
pub struct Writer {
    published: Published,
    written: Ghost<Seq<Seq<u8>>>,
}

impl Writer {
    /// The chunks written since the writer last started over.
    pub closed spec fn written(&self) -> Seq<Seq<u8>> {
        self.written@
    }

    /// What the writer has published.
    pub closed spec fn published(&self) -> Published {
        self.published
    }

    /// The published length is that of the chunks written, and the writer
    /// has not finished.
    pub open spec fn wf(&self) -> bool {
        &&& self.published().length == joined(self.written()).len()
        &&& !self.published().eof
    }

    /// The writer of a channel that starts empty.
    pub fn start() -> (r: Writer)
        ensures
            r.wf(),
            r.written() == Seq::<Seq<u8>>::empty(),
            r.published() == Published::start(),
    {
        Writer {
            published: Published { length: 0, eof: false, generation: 0 },
            written: Ghost(Seq::empty()),
        }
    }

    /// What the writer has published.
    pub fn state(&self) -> (r: Published)
        ensures
            r == self.published(),
    {
        self.published
    }

    /// Counts the chunk `data`, which was appended to the file, and gives
    /// what is to be published: the length has grown by the chunk.
    pub fn write(&mut self, data: &[u8]) -> (r: Published)
        requires
            old(self).wf(),
            old(self).published().length + data@.len() <= u64::MAX,
        ensures
            final(self).wf(),
            final(self).written() == old(self).written().push(data@),
            final(self).published() == r,
            r == old(self).published().grown(data@.len()),
    {
        proof {
            assert(self.written@.push(data@).drop_last() =~= self.written@);
        }
        self.written = Ghost(self.written@.push(data@));
        self.published.length = self.published.length + data.len() as u64;
        self.published
    }

    /// Starts over, after the file was emptied, and gives what is to be
    /// published: nothing written, in the next generation.
    pub fn reset(&mut self) -> (r: Published)
        requires
            old(self).wf(),
            old(self).published().generation < u64::MAX,
        ensures
            final(self).wf(),
            final(self).written() == Seq::<Seq<u8>>::empty(),
            final(self).published() == r,
            r == old(self).published().restarted(),
    {
        self.written = Ghost(Seq::empty());
        self.published = Published {
            length: 0,
            eof: false,
            generation: self.published.generation + 1,
        };
        self.published
    }

    /// Finishes, after the file was flushed, and gives what is to be
    /// published: the same length, and the end.
    pub fn finish(self) -> (r: Published)
        requires
            self.wf(),
        ensures
            r == self.published().ended(),
            r.length == joined(self.written()).len(),
    {
        Published {
            length: self.published.length,
            eof: true,
            generation: self.published.generation,
        }
    }
}

/// The shared end of a channel: it opens streams.
#[derive(Clone, Copy, Debug)]
pub struct Reader {}

impl Reader {
    /// A new stream, at the start of the file.
    pub fn stream(&self) -> (r: Cursor)
        ensures
            r == Cursor::start(),
    {
        Cursor { position: 0, generation: 0 }
    }
}

/// The place of one stream: how far it has read, and the generation that it
/// reads.
#[derive(Clone, Copy, Debug, PartialEq, Eq, Structural)]
pub struct Cursor {
    pub position: u64,
    pub generation: u64,
}

impl Cursor {
    /// The cursor of a new stream.
    pub open spec fn start() -> Cursor {
        Cursor { position: 0, generation: 0 }
    }

    /// The cursor after it has seen `seen`: a cursor that has read nothing
    /// reads the generation that it sees.
    pub open spec fn adopted(self, seen: Published) -> Cursor {
        if self.position == 0 {
            Cursor { position: 0, generation: seen.generation }
        } else {
            self
        }
    }

    /// What the stream does when it sees `seen`, `closed` telling whether
    /// the writer is gone. It fails where the writer has started over
    /// since it read. Else it reads as long as it is behind what is
    /// published; at the published length it ends if the writer has
    /// finished, fails if the writer is gone, and waits otherwise.
    pub open spec fn polled(self, seen: Published, closed: bool) -> Poll {
        if self.position > 0 && self.generation != seen.generation {
            Poll::Fail(Broken::Reset)
        } else if self.position < seen.length {
            Poll::Read
        } else if seen.eof {
            Poll::End
        } else if closed {
            Poll::Fail(Broken::Pipe)
        } else {
            Poll::Wait
        }
    }

    /// What the stream does after it read a block of `len` bytes.
    pub open spec fn advanced(len: nat, closed: bool) -> Advance {
        if len > 0 {
            Advance::Emit
        } else if closed {
            Advance::Fail(Broken::Pipe)
        } else {
            Advance::Wait
        }
    }

    /// What the stream does next, having seen `seen`.
    pub fn poll(&mut self, seen: Published, closed: bool) -> (r: Poll)
        ensures
            r == old(self).polled(seen, closed),
            *final(self) == old(self).adopted(seen),
    {
        if self.position > 0 && self.generation != seen.generation {
            return Poll::Fail(Broken::Reset);
        }
        if self.position == 0 {
            self.generation = seen.generation;
        }
        if self.position < seen.length {
            Poll::Read
        } else if seen.eof {
            Poll::End
        } else if closed {
            Poll::Fail(Broken::Pipe)
        } else {
            Poll::Wait
        }
    }

    /// Moves the cursor over a block of `len` bytes that was read, and says
    /// what the stream does with it.
    pub fn advance(&mut self, len: usize, closed: bool) -> (r: Advance)
        requires
            old(self).position + len <= u64::MAX,
        ensures
            final(self).position == old(self).position + len,
            final(self).generation == old(self).generation,
            r == Cursor::advanced(len as nat, closed),
    {
        self.position = self.position + len as u64;
        if len > 0 {
            Advance::Emit
        } else if closed {
            Advance::Fail(Broken::Pipe)
        } else {
            Advance::Wait
        }
    }
}

/// The channel as the laws see it.
pub ghost struct Pipe {
    /// The chunks written since the writer last started over.
    pub written: Seq<Seq<u8>>,
    /// How many of their bytes the file holds.
    pub flushed: nat,
    /// What is published.
    pub published: Published,
    /// Whether the writer is there.
    pub open: bool,
    /// Whether the writer has emptied the file and not yet published that.
    pub resetting: bool,
}

/// One stream as the laws see it.
pub ghost struct Stream {
    pub cursor: Cursor,
    /// The bytes that the stream has handed on.
    pub emitted: Seq<u8>,
    /// How the stream ended, once it has: with `End` or with `Fail`.
    pub outcome: Option<Poll>,
}

/// What happens in a channel with one stream.
pub ghost enum Step {
    /// The writer appends a chunk to the file, which may keep it in a
    /// buffer.
    Append(Seq<u8>),
    /// The file comes to hold this many of the bytes written.
    Flush(nat),
    /// The writer publishes the length written.
    Publish,
    /// The writer empties the file.
    Truncate,
    /// The writer publishes that it has started over.
    Republish,
    /// The writer flushes the file and publishes the end.
    Finish,
    /// The writer goes away without finishing.
    Drop,
    /// The stream looks at what is published.
    Poll,
    /// The stream reads a block of this length from the file.
    Read(nat),
}

impl Pipe {
    /// The bytes written since the writer last started over.
    pub open spec fn contents(self) -> Seq<u8> {
        joined(self.written)
    }

    /// A channel after `init`.
    pub open spec fn start() -> Pipe {
        Pipe {
            written: Seq::empty(),
            flushed: 0,
            published: Published { length: 0, eof: false, generation: 0 },
            open: true,
            resetting: false,
        }
    }

    /// The state of the channel's life.
    pub open spec fn state(self) -> State {
        if self.published.eof {
            State::Closed
        } else if !self.open {
            State::Discarded
        } else if self.resetting {
            State::ResetPending
        } else {
            State::Open
        }
    }
}

impl Stream {
    /// A stream that was opened and has done nothing yet. Such a stream
    /// stays as it is until its first step, so that it stands for a stream
    /// opened at any later time as well.
    pub open spec fn start() -> Stream {
        Stream { cursor: Cursor::start(), emitted: Seq::empty(), outcome: None }
    }
}

/// Whether the stream at `position` can read a block of `len` bytes from a
/// file that holds `flushed` bytes: a block is never longer than what the
/// file holds beyond the position, and it is empty only where the file
/// holds nothing there.
pub open spec fn can_read(position: nat, flushed: nat, len: nat) -> bool {
    if position < flushed {
        1 <= len <= flushed - position
    } else {
        len == 0
    }
}

/// The channel and the stream after `step`, where `step` can happen.
pub open spec fn next(pipe: Pipe, stream: Stream, step: Step) -> Option<(Pipe, Stream)> {
    match step {
        Step::Append(data) => if pipe.open && !pipe.resetting && pipe.contents().len() + data.len()
            <= u64::MAX {
            Some((Pipe { written: pipe.written.push(data), ..pipe }, stream))
        } else {
            None
        },
        Step::Flush(n) => if pipe.open && pipe.flushed <= n <= pipe.contents().len() {
            Some((Pipe { flushed: n, ..pipe }, stream))
        } else {
            None
        },
        Step::Publish => if pipe.open && !pipe.resetting {
            Some(
                (
                    Pipe {
                        published: Published {
                            length: pipe.contents().len() as u64,
                            ..pipe.published
                        },
                        ..pipe
                    },
                    stream,
                ),
            )
        } else {
            None
        },
        Step::Truncate => if pipe.open && !pipe.resetting {
            Some((Pipe { written: Seq::empty(), flushed: 0, resetting: true, ..pipe }, stream))
        } else {
            None
        },
        Step::Republish => if pipe.open && pipe.resetting && pipe.published.generation
            < u64::MAX {
            Some(
                (
                    Pipe { published: pipe.published.restarted(), resetting: false, ..pipe },
                    stream,
                ),
            )
        } else {
            None
        },
        Step::Finish => if pipe.open && !pipe.resetting {
            Some(
                (
                    Pipe {
                        flushed: pipe.contents().len(),
                        published: Published {
                            length: pipe.contents().len() as u64,
                            eof: true,
                            ..pipe.published
                        },
                        open: false,
                        ..pipe
                    },
                    stream,
                ),
            )
        } else {
            None
        },
        Step::Drop => if pipe.open {
            Some((Pipe { open: false, ..pipe }, stream))
        } else {
            None
        },
        Step::Poll => if stream.outcome is None {
            let r = stream.cursor.polled(pipe.published, !pipe.open);
            Some(
                (
                    pipe,
                    Stream {
                        cursor: stream.cursor.adopted(pipe.published),
                        outcome: match r {
                            Poll::End => Some(r),
                            Poll::Fail(_) => Some(r),
                            _ => None,
                        },
                        ..stream
                    },
                ),
            )
        } else {
            None
        },
        Step::Read(len) => if stream.outcome is None && can_read(
            stream.cursor.position as nat,
            pipe.flushed,
            len,
        ) && stream.cursor.position + len <= u64::MAX {
            let from = stream.cursor.position as int;
            Some(
                (
                    pipe,
                    Stream {
                        cursor: Cursor {
                            position: (stream.cursor.position + len) as u64,
                            ..stream.cursor
                        },
                        emitted: stream.emitted + pipe.contents().subrange(from, from + len),
                        outcome: match Cursor::advanced(len, !pipe.open) {
                            Advance::Fail(b) => Some(Poll::Fail(b)),
                            _ => None,
                        },
                    },
                ),
            )
        } else {
            None
        },
    }
}

/// The channel and the stream after `steps`, from a channel after `init`
/// and a stream that has done nothing; `None` where a step cannot happen.
pub open spec fn run(steps: Seq<Step>) -> Option<(Pipe, Stream)>
    decreases steps.len(),
{
    if steps.len() == 0 {
        Some((Pipe::start(), Stream::start()))
    } else {
        match run(steps.drop_last()) {
            Some((pipe, stream)) => next(pipe, stream, steps.last()),
            None => None,
        }
    }
}

/// What holds of a channel and a stream at all times.
pub open spec fn inv(pipe: Pipe, stream: Stream) -> bool {
    &&& pipe.flushed <= pipe.contents().len()
    &&& pipe.contents().len() <= u64::MAX
    &&& !pipe.resetting ==> pipe.published.length <= pipe.contents().len()
    &&& pipe.published.eof ==> !pipe.open && !pipe.resetting && pipe.flushed
        == pipe.contents().len() && pipe.published.length == pipe.contents().len()
    &&& pipe.resetting ==> pipe.written.len() == 0 && pipe.flushed == 0
    &&& stream.cursor.generation <= pipe.published.generation
    &&& stream.cursor.position == 0 ==> stream.emitted.len() == 0
    &&& !pipe.resetting && stream.cursor.position > 0 && stream.cursor.generation
        == pipe.published.generation ==> stream.cursor.position <= pipe.flushed && stream.emitted
        == pipe.contents().take(stream.cursor.position as int)
    &&& stream.outcome matches Some(r) ==> r is End || r is Fail
    &&& stream.outcome == Some(Poll::End) ==> pipe.published.eof && stream.emitted
        == pipe.contents()
    &&& !pipe.open && !pipe.published.eof ==> stream.outcome != Some(Poll::End)
}

/// Appending a chunk puts it at the end of the contents.
pub proof fn lemma_joined_push(chunks: Seq<Seq<u8>>, data: Seq<u8>)
    ensures
        joined(chunks.push(data)) == joined(chunks) + data,
{
    assert(chunks.push(data).drop_last() =~= chunks);
}

/// A step keeps what holds at all times.
pub proof fn lemma_next_keeps_inv(pipe: Pipe, stream: Stream, step: Step)
    requires
        inv(pipe, stream),
        next(pipe, stream, step) is Some,
    ensures
        inv(next(pipe, stream, step).unwrap().0, next(pipe, stream, step).unwrap().1),
{
    let (p, s) = next(pipe, stream, step)->0;
    match step {
        Step::Append(data) => {
            lemma_joined_push(pipe.written, data);
            if stream.cursor.position > 0 && stream.cursor.generation
                == pipe.published.generation {
                assert(p.contents().take(stream.cursor.position as int)
                    =~= pipe.contents().take(stream.cursor.position as int));
            }
        },
        Step::Flush(n) => {},
        Step::Publish => {},
        Step::Truncate => {
            assert(joined(Seq::<Seq<u8>>::empty()) =~= Seq::<u8>::empty());
        },
        Step::Republish => {
            assert(joined(Seq::<Seq<u8>>::empty()) =~= Seq::<u8>::empty());
        },
        Step::Finish => {},
        Step::Drop => {},
        Step::Poll => {
            let r = stream.cursor.polled(pipe.published, !pipe.open);
            if r is End {
                if stream.cursor.position > 0 {
                    assert(stream.cursor.position == pipe.contents().len());
                    assert(pipe.contents().take(pipe.contents().len() as int) =~= pipe.contents());
                } else {
                    assert(stream.emitted =~= pipe.contents());
                }
            }
        },
        Step::Read(len) => {
            let from = stream.cursor.position as int;
            if !pipe.resetting && s.cursor.position > 0 && s.cursor.generation
                == pipe.published.generation {
                if stream.cursor.position > 0 {
                    assert(s.emitted =~= pipe.contents().take(s.cursor.position as int));
                } else {
                    assert(stream.emitted =~= Seq::<u8>::empty());
                    assert(s.emitted =~= pipe.contents().take(s.cursor.position as int));
                }
            }
            if s.cursor.position == 0 {
                assert(s.emitted =~= stream.emitted);
            }
        },
    }
}

/// What holds at all times holds after any steps.
pub proof fn lemma_run_inv(steps: Seq<Step>)
    requires
        run(steps) is Some,
    ensures
        inv(run(steps).unwrap().0, run(steps).unwrap().1),
    decreases steps.len(),
{
    if steps.len() == 0 {
        assert(joined(Seq::<Seq<u8>>::empty()) =~= Seq::<u8>::empty());
    } else {
        lemma_run_inv(steps.drop_last());
        let (pipe, stream) = run(steps.drop_last())->0;
        lemma_next_keeps_inv(pipe, stream, steps.last());
    }
}

/// The chunks that `steps` append after the writer last started over.
pub open spec fn appended(steps: Seq<Step>) -> Seq<Seq<u8>>
    decreases steps.len(),
{
    if steps.len() == 0 {
        Seq::empty()
    } else {
        match steps.last() {
            Step::Append(data) => appended(steps.drop_last()).push(data),
            Step::Truncate => Seq::empty(),
            _ => appended(steps.drop_last()),
        }
    }
}

/// Whether the writer starts over in `steps`.
pub open spec fn has_reset(steps: Seq<Step>) -> bool {
    exists|i: int| 0 <= i < steps.len() && steps[i] is Truncate
}

/// The chunks that a channel holds are those appended since the writer last
/// started over.
pub proof fn lemma_run_written(steps: Seq<Step>)
    requires
        run(steps) is Some,
    ensures
        run(steps).unwrap().0.written == appended(steps),
    decreases steps.len(),
{
    if steps.len() > 0 {
        lemma_run_written(steps.drop_last());
    }
}

/// A stream that ends has handed on every byte, in order: whatever the
/// writer and the stream did and in whatever order, and whenever the stream
/// was opened, a stream that ends has handed on the chunks written since
/// the writer last started over, one after the other, and the writer has
/// finished.
pub proof fn lemma_stream_delivers(steps: Seq<Step>)
    requires
        run(steps) is Some,
        run(steps).unwrap().1.outcome == Some(Poll::End),
    ensures
        run(steps).unwrap().1.emitted == joined(appended(steps)),
        run(steps).unwrap().0.published.eof,
        run(steps).unwrap().0.state() == State::Closed,
{
    lemma_run_inv(steps);
    lemma_run_written(steps);
}

/// All the chunks that `steps` append.
pub open spec fn chunks_of(steps: Seq<Step>) -> Seq<Seq<u8>>
    decreases steps.len(),
{
    if steps.len() == 0 {
        Seq::empty()
    } else {
        match steps.last() {
            Step::Append(data) => chunks_of(steps.drop_last()).push(data),
            _ => chunks_of(steps.drop_last()),
        }
    }
}

/// Where the writer never starts over, the chunks written are all the
/// chunks that were ever appended.
pub proof fn lemma_appended_all(steps: Seq<Step>)
    requires
        !has_reset(steps),
    ensures
        appended(steps) == chunks_of(steps),
    decreases steps.len(),
{
    if steps.len() > 0 {
        let head = steps.drop_last();
        assert(!(steps[steps.len() - 1] is Truncate));
        assert forall|k: int| 0 <= k < head.len() implies !(#[trigger] head[k] is Truncate) by {
            assert(head[k] == steps[k]);
        }
        lemma_appended_all(head);
    }
}

/// Writes and a finish deliver everything: where the writer writes chunks
/// and finishes, without starting over, a stream that ends has handed on
/// all the chunks, one after the other, whenever it was opened and however
/// its steps fell between those of the writer.
pub proof fn lemma_writes_deliver(steps: Seq<Step>)
    requires
        run(steps) is Some,
        !has_reset(steps),
        run(steps).unwrap().1.outcome == Some(Poll::End),
    ensures
        run(steps).unwrap().1.emitted == joined(chunks_of(steps)),
{
    lemma_stream_delivers(steps);
    lemma_appended_all(steps);
}

/// A writer that goes away without finishing breaks the pipe: once it is
/// gone and has not finished, no stream ends. A stream that has read all
/// that is published fails when it looks, and one that finds nothing more
/// in the file fails when it reads; until then every read takes it
/// further, and never beyond what the file holds.
pub proof fn lemma_drop_breaks(steps: Seq<Step>)
    requires
        run(steps) is Some,
        !run(steps).unwrap().0.open,
        !run(steps).unwrap().0.published.eof,
    ensures
        run(steps).unwrap().1.outcome != Some(Poll::End),
        forall|more: Seq<Step>| #[trigger]
            run(steps + more) is Some ==> run(steps + more).unwrap().1.outcome != Some(Poll::End),
        ({
            let (pipe, stream) = run(steps).unwrap();
            let polled = stream.cursor.polled(pipe.published, !pipe.open);
            &&& polled is Read || polled is Fail
            &&& stream.cursor.position >= pipe.published.length ==> polled is Fail
            &&& forall|len: nat| #[trigger]
                next(pipe, stream, Step::Read(len)) is Some ==> {
                    let after = next(pipe, stream, Step::Read(len)).unwrap().1;
                    &&& len == 0 ==> after.outcome == Some(Poll::Fail(Broken::Pipe))
                    &&& len > 0 ==> stream.cursor.position < after.cursor.position
                        <= pipe.flushed
                }
        }),
{
    lemma_run_inv(steps);
    assert forall|more: Seq<Step>| #[trigger] run(steps + more) is Some implies run(
        steps + more,
    ).unwrap().1.outcome != Some(Poll::End) by {
        lemma_gone_stays(steps, more);
        lemma_run_inv(steps + more);
    }
}

/// A writer that is gone without having finished stays so.
proof fn lemma_gone_stays(steps: Seq<Step>, more: Seq<Step>)
    requires
        run(steps) is Some,
        !run(steps).unwrap().0.open,
        !run(steps).unwrap().0.published.eof,
        run(steps + more) is Some,
    ensures
        !run(steps + more).unwrap().0.open,
        !run(steps + more).unwrap().0.published.eof,
    decreases more.len(),
{
    if more.len() == 0 {
        assert(steps + more =~= steps);
    } else {
        let all = steps + more;
        assert(all.drop_last() =~= steps + more.drop_last());
        assert(all.last() == more.last());
        lemma_gone_stays(steps, more.drop_last());
    }
}

/// Starting over fails the streams that have read: when the writer has
/// published that it started over, a stream that had read before fails at
/// its next look, and a stream that has read nothing goes on in the new
/// generation.
pub proof fn lemma_reset_fails(steps: Seq<Step>)
    requires
        run(steps) is Some,
        steps.len() > 0,
        steps.last() is Republish,
    ensures
        ({
            let (pipe, stream) = run(steps)->0;
            let polled = stream.cursor.polled(pipe.published, !pipe.open);
            &&& pipe.published.length == 0 && pipe.contents().len() == 0
            &&& stream.cursor.position > 0 && stream.outcome is None ==> polled == Poll::Fail(
                Broken::Reset,
            )
            &&& stream.cursor.position == 0 ==> stream.cursor.adopted(pipe.published).generation
                == pipe.published.generation && !(polled is Fail)
        }),
{
    lemma_run_inv(steps.drop_last());
    lemma_run_inv(steps);
}

/// Starting over twice is starting over once, to every stream: a stream
/// that was opened before the writer started over does the same after one
/// restart as after two with nothing written between them.
pub proof fn lemma_reset_idempotent(cursor: Cursor, seen: Published, closed: bool)
    requires
        cursor.generation <= seen.generation,
        seen.generation + 2 <= u64::MAX,
    ensures
        cursor.polled(seen.restarted().restarted(), closed) == cursor.polled(
            seen.restarted(),
            closed,
        ),
        cursor.adopted(seen.restarted().restarted()).position == cursor.adopted(
            seen.restarted(),
        ).position,
{
}

/// What the writer publishes is what its steps in the channel publish: a
/// write is an append followed by a publication, a reset is emptying the
/// file followed by the publication of the restart, and finishing is the
/// last step of the writer.
pub proof fn lemma_writer_steps(pipe: Pipe, stream: Stream, data: Seq<u8>)
    requires
        inv(pipe, stream),
        pipe.open,
        !pipe.resetting,
        pipe.published.length == pipe.contents().len(),
        pipe.contents().len() + data.len() <= u64::MAX,
        pipe.published.generation < u64::MAX,
    ensures
        ({
            let appended = next(pipe, stream, Step::Append(data)).unwrap().0;
            next(appended, stream, Step::Publish).unwrap().0.published == pipe.published.grown(
                data.len(),
            )
        }),
        ({
            let emptied = next(pipe, stream, Step::Truncate).unwrap().0;
            next(emptied, stream, Step::Republish).unwrap().0.published
                == pipe.published.restarted()
        }),
        next(pipe, stream, Step::Finish).unwrap().0.published == pipe.published.ended(),
{
    lemma_joined_push(pipe.written, data);
}

} // verus!
