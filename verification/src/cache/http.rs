//! The cache behind an HTTP endpoint: an object lies at the endpoint's
//! address with its identifier as one more path segment. A failed attempt is
//! classed as transient, and made again, or as permanent.

use crate::git_lfs::{Error, REQUEST_TIMEOUT};
use crate::misc::{
    backoff_permanent, backoff_transient, from_utf8_lossy, lossy_text, path_segments_mut,
    segment_pushed, Failure,
};
use crate::retry::Fault;
use crate::text::{trim, trimmed};
use crate::web::{
    bearer, is_header_value, is_server_error, is_success, status_is_server_error,
    status_is_success, url_clone, url_text, Field, AUTHORIZATION,
};
use vstd::prelude::*;
use vstd::string::StringSliceAdditionalSpecFns;

verus! {

/// A cache at the address `endpoint`.
#[derive(Debug)]
pub struct Cache {
    pub endpoint: ::url::Url,
    pub authorization: Option<Authorization>,
}

/// The configuration of the cache.
#[derive(Debug)]
pub struct Args {
    pub endpoint: ::url::Url,
    pub authorization: Option<Authorization>,
}

/// The address that a hit was read from.
#[derive(Debug)]
pub struct Source {
    pub url: ::url::Url,
}

/// How a request to the cache is authorized.
#[derive(Debug)]
pub enum Authorization {
    Bearer(Bearer),
}

/// Where the bearer token comes from.
#[derive(Debug)]
pub enum Bearer {
    /// A file that is read anew for every request.
    TokenPath(String),
}

/// The part of an attempt that failed.
#[derive(Clone, Copy, Debug, PartialEq, Eq, Structural)]
pub enum Step {
    /// Reading the token, or making the field of it.
    Authorize,
    /// Putting the request together.
    Build,
    /// Sending the request and waiting for the answer.
    Send,
    /// Emptying the channel before the body is written to it.
    Reset,
    /// Reading the body of the answer.
    Receive,
    /// Writing the body to the channel, or opening the stream that is sent.
    Store,
}

/// Whether a failure in `step` may pass when the attempt is made again:
/// that is so for the transport, not for what the agent does on its side.
pub open spec fn step_is_transient(step: Step) -> bool {
    step == Step::Send || step == Step::Receive
}

/// Whether an answer with `status` is worth another attempt.
pub open spec fn status_is_transient(status: u16) -> bool {
    status == REQUEST_TIMEOUT || status_is_server_error(status)
}

impl Cache {
    /// The cache that `args` configures.
    pub open spec fn of(args: Args) -> Cache {
        Cache { endpoint: args.endpoint, authorization: args.authorization }
    }

    /// Whether `r` is what looking for the address of the object `oid` gives.
    pub open spec fn locates(&self, oid: Seq<char>, r: Result<Source, Failure>) -> bool {
        match segment_pushed(url_text(self.endpoint), oid) {
            Ok(t) => r matches Ok(s) && url_text(s.url) == t,
            Err(m) => r matches Err(Failure::Other(x)) && x@ == m,
        }
    }

    /// The cache that `args` configures.
    pub fn new(args: Args) -> (r: Cache)
        ensures
            r == Cache::of(args),
    {
        Cache { endpoint: args.endpoint, authorization: args.authorization }
    }

    /// The address that the object `oid` is read from.
    pub fn get(&self, oid: &str) -> (r: Result<Source, Failure>)
        ensures
            self.locates(oid@, r),
    {
        match self.url(oid) {
            Ok(url) => Ok(Source { url }),
            Err(f) => Err(f),
        }
    }

    /// The address that the object `oid` is written to.
    pub fn put(&self, oid: &str) -> (r: Result<Source, Failure>)
        ensures
            self.locates(oid@, r),
    {
        match self.url(oid) {
            Ok(url) => Ok(Source { url }),
            Err(f) => Err(f),
        }
    }

    /// The address of the object `oid`.
    pub fn url(&self, oid: &str) -> (r: Result<::url::Url, Failure>)
        ensures
            match segment_pushed(url_text(self.endpoint), oid@) {
                Ok(t) => r matches Ok(u) && url_text(u) == t,
                Err(m) => r matches Err(Failure::Other(x)) && x@ == m,
            },
    {
        let mut url = url_clone(&self.endpoint);
        match path_segments_mut(&mut url, oid) {
            Ok(()) => Ok(url),
            Err(f) => Err(f),
        }
    }

    /// The file that holds the token, where requests carry one.
    pub fn token_path(&self) -> (r: Option<&String>)
        ensures
            match self.authorization {
                Some(Authorization::Bearer(Bearer::TokenPath(p))) => r == Some(&p),
                None => r is None,
            },
    {
        match &self.authorization {
            Some(Authorization::Bearer(Bearer::TokenPath(p))) => Some(p),
            None => None,
        }
    }
}

/// The field that authorizes a request with the token that `content`, the
/// content of the token's file, holds between white space. A token that
/// cannot stand in a header is a permanent failure.
pub fn authorization(content: &str) -> (r: Result<Field, Fault>)
    ensures
        r is Ok <==> is_header_value(crate::text::bytes_of(trimmed(content@))),
        r matches Ok(f) ==> f.name@ == AUTHORIZATION@ && f.value@ == "Bearer "@ + trimmed(
            content@,
        ),
        r matches Err(e) ==> e matches Fault::Permanent(Failure::Other(t)) && t@
            == "invalid bearer token"@,
{
    let token = trim(content);
    match bearer(token) {
        Some(value) => Ok(Field { name: AUTHORIZATION.to_owned(), value }),
        None => Err(backoff_permanent(Failure::other("invalid bearer token"))),
    }
}

/// The field that announces the declared size `size` of an object as the
/// length of the body of the request that stores it.
pub fn content_length(size: u64) -> (r: Field)
    ensures
        r.name@ == "content-length"@,
        r.value@ == crate::text::decimal_of(size as nat),
{
    Field { name: "content-length".to_owned(), value: crate::text::decimal(size) }
}

/// The fault that a failure in `step` amounts to.
pub fn fault(step: Step, e: Failure) -> (r: Fault)
    ensures
        step_is_transient(step) ==> r == Fault::Transient(e),
        !step_is_transient(step) ==> r == Fault::Permanent(e),
{
    match step {
        Step::Send | Step::Receive => backoff_transient(e),
        _ => backoff_permanent(e),
    }
}

/// The fault that an answer without success amounts to: the error of the
/// server, with the body of the answer as its message. It is transient
/// where the server timed out or failed, and permanent otherwise.
pub fn rejection(status: u16, body: &[u8]) -> (r: Fault)
    ensures
        status_is_transient(status) ==> (r matches Fault::Transient(Failure::Server(e)) && e.code
            == status && e.message@ == lossy_text(body@)),
        !status_is_transient(status) ==> (r matches Fault::Permanent(Failure::Server(e)) && e.code
            == status && e.message@ == lossy_text(body@)),
{
    let e = Failure::Server(Error { code: status, message: from_utf8_lossy(body) });
    if status == REQUEST_TIMEOUT || is_server_error(status) {
        backoff_transient(e)
    } else {
        backoff_permanent(e)
    }
}

/// What an attempt transfers: an object from the cache, or one to it.
#[derive(Clone, Copy, Debug, PartialEq, Eq, Structural)]
pub enum Direction {
    Get,
    Put,
}

/// How far an attempt has come.
#[derive(Clone, Copy, Debug, PartialEq, Eq, Structural)]
pub enum Phase {
    /// Nothing was done yet.
    Start,
    /// The file of the token is being read.
    Token,
    /// The request is on its way.
    Request,
    /// The channel is being emptied.
    Reset,
    /// The next frame of the body is being read.
    Receive,
    /// A frame is being written to the channel.
    Store,
    /// The body of an answer without success is being read.
    Collect { status: u16 },
    /// The attempt has ended.
    Done,
}

/// A frame of the body of an answer.
#[derive(Clone, Copy, Debug, PartialEq, Eq, Structural)]
pub enum Frame {
    /// A frame of data.
    Data,
    /// A frame that holds no data.
    Other,
    /// The end of the body.
    End,
}

/// What came of the task that the caller of an attempt carried out.
#[derive(Debug)]
pub enum Told {
    /// The attempt begins.
    Begin,
    /// The content of the token's file.
    Token(Result<String, Failure>),
    /// The request could not be put together.
    Unbuilt(Failure),
    /// The status of the answer, or why none came.
    Status(Result<u16, Failure>),
    /// The channel was emptied.
    Reset(Result<(), Failure>),
    /// The next frame of the body.
    Frame(Result<Frame, Failure>),
    /// The frame was written to the channel.
    Stored(Result<(), Failure>),
    /// The body of the answer without success.
    Body(Result<Vec<u8>, Failure>),
}

/// What the caller of an attempt is to do next.
#[derive(Debug)]
pub enum Task {
    /// Read the file of the token.
    ReadToken(String),
    /// Send the request, with this field if there is one.
    Request { authorization: Option<Field> },
    /// Empty the channel.
    Reset,
    /// Read the next frame of the body.
    Receive,
    /// Write the data of the frame to the channel.
    Store,
    /// Read the whole body of the answer.
    Collect,
    /// Nothing more: the attempt ended so.
    Finish(Result<(), Fault>),
    /// Nothing: the attempt has ended before.
    Stop,
}

/// One attempt at a transfer.
#[derive(Debug)]
pub struct Attempt {
    pub direction: Direction,
    pub phase: Phase,
}

/// Whether `r` is the field that authorizes a request with the token in
/// `content`, or the permanent fault of a token that cannot stand in a
/// header.
pub open spec fn authorizes(content: Seq<char>, r: Result<Field, Fault>) -> bool {
    if is_header_value(crate::text::bytes_of(trimmed(content))) {
        r matches Ok(f) && f.name@ == AUTHORIZATION@ && f.value@ == "Bearer "@ + trimmed(content)
    } else {
        r matches Err(Fault::Permanent(Failure::Other(t))) && t@ == "invalid bearer token"@
    }
}

/// Whether `r` is the fault of an answer with `status` and the body `body`.
pub open spec fn rejects(status: u16, body: Seq<u8>, r: Fault) -> bool {
    if status_is_transient(status) {
        r matches Fault::Transient(Failure::Server(e)) && e.code == status && e.message@
            == lossy_text(body)
    } else {
        r matches Fault::Permanent(Failure::Server(e)) && e.code == status && e.message@
            == lossy_text(body)
    }
}

impl Attempt {
    /// An attempt that has not begun.
    pub fn new(direction: Direction) -> (r: Attempt)
        ensures
            r.direction == direction,
            r.phase == Phase::Start,
    {
        Attempt { direction, phase: Phase::Start }
    }

    /// Whether `phase` and `task` end the attempt with a fault for the
    /// failure `f` in `step`.
    pub open spec fn breaks(step: Step, f: Failure, phase: Phase, task: Task) -> bool {
        phase == Phase::Done && task == Task::Finish(
            Err(
                if step_is_transient(step) {
                    Fault::Transient(f)
                } else {
                    Fault::Permanent(f)
                },
            ),
        )
    }

    /// The step relation of an attempt: whether, from the phase
    /// `self.phase`, what `told` tells leads to the phase `phase` and the
    /// task `task`. An attempt reads the token where the cache has one,
    /// sends the request, and goes by the status of the answer: with
    /// success an object is stored, or fetched into the channel, which is
    /// emptied first; without success the body of the answer tells the
    /// fault.
    pub open spec fn steps(&self, cache: Cache, told: Told, phase: Phase, task: Task) -> bool {
        match (self.phase, told) {
            (Phase::Start, Told::Begin) => match cache.authorization {
                Some(Authorization::Bearer(Bearer::TokenPath(p))) => {
                    &&& phase == Phase::Token
                    &&& task matches Task::ReadToken(q)
                    &&& q@ == p@
                },
                None => phase == Phase::Request && task == (Task::Request { authorization: None }),
            },
            (Phase::Token, Told::Token(Ok(content))) => exists|r: Result<Field, Fault>|
                {
                    &&& #[trigger] authorizes(content@, r)
                    &&& match r {
                        Ok(field) => phase == Phase::Request && task == (Task::Request {
                            authorization: Some(field),
                        }),
                        Err(fault) => phase == Phase::Done && task == Task::Finish(Err(fault)),
                    }
                },
            (Phase::Token, Told::Token(Err(f))) => Attempt::breaks(Step::Authorize, f, phase, task),
            (Phase::Request, Told::Unbuilt(f)) => Attempt::breaks(Step::Build, f, phase, task),
            (Phase::Request, Told::Status(Err(f))) => Attempt::breaks(Step::Send, f, phase, task),
            (Phase::Request, Told::Status(Ok(status))) => if !status_is_success(status) {
                phase == (Phase::Collect { status }) && task is Collect
            } else if self.direction == Direction::Get {
                phase == Phase::Reset && task is Reset
            } else {
                phase == Phase::Done && task == Task::Finish(Ok(()))
            },
            (Phase::Reset, Told::Reset(Ok(()))) => phase == Phase::Receive && task is Receive,
            (Phase::Reset, Told::Reset(Err(f))) => Attempt::breaks(Step::Reset, f, phase, task),
            (Phase::Receive, Told::Frame(Ok(Frame::Data))) => phase == Phase::Store
                && task is Store,
            (Phase::Receive, Told::Frame(Ok(Frame::Other))) => phase == Phase::Receive
                && task is Receive,
            (Phase::Receive, Told::Frame(Ok(Frame::End))) => phase == Phase::Done && task
                == Task::Finish(Ok(())),
            (Phase::Receive, Told::Frame(Err(f))) => Attempt::breaks(
                Step::Receive,
                f,
                phase,
                task,
            ),
            (Phase::Store, Told::Stored(Ok(()))) => phase == Phase::Receive && task is Receive,
            (Phase::Store, Told::Stored(Err(f))) => Attempt::breaks(Step::Store, f, phase, task),
            (Phase::Collect { status }, Told::Body(Ok(body))) => {
                &&& phase == Phase::Done
                &&& task matches Task::Finish(Err(fault))
                &&& rejects(status, body@, fault)
            },
            (Phase::Collect { .. }, Told::Body(Err(f))) => Attempt::breaks(
                Step::Receive,
                f,
                phase,
                task,
            ),
            (Phase::Done, _) => phase == Phase::Done && task is Stop,
            _ => {
                &&& phase == Phase::Done
                &&& task matches Task::Finish(Err(Fault::Permanent(Failure::Other(t))))
                &&& t@ == "unexpected event"@
            },
        }
    }

    fn end(&mut self, step: Step, f: Failure) -> (r: Task)
        ensures
            final(self).direction == old(self).direction,
            Attempt::breaks(step, f, final(self).phase, r),
    {
        self.phase = Phase::Done;
        Task::Finish(Err(fault(step, f)))
    }

    /// One step of the attempt: takes what came of the last task and names
    /// the next one.
    pub fn step(&mut self, cache: &Cache, told: Told) -> (r: Task)
        ensures
            final(self).direction == old(self).direction,
            old(self).steps(*cache, told, final(self).phase, r),
    {
        match (self.phase, told) {
            (Phase::Start, Told::Begin) => match cache.token_path() {
                Some(path) => {
                    self.phase = Phase::Token;
                    Task::ReadToken(path.clone())
                },
                None => {
                    self.phase = Phase::Request;
                    Task::Request { authorization: None }
                },
            },
            (Phase::Token, Told::Token(Ok(content))) => {
                let r = authorization(content.as_str());
                assert(authorizes(content@, r));
                match r {
                    Ok(field) => {
                        self.phase = Phase::Request;
                        Task::Request { authorization: Some(field) }
                    },
                    Err(fault) => {
                        self.phase = Phase::Done;
                        Task::Finish(Err(fault))
                    },
                }
            },
            (Phase::Token, Told::Token(Err(f))) => self.end(Step::Authorize, f),
            (Phase::Request, Told::Unbuilt(f)) => self.end(Step::Build, f),
            (Phase::Request, Told::Status(Err(f))) => self.end(Step::Send, f),
            (Phase::Request, Told::Status(Ok(status))) => {
                if !is_success(status) {
                    self.phase = Phase::Collect { status };
                    Task::Collect
                } else {
                    match self.direction {
                        Direction::Get => {
                            self.phase = Phase::Reset;
                            Task::Reset
                        },
                        Direction::Put => {
                            self.phase = Phase::Done;
                            Task::Finish(Ok(()))
                        },
                    }
                }
            },
            (Phase::Reset, Told::Reset(Ok(()))) => {
                self.phase = Phase::Receive;
                Task::Receive
            },
            (Phase::Reset, Told::Reset(Err(f))) => self.end(Step::Reset, f),
            (Phase::Receive, Told::Frame(Ok(Frame::Data))) => {
                self.phase = Phase::Store;
                Task::Store
            },
            (Phase::Receive, Told::Frame(Ok(Frame::Other))) => Task::Receive,
            (Phase::Receive, Told::Frame(Ok(Frame::End))) => {
                self.phase = Phase::Done;
                Task::Finish(Ok(()))
            },
            (Phase::Receive, Told::Frame(Err(f))) => self.end(Step::Receive, f),
            (Phase::Store, Told::Stored(Ok(()))) => {
                self.phase = Phase::Receive;
                Task::Receive
            },
            (Phase::Store, Told::Stored(Err(f))) => self.end(Step::Store, f),
            (Phase::Collect { status }, Told::Body(Ok(body))) => {
                self.phase = Phase::Done;
                let fault = rejection(status, body.as_slice());
                assert(rejects(status, body@, fault));
                Task::Finish(Err(fault))
            },
            (Phase::Collect { status: _ }, Told::Body(Err(f))) => self.end(Step::Receive, f),
            (Phase::Done, _) => Task::Stop,
            _ => {
                self.phase = Phase::Done;
                Task::Finish(Err(backoff_permanent(Failure::other("unexpected event"))))
            },
        }
    }
}

/// One step of an attempt as it was taken.
pub ghost struct Turn {
    pub before: Attempt,
    pub cache: Cache,
    pub told: Told,
    pub phase: Phase,
    pub task: Task,
}

/// Whether `turns` are the steps of one attempt from its start, each taken
/// where the one before it left the attempt.
pub open spec fn is_run(turns: Seq<Turn>) -> bool {
    &&& turns.len() > 0 ==> turns[0].before.phase == Phase::Start
    &&& forall|i: int|
        0 <= i < turns.len() ==> (#[trigger] turns[i]).before.steps(
            turns[i].cache,
            turns[i].told,
            turns[i].phase,
            turns[i].task,
        )
    &&& forall|i: int|
        0 <= i < turns.len() - 1 ==> (#[trigger] turns[i + 1]).before.phase == turns[i].phase
            && turns[i + 1].before.direction == turns[i].before.direction
}

/// Whether one of `turns` asks to empty the channel.
pub open spec fn resets(turns: Seq<Turn>) -> bool {
    exists|i: int| 0 <= i < turns.len() && (#[trigger] turns[i]).task is Reset
}

/// Each attempt starts the channel over before it writes to it: an attempt
/// that asks to write a frame to the channel has asked to empty the channel
/// before, and only an attempt that fetches writes at all.
pub proof fn lemma_reset_before_store(turns: Seq<Turn>)
    requires
        is_run(turns),
        turns.len() > 0,
    ensures
        turns.last().phase == Phase::Receive || turns.last().phase == Phase::Store ==> resets(
            turns,
        ),
        turns.last().task is Store ==> resets(turns) && turns.last().before.direction
            == Direction::Get,
        turns.last().phase == Phase::Reset || turns.last().phase == Phase::Receive
            || turns.last().phase == Phase::Store ==> turns.last().before.direction
            == Direction::Get,
    decreases turns.len(),
{
    let last = turns.last();
    assert(last.before.steps(last.cache, last.told, last.phase, last.task));
    if turns.len() == 1 {
    } else {
        let head = turns.drop_last();
        assert forall|i: int| 0 <= i < head.len() implies (#[trigger] head[i]).before.steps(
            head[i].cache,
            head[i].told,
            head[i].phase,
            head[i].task,
        ) by {
            assert(head[i] == turns[i]);
        }
        assert forall|i: int| 0 <= i < head.len() - 1 implies (#[trigger] head[i + 1]).before.phase
            == head[i].phase && head[i + 1].before.direction == head[i].before.direction by {
            assert(head[i + 1] == turns[i + 1]);
            assert(head[i] == turns[i]);
        }
        assert(head[0] == turns[0]);
        lemma_reset_before_store(head);
        let n = turns.len() - 2;
        assert(head.last() == turns[n]);
        assert(turns[n + 1].before.phase == turns[n].phase);
        assert(turns[n + 1].before.direction == turns[n].before.direction);
        if resets(head) {
            let i = choose|i: int| 0 <= i < head.len() && (#[trigger] head[i]).task is Reset;
            assert(turns[i] == head[i]);
        }
        if last.task is Reset {
            assert(turns[turns.len() - 1].task is Reset);
        }
    }
}

} // verus!
