//! The transfer agent: the state of a session, the steps of a download, and
//! the reports of progress. The agent's caller reads requests, performs the
//! actions that the steps name, and hands back what came of them.

use crate::cache::{Cache, Source};
use crate::git_lfs::batch;
use crate::git_lfs::batch::response::{Action as Transfer, Inner};
use crate::git_lfs::custom_transfers::{InitResponse, Request, Response};
use crate::git_lfs::server_discovery::Response as Endpoint;
use crate::git_lfs::{Error, Operation, INTERNAL_SERVER_ERROR, UNAUTHORIZED};
use crate::logs::Line;
use crate::misc::{from_utf8_lossy, lossy_text, Failure};
use crate::text::equal;
use crate::web::{is_success, status_is_success};
use vstd::prelude::*;

verus! {

/// The status that `error` gives for a failure.
pub open spec fn error_code(f: Failure) -> u16 {
    match f {
        Failure::Server(e) => e.code,
        Failure::Other(_) => INTERNAL_SERVER_ERROR,
    }
}

/// The message that `error` gives for a failure.
pub open spec fn error_message(f: Failure) -> Seq<char> {
    match f {
        Failure::Server(e) => e.message@,
        Failure::Other(t) => t@,
    }
}

/// The error that is reported for a failure: the error of the server where
/// the failure is one, else an internal error with the text of the failure.
pub fn error(e: Failure) -> (r: Error)
    ensures
        r.code == error_code(e),
        r.message@ == error_message(e),
{
    match e {
        Failure::Server(e) => e,
        Failure::Other(message) => Error { code: INTERNAL_SERVER_ERROR, message },
    }
}

/// How the agent is started: with the cache that it is to use, if any.
#[derive(Debug)]
pub struct Args {
    pub cache: Option<crate::cache::Args>,
}

/// The state of a session.
#[derive(Debug)]
pub struct Context {
    /// The cache, if one is configured.
    pub cache: Option<Cache>,
    /// The direction that `Init` announced.
    pub operation: Option<Operation>,
    /// The remote that `Init` announced.
    pub remote: Option<String>,
    /// The endpoint of the server, once it was found.
    pub server_discovery: Option<Endpoint>,
    /// Whether `Terminate` was received.
    pub terminated: bool,
}

/// What the agent does on a request.
#[derive(Debug)]
pub enum Reaction {
    /// It answers `Init`.
    Init(InitResponse),
    /// It answers at once.
    Respond(Response),
    /// It downloads the object, and answers when the download is done.
    Download(Download),
    /// It ends the session, without an answer.
    Stop,
}

/// Where the agent looks for the endpoint of the server.
#[derive(Debug)]
pub enum Lookup {
    /// The endpoint is known from an earlier request.
    Known,
    /// The endpoint is to be found for this direction and remote.
    Discover { operation: Operation, remote: String, authorization: bool },
    /// No `Init` has named a direction and a remote.
    Uninitialized,
}

impl Context {
    /// The state at the start of a session that was started with `args`.
    pub fn start(args: Args) -> (r: Context)
        ensures
            match args.cache {
                Some(a) => r.cache matches Some(c) && c.configured_by(a),
                None => r.cache is None,
            },
            r.operation is None,
            r.remote is None,
            r.server_discovery is None,
            !r.terminated,
    {
        let cache = match args.cache {
            Some(a) => Some(Cache::new(a)),
            None => None,
        };
        Context::new(cache)
    }

    /// The state at the start of a session with the cache `cache`.
    pub fn new(cache: Option<Cache>) -> (r: Context)
        ensures
            r.cache == cache,
            r.operation is None,
            r.remote is None,
            r.server_discovery is None,
            !r.terminated,
    {
        Context { cache, operation: None, remote: None, server_discovery: None, terminated: false }
    }

    /// Records the direction and the remote of the session.
    pub fn init(&mut self, operation: Operation, remote: String)
        ensures
            final(self).operation == Some(operation),
            final(self).remote == Some(remote),
            final(self).cache == old(self).cache,
            final(self).server_discovery == old(self).server_discovery,
            final(self).terminated == old(self).terminated,
    {
        self.operation = Some(operation);
        self.remote = Some(remote);
    }

    /// Whether the endpoint is looked for anew: always with credentials,
    /// and without them as long as none is known.
    pub open spec fn discovers(&self, authorization: bool) -> bool {
        authorization || self.server_discovery is None
    }

    /// Where the endpoint comes from.
    pub fn server_discovery(&self, authorization: bool) -> (r: Lookup)
        ensures
            !self.discovers(authorization) ==> r is Known,
            self.discovers(authorization) && (self.operation is None || self.remote is None)
                ==> r is Uninitialized,
            self.discovers(authorization) && self.operation is Some && self.remote is Some ==> (
            r matches Lookup::Discover { operation, remote, authorization: a } && Some(operation)
                == self.operation && remote@ == self.remote->0@ && a == authorization),
    {
        if !authorization && self.server_discovery.is_some() {
            return Lookup::Known;
        }
        match (&self.operation, &self.remote) {
            (Some(operation), Some(remote)) => Lookup::Discover {
                operation: *operation,
                remote: remote.clone(),
                authorization,
            },
            _ => Lookup::Uninitialized,
        }
    }

    /// Whether `r` and `post` are what the agent does on `request`, and the
    /// session after it. `Init` records the direction and the remote and
    /// is answered without an error; an upload is answered at once as
    /// unimplemented; a download begins; `Terminate` ends the session, and
    /// after it the agent does nothing more.
    pub open spec fn reacts(&self, request: Request, post: Context, r: Reaction) -> bool {
        &&& post.cache == self.cache
        &&& post.server_discovery == self.server_discovery
        &&& if self.terminated {
            r is Stop && post == *self
        } else {
            match request {
                Request::Init { operation, remote, .. } => {
                    &&& r matches Reaction::Init(answer)
                    &&& answer.error is None
                    &&& post.operation == Some(operation)
                    &&& post.remote == Some(remote)
                    &&& !post.terminated
                },
                Request::Upload { oid, .. } => {
                    &&& r matches Reaction::Respond(Response::Complete { oid: o, path, error })
                    &&& o == oid
                    &&& path is None
                    &&& error matches Some(e)
                    &&& e.code == INTERNAL_SERVER_ERROR
                    &&& e.message@ == "unimplemented"@
                    &&& post == *self
                },
                Request::Download { oid, size } => {
                    &&& r matches Reaction::Download(d)
                    &&& d.oid == oid
                    &&& d.size == size
                    &&& d.stage == Stage::Start
                    &&& post == *self
                },
                Request::Terminate => {
                    &&& r is Stop
                    &&& post.terminated
                    &&& post.operation == self.operation
                    &&& post.remote == self.remote
                },
            }
        }
    }

    /// What the agent does on `request`. After `Terminate` it does nothing
    /// more.
    pub fn request(&mut self, request: Request) -> (r: Reaction)
        ensures
            old(self).reacts(request, *final(self), r),
    {
        if self.terminated {
            return Reaction::Stop;
        }
        match request {
            Request::Init { operation, remote, concurrent: _, concurrenttransfers: _ } => {
                self.init(operation, remote);
                Reaction::Init(InitResponse { error: None })
            },
            Request::Upload { oid, size: _, path: _ } => Reaction::Respond(
                Response::Complete {
                    oid,
                    path: None,
                    error: Some(error(Failure::other("unimplemented"))),
                },
            ),
            Request::Download { oid, size } => Reaction::Download(Download::new(oid, size)),
            Request::Terminate => {
                self.terminated = true;
                Reaction::Stop
            },
        }
    }
}

/// How far a download has come.
#[derive(Clone, Copy, Debug, PartialEq, Eq, Structural)]
pub enum Stage {
    /// Nothing was done yet.
    Start,
    /// The cache is being tried.
    Cache,
    /// The endpoint of the server is being looked for.
    Discovery { authorization: bool },
    /// The batch request is under way; `authorized` says whether the
    /// endpoint was found with credentials.
    Batch { authorized: bool },
    /// The object was asked for and the answer is awaited.
    Fetch,
    /// The server refused with `status`; the body of its answer is read.
    Reject { status: u16 },
    /// The body of the object is being transferred.
    Transfer,
    /// The file is being committed and the telemetry written.
    Commit,
    /// The download was answered.
    Done,
}

/// One download.
#[derive(Debug)]
pub struct Download {
    pub oid: String,
    pub size: u64,
    pub stage: Stage,
}

/// An object that the cache delivered: where it came from, and the digest of
/// the bytes that were delivered, as they went by.
#[derive(Debug)]
pub struct Hit {
    pub source: Source,
    pub digest: String,
}

/// What came of the action that the agent's caller performed.
#[derive(Debug)]
pub enum Event {
    /// The download begins.
    Begin,
    /// The attempt on the cache: the hit, where the backend delivered the
    /// object and its progress was reported while its digest was taken.
    Cache(Result<Hit, Failure>),
    /// The search for the endpoint.
    Discovery(Result<Endpoint, Failure>),
    /// The batch request.
    Batch(Result<batch::Response, Failure>),
    /// The status of the answer to the request for the object.
    Status(Result<u16, Failure>),
    /// The body of an answer without success.
    Body(Result<Vec<u8>, Failure>),
    /// The transfer of the body to the file, to the cache and to the
    /// reporter of progress.
    Transfer(Result<(), Failure>),
    /// Committing the file, and writing the telemetry: the path of the file.
    Commit(Result<String, Failure>),
    /// The action could not be begun.
    Failure(Failure),
}

/// What the agent's caller is to do next.
#[derive(Debug)]
pub enum Action {
    /// Try the cache: fetch the object into a new channel, take its digest
    /// and report the progress, all three at once.
    Cache,
    /// Look for the endpoint of the server.
    Discover { authorization: bool },
    /// Send the batch request for the object to the known endpoint.
    Batch,
    /// Ask for the object as the server's action says.
    Fetch(Transfer),
    /// Read the body of the answer.
    Collect,
    /// Transfer the body through a new channel to the file and to the
    /// reporter of progress, and to the cache where `put` is set.
    Transfer { put: bool },
    /// Keep the file of the channel and append the telemetry, which names
    /// `cache` as the source.
    Commit { cache: Option<Source> },
    /// Send the answer that ends the download.
    Complete(Response),
    /// Nothing: the download was answered.
    Stop,
}

/// The position of the first of `objects` with the identifier `oid`, or the
/// number of objects if there is none.
pub open spec fn position_of(objects: Seq<batch::response::Object>, oid: Seq<char>) -> int
    decreases objects.len(),
{
    if objects.len() == 0 || objects[0].oid@ == oid {
        0
    } else {
        1 + position_of(objects.drop_first(), oid)
    }
}

/// Whether `r` is what the answer `objects` holds for the object `oid`: the
/// download action of the first entry for it; a failure where there is no
/// entry or no such action; the error of the server where the entry is one.
pub open spec fn selects(
    objects: Seq<batch::response::Object>,
    oid: Seq<char>,
    r: Result<Transfer, Failure>,
) -> bool {
    let i = position_of(objects, oid);
    if i >= objects.len() {
        r matches Err(Failure::Other(t)) && t@ == "missing object"@
    } else {
        match objects[i].inner {
            Inner::Actions { download: Some(a), .. } => r == Ok::<Transfer, Failure>(*a),
            Inner::Actions { download: None, .. } => r matches Err(Failure::Other(t)) && t@
                == "missing action"@,
            Inner::Error(e) => r == Err::<Transfer, Failure>(Failure::Server(e)),
        }
    }
}

proof fn lemma_position(objects: Seq<batch::response::Object>, oid: Seq<char>, i: int)
    requires
        0 <= i <= objects.len(),
        i < objects.len() ==> objects[i].oid@ == oid,
        forall|j: int| 0 <= j < i ==> (#[trigger] objects[j]).oid@ != oid,
    ensures
        position_of(objects, oid) == i,
    decreases i,
{
    if i > 0 {
        assert(objects[0].oid@ != oid);
        let rest = objects.drop_first();
        assert forall|j: int| 0 <= j < i - 1 implies (#[trigger] rest[j]).oid@ != oid by {
            assert(rest[j] == objects[j + 1]);
        }
        if i < objects.len() {
            assert(rest[i - 1] == objects[i]);
        }
        lemma_position(rest, oid, i - 1);
    }
}

/// What the answer to the batch request holds for the object `oid`.
pub fn select(response: batch::Response, oid: &str) -> (r: Result<Transfer, Failure>)
    ensures
        selects(response.objects@, oid@, r),
{
    let mut objects = response.objects;
    let ghost all = objects@;
    let mut i: usize = 0;
    while i < objects.len() && !equal(objects[i].oid.as_str(), oid)
        invariant
            objects@ == all,
            i <= objects.len(),
            forall|j: int| 0 <= j < i ==> (#[trigger] all[j]).oid@ != oid@,
        decreases objects.len() - i,
    {
        i += 1;
    }
    proof {
        lemma_position(all, oid@, i as int);
    }
    if i >= objects.len() {
        return Err(Failure::other("missing object"));
    }
    let object = objects.remove(i);
    match object.inner {
        Inner::Actions { upload: _, verify: _, download: Some(action) } => Ok(*action),
        Inner::Actions { upload: _, verify: _, download: None } => Err(
            Failure::other("missing action"),
        ),
        Inner::Error(e) => Err(Failure::Server(e)),
    }
}

impl Download {
    /// A download that has not begun.
    pub fn new(oid: String, size: u64) -> (r: Download)
        ensures
            r.oid == oid,
            r.size == size,
            r.stage == Stage::Start,
    {
        Download { oid, size, stage: Stage::Start }
    }

    /// Whether the download was answered.
    pub open spec fn done(&self) -> bool {
        self.stage == Stage::Done
    }

    /// Whether the download was answered.
    pub fn is_done(&self) -> (r: bool)
        ensures
            r == self.done(),
    {
        match self.stage {
            Stage::Done => true,
            _ => false,
        }
    }

    /// The batch request of this download.
    pub fn batch(&self) -> (r: batch::Request)
        ensures
            r.operation == Operation::Download,
            r.transfers@ == seq![batch::request::Transfer::Basic],
            r.objects@.len() == 1,
            r.objects@[0].oid@ == self.oid@,
            r.objects@[0].size == self.size,
    {
        batch::Request::download(self.oid.as_str(), self.size)
    }

    /// The telemetry of this download: it names `cache` as the source of
    /// the object.
    pub fn line<T>(&self, cache: Option<Source>, start: T, finish: T) -> (r: Line<T>)
        ensures
            r.operation == Operation::Download,
            r.oid@ == self.oid@,
            r.size == self.size,
            r.cache == cache,
            r.start == start,
            r.finish == finish,
    {
        Line {
            operation: Operation::Download,
            oid: self.oid.clone(),
            size: self.size,
            cache,
            start,
            finish,
        }
    }

    /// Whether `action` answers this download with the file at `path`.
    pub open spec fn succeeds(&self, action: Action, path: String) -> bool {
        action matches Action::Complete(Response::Complete { oid, path: p, error }) && oid@
            == self.oid@ && p == Some(path) && error is None
    }

    /// Whether `action` answers this download with the error that is
    /// reported for a failure with this status and message.
    pub open spec fn fails(&self, action: Action, code: u16, message: Seq<char>) -> bool {
        action matches Action::Complete(Response::Complete { oid, path, error }) && oid@
            == self.oid@ && path is None && (error matches Some(e) && e.code == code && e.message@
            == message)
    }

    /// Whether `stage` and `action` are how a download goes on to the
    /// server: with the batch request where the endpoint is known and no
    /// credentials are asked for, else with the search for the endpoint,
    /// and with a failure where the session was never initialized.
    pub open spec fn turns_to_server(
        &self,
        ctx: Context,
        authorization: bool,
        stage: Stage,
        action: Action,
    ) -> bool {
        if !ctx.discovers(authorization) {
            stage == (Stage::Batch { authorized: false }) && action is Batch
        } else if ctx.operation is Some && ctx.remote is Some {
            stage == (Stage::Discovery { authorization }) && action == (Action::Discover {
                authorization,
            })
        } else {
            stage == Stage::Done && self.fails(
                action,
                INTERNAL_SERVER_ERROR,
                "uninitialized"@,
            )
        }
    }

    /// Whether `stage` and `action` end the download with the failure `f`.
    pub open spec fn gives_up(&self, f: Failure, stage: Stage, action: Action) -> bool {
        stage == Stage::Done && self.fails(action, error_code(f), error_message(f))
    }

    /// The step relation of a download: whether, in the stage `self.stage`
    /// and with the session `ctx`, the event `event` leads to the stage
    /// `stage`, the endpoint `endpoint` in the session, and the action
    /// `action`.
    pub open spec fn steps(
        &self,
        ctx: Context,
        event: Event,
        stage: Stage,
        endpoint: Option<Endpoint>,
        action: Action,
    ) -> bool {
        match (self.stage, event) {
            (Stage::Start, Event::Begin) => {
                &&& endpoint == ctx.server_discovery
                &&& if ctx.cache is Some {
                    stage == Stage::Cache && action is Cache
                } else {
                    self.turns_to_server(ctx, false, stage, action)
                }
            },
            (Stage::Cache, Event::Cache(Ok(hit))) => {
                &&& endpoint == ctx.server_discovery
                &&& if hit.digest@ == self.oid@ {
                    stage == Stage::Commit && action == (Action::Commit { cache: Some(hit.source) })
                } else {
                    self.turns_to_server(ctx, false, stage, action)
                }
            },
            (Stage::Cache, Event::Cache(Err(_))) => {
                &&& endpoint == ctx.server_discovery
                &&& self.turns_to_server(ctx, false, stage, action)
            },
            (Stage::Discovery { authorization }, Event::Discovery(Ok(found))) => {
                &&& endpoint == Some(found)
                &&& stage == (Stage::Batch { authorized: authorization })
                &&& action is Batch
            },
            (Stage::Discovery { .. }, Event::Discovery(Err(f))) => {
                &&& endpoint == ctx.server_discovery
                &&& self.gives_up(f, stage, action)
            },
            (Stage::Batch { authorized }, Event::Batch(Ok(response))) => {
                &&& endpoint == ctx.server_discovery
                &&& exists|r: Result<Transfer, Failure>|
                    {
                        &&& #[trigger] selects(response.objects@, self.oid@, r)
                        &&& match r {
                            Ok(transfer) => stage == Stage::Fetch && action == Action::Fetch(
                                transfer,
                            ),
                            Err(f) => self.gives_up(f, stage, action),
                        }
                    }
            },
            (Stage::Batch { authorized }, Event::Batch(Err(f))) => {
                &&& endpoint == ctx.server_discovery
                &&& if !authorized && error_code(f) == UNAUTHORIZED && f is Server {
                    self.turns_to_server(ctx, true, stage, action)
                } else {
                    self.gives_up(f, stage, action)
                }
            },
            (Stage::Fetch, Event::Status(Ok(status))) => {
                &&& endpoint == ctx.server_discovery
                &&& if status_is_success(status) {
                    stage == Stage::Transfer && action == (Action::Transfer {
                        put: ctx.cache is Some,
                    })
                } else {
                    stage == (Stage::Reject { status }) && action is Collect
                }
            },
            (Stage::Fetch, Event::Status(Err(f))) => {
                &&& endpoint == ctx.server_discovery
                &&& self.gives_up(f, stage, action)
            },
            (Stage::Reject { status }, Event::Body(Ok(body))) => {
                &&& endpoint == ctx.server_discovery
                &&& stage == Stage::Done
                &&& self.fails(action, status, lossy_text(body@))
            },
            (Stage::Reject { .. }, Event::Body(Err(f))) => {
                &&& endpoint == ctx.server_discovery
                &&& self.gives_up(f, stage, action)
            },
            (Stage::Transfer, Event::Transfer(Ok(()))) => {
                &&& endpoint == ctx.server_discovery
                &&& stage == Stage::Commit
                &&& action == (Action::Commit { cache: None })
            },
            (Stage::Transfer, Event::Transfer(Err(f))) => {
                &&& endpoint == ctx.server_discovery
                &&& self.gives_up(f, stage, action)
            },
            (Stage::Commit, Event::Commit(Ok(path))) => {
                &&& endpoint == ctx.server_discovery
                &&& stage == Stage::Done
                &&& self.succeeds(action, path)
            },
            (Stage::Commit, Event::Commit(Err(f))) => {
                &&& endpoint == ctx.server_discovery
                &&& self.gives_up(f, stage, action)
            },
            (Stage::Done, _) => {
                &&& endpoint == ctx.server_discovery
                &&& stage == Stage::Done
                &&& action is Stop
            },
            (_, Event::Failure(f)) => {
                &&& endpoint == ctx.server_discovery
                &&& self.gives_up(f, stage, action)
            },
            _ => {
                &&& endpoint == ctx.server_discovery
                &&& stage == Stage::Done
                &&& self.fails(action, INTERNAL_SERVER_ERROR, "unexpected event"@)
            },
        }
    }

    fn fail(&mut self, f: Failure) -> (r: Action)
        ensures
            final(self).oid == old(self).oid,
            final(self).size == old(self).size,
            old(self).gives_up(f, final(self).stage, r),
    {
        self.stage = Stage::Done;
        Action::Complete(
            Response::Complete { oid: self.oid.clone(), path: None, error: Some(error(f)) },
        )
    }

    fn turn_to_server(&mut self, ctx: &Context, authorization: bool) -> (r: Action)
        ensures
            final(self).oid == old(self).oid,
            final(self).size == old(self).size,
            old(self).turns_to_server(*ctx, authorization, final(self).stage, r),
    {
        match ctx.server_discovery(authorization) {
            Lookup::Known => {
                self.stage = Stage::Batch { authorized: false };
                Action::Batch
            },
            Lookup::Discover { operation: _, remote: _, authorization: _ } => {
                self.stage = Stage::Discovery { authorization };
                Action::Discover { authorization }
            },
            Lookup::Uninitialized => self.fail(Failure::other("uninitialized")),
        }
    }

    /// One step of the download: takes what came of the last action and
    /// names the next one. The endpoint that a search found is kept in the
    /// session; nothing else of the session changes.
    pub fn step(&mut self, ctx: &mut Context, event: Event) -> (r: Action)
        ensures
            final(self).oid == old(self).oid,
            final(self).size == old(self).size,
            final(ctx).cache == old(ctx).cache,
            final(ctx).operation == old(ctx).operation,
            final(ctx).remote == old(ctx).remote,
            final(ctx).terminated == old(ctx).terminated,
            old(self).steps(*old(ctx), event, final(self).stage, final(ctx).server_discovery, r),
    {
        match (self.stage, event) {
            (Stage::Start, Event::Begin) => {
                if ctx.cache.is_some() {
                    self.stage = Stage::Cache;
                    Action::Cache
                } else {
                    self.turn_to_server(ctx, false)
                }
            },
            (Stage::Cache, Event::Cache(Ok(hit))) => {
                if equal(hit.digest.as_str(), self.oid.as_str()) {
                    self.stage = Stage::Commit;
                    Action::Commit { cache: Some(hit.source) }
                } else {
                    self.turn_to_server(ctx, false)
                }
            },
            (Stage::Cache, Event::Cache(Err(_))) => self.turn_to_server(ctx, false),
            (Stage::Discovery { authorization }, Event::Discovery(Ok(found))) => {
                ctx.server_discovery = Some(found);
                self.stage = Stage::Batch { authorized: authorization };
                Action::Batch
            },
            (Stage::Discovery { authorization: _ }, Event::Discovery(Err(f))) => self.fail(f),
            (Stage::Batch { authorized: _ }, Event::Batch(Ok(response))) => {
                let ghost objects = response.objects@;
                let selected = select(response, self.oid.as_str());
                assert(selects(objects, self.oid@, selected));
                match selected {
                    Ok(transfer) => {
                        self.stage = Stage::Fetch;
                        Action::Fetch(transfer)
                    },
                    Err(f) => self.fail(f),
                }
            },
            (Stage::Batch { authorized }, Event::Batch(Err(f))) => {
                let again = !authorized && match &f {
                    Failure::Server(e) => e.code == UNAUTHORIZED,
                    Failure::Other(_) => false,
                };
                if again {
                    self.turn_to_server(ctx, true)
                } else {
                    self.fail(f)
                }
            },
            (Stage::Fetch, Event::Status(Ok(status))) => {
                if is_success(status) {
                    self.stage = Stage::Transfer;
                    Action::Transfer { put: ctx.cache.is_some() }
                } else {
                    self.stage = Stage::Reject { status };
                    Action::Collect
                }
            },
            (Stage::Fetch, Event::Status(Err(f))) => self.fail(f),
            (Stage::Reject { status }, Event::Body(Ok(body))) => {
                let message = from_utf8_lossy(body.as_slice());
                self.fail(Failure::Server(Error { code: status, message }))
            },
            (Stage::Reject { status: _ }, Event::Body(Err(f))) => self.fail(f),
            (Stage::Transfer, Event::Transfer(Ok(()))) => {
                self.stage = Stage::Commit;
                Action::Commit { cache: None }
            },
            (Stage::Transfer, Event::Transfer(Err(f))) => self.fail(f),
            (Stage::Commit, Event::Commit(Ok(path))) => {
                self.stage = Stage::Done;
                Action::Complete(
                    Response::Complete { oid: self.oid.clone(), path: Some(path), error: None },
                )
            },
            (Stage::Commit, Event::Commit(Err(f))) => self.fail(f),
            (Stage::Done, _) => Action::Stop,
            (_, Event::Failure(f)) => self.fail(f),
            _ => self.fail(Failure::other("unexpected event")),
        }
    }
}

/// The number of unreported bytes at which progress is reported.
pub const PROGRESS_THRESHOLD: u64 = 65536;

/// The count after the chunks `chunks` went by: the bytes so far, and the
/// bytes since the last report.
pub open spec fn counted(chunks: Seq<nat>) -> (nat, nat)
    decreases chunks.len(),
{
    if chunks.len() == 0 {
        (0, 0)
    } else {
        let (so_far, since_last) = counted(chunks.drop_last());
        if since_last + chunks.last() >= PROGRESS_THRESHOLD {
            (so_far + chunks.last(), 0)
        } else {
            (so_far + chunks.last(), since_last + chunks.last())
        }
    }
}

/// The reports made while the chunks `chunks` went by, each with the bytes
/// so far and the bytes since the report before it: one whenever the
/// unreported bytes reach the threshold.
pub open spec fn reported(chunks: Seq<nat>) -> Seq<(nat, nat)>
    decreases chunks.len(),
{
    if chunks.len() == 0 {
        Seq::empty()
    } else {
        let (so_far, since_last) = counted(chunks.drop_last());
        if since_last + chunks.last() >= PROGRESS_THRESHOLD {
            reported(chunks.drop_last()).push((so_far + chunks.last(), since_last + chunks.last()))
        } else {
            reported(chunks.drop_last())
        }
    }
}

/// All reports of a stream that ended after `chunks`: those made on the
/// way, and one more at the end for the bytes that are still unreported.
pub open spec fn reports(chunks: Seq<nat>) -> Seq<(nat, nat)> {
    let (so_far, since_last) = counted(chunks);
    if since_last > 0 {
        reported(chunks).push((so_far, since_last))
    } else {
        reported(chunks)
    }
}

/// The sum of the lengths of `chunks`.
pub open spec fn total(chunks: Seq<nat>) -> nat
    decreases chunks.len(),
{
    if chunks.len() == 0 {
        0
    } else {
        total(chunks.drop_last()) + chunks.last()
    }
}

/// The sum of the bytes that `reports` name as new.
pub open spec fn sum_since_last(reports: Seq<(nat, nat)>) -> nat
    decreases reports.len(),
{
    if reports.len() == 0 {
        0
    } else {
        sum_since_last(reports.drop_last()) + reports.last().1
    }
}

/// The reporter of the progress of one download.
pub struct Progress {
    oid: String,
    bytes_so_far: u64,
    bytes_since_last: u64,
    chunks: Ghost<Seq<nat>>,
}

impl Progress {
    /// The lengths of the chunks that went by.
    pub closed spec fn chunks(&self) -> Seq<nat> {
        self.chunks@
    }

    /// The object whose progress is reported.
    pub closed spec fn oid(&self) -> Seq<char> {
        self.oid@
    }

    /// The bytes that went by.
    pub closed spec fn bytes_so_far(&self) -> nat {
        self.bytes_so_far as nat
    }

    /// The bytes that went by since the last report.
    pub closed spec fn bytes_since_last(&self) -> nat {
        self.bytes_since_last as nat
    }

    /// The counters are those of the chunks that went by.
    pub closed spec fn wf(&self) -> bool {
        counted(self.chunks@) == (self.bytes_so_far as nat, self.bytes_since_last as nat)
    }

    /// Whether `response` is the report `report` for this object.
    pub open spec fn tells(&self, response: Response, report: (nat, nat)) -> bool {
        response matches Response::Progress { oid, bytes_so_far, bytes_since_last } && oid@
            == self.oid() && bytes_so_far == report.0 && bytes_since_last == report.1
    }

    /// A reporter for the object `oid`, before any byte.
    pub fn new(oid: &str) -> (r: Progress)
        ensures
            r.wf(),
            r.oid() == oid@,
            r.chunks() == Seq::<nat>::empty(),
            r.bytes_so_far() == 0,
            r.bytes_since_last() == 0,
    {
        Progress {
            oid: oid.to_owned(),
            bytes_so_far: 0,
            bytes_since_last: 0,
            chunks: Ghost(Seq::empty()),
        }
    }

    /// Counts a chunk of `len` bytes, and gives the report that is due: one
    /// is due when the unreported bytes reach the threshold.
    pub fn update(&mut self, len: usize) -> (r: Option<Response>)
        requires
            old(self).wf(),
            old(self).bytes_so_far() + len <= u64::MAX,
        ensures
            final(self).wf(),
            final(self).oid() == old(self).oid(),
            final(self).chunks() == old(self).chunks().push(len as nat),
            final(self).bytes_so_far() == old(self).bytes_so_far() + len,
            r is Some <==> old(self).bytes_since_last() + len >= PROGRESS_THRESHOLD,
            r is Some ==> final(self).bytes_since_last() == 0 && reported(final(self).chunks())
                == reported(old(self).chunks()).push(
                (final(self).bytes_so_far(), old(self).bytes_since_last() + len as nat),
            ) && final(self).tells(
                r->0,
                (final(self).bytes_so_far(), old(self).bytes_since_last() + len as nat),
            ),
            r is None ==> final(self).bytes_since_last() == old(self).bytes_since_last() + len
                && reported(final(self).chunks()) == reported(old(self).chunks()),
    {
        proof {
            lemma_counted_bounds(self.chunks@);
            assert(self.chunks@.push(len as nat).drop_last() =~= self.chunks@);
        }
        self.chunks = Ghost(self.chunks@.push(len as nat));
        self.bytes_so_far = self.bytes_so_far + len as u64;
        let unreported = self.bytes_since_last + len as u64;
        if unreported >= PROGRESS_THRESHOLD {
            self.bytes_since_last = 0;
            Some(
                Response::Progress {
                    oid: self.oid.clone(),
                    bytes_so_far: self.bytes_so_far,
                    bytes_since_last: unreported,
                },
            )
        } else {
            self.bytes_since_last = unreported;
            None
        }
    }

    /// The report that is due at the end of the stream: one for the bytes
    /// that are still unreported, if there are any.
    pub fn finish(&self) -> (r: Option<Response>)
        requires
            self.wf(),
        ensures
            r is Some <==> self.bytes_since_last() > 0,
            r is Some ==> reports(self.chunks()) == reported(self.chunks()).push(
                (self.bytes_so_far(), self.bytes_since_last()),
            ) && self.tells(r->0, (self.bytes_so_far(), self.bytes_since_last())),
            r is None ==> reports(self.chunks()) == reported(self.chunks()),
    {
        if self.bytes_since_last > 0 {
            Some(
                Response::Progress {
                    oid: self.oid.clone(),
                    bytes_so_far: self.bytes_so_far,
                    bytes_since_last: self.bytes_since_last,
                },
            )
        } else {
            None
        }
    }
}

/// The count never lags behind: the unreported bytes are among the bytes so
/// far, which are all the bytes of the chunks.
pub proof fn lemma_counted_bounds(chunks: Seq<nat>)
    ensures
        counted(chunks).0 == total(chunks),
        counted(chunks).1 <= counted(chunks).0,
        counted(chunks).1 < PROGRESS_THRESHOLD,
    decreases chunks.len(),
{
    if chunks.len() > 0 {
        lemma_counted_bounds(chunks.drop_last());
    }
}

/// The reports made on the way account for every byte but the unreported
/// ones, and none names more bytes so far than the count.
pub proof fn lemma_reported(chunks: Seq<nat>)
    ensures
        sum_since_last(reported(chunks)) + counted(chunks).1 == total(chunks),
        forall|i: int|
            0 <= i < reported(chunks).len() ==> (#[trigger] reported(chunks)[i]).0 <= total(chunks),
        forall|i: int, j: int|
            0 <= i <= j < reported(chunks).len() ==> (#[trigger] reported(chunks)[i]).0 <= (
            #[trigger] reported(chunks)[j]).0,
    decreases chunks.len(),
{
    if chunks.len() > 0 {
        let before = chunks.drop_last();
        lemma_reported(before);
        lemma_counted_bounds(before);
        let (so_far, since_last) = counted(before);
        if since_last + chunks.last() >= PROGRESS_THRESHOLD {
            let r = reported(chunks);
            assert(r.drop_last() =~= reported(before));
            assert forall|i: int, j: int| 0 <= i <= j < r.len() implies (#[trigger] r[i]).0 <= (
            #[trigger] r[j]).0 by {
                if j < r.len() - 1 {
                    assert(r[i] == reported(before)[i]);
                    assert(r[j] == reported(before)[j]);
                } else if i < r.len() - 1 {
                    assert(r[i] == reported(before)[i]);
                }
            }
        }
    }
}

/// Progress is monotonic: over the reports of one stream the bytes so far
/// never decrease, and the bytes that the reports name as new add up to the
/// bytes so far of the last report, which are all the bytes of the stream.
pub proof fn lemma_progress_monotonic(chunks: Seq<nat>)
    ensures
        forall|i: int, j: int|
            0 <= i <= j < reports(chunks).len() ==> (#[trigger] reports(chunks)[i]).0 <= (
            #[trigger] reports(chunks)[j]).0,
        sum_since_last(reports(chunks)) == total(chunks),
        reports(chunks).len() > 0 ==> reports(chunks).last().0 == total(chunks),
        reports(chunks).len() == 0 ==> total(chunks) == 0,
{
    lemma_reported(chunks);
    lemma_counted_bounds(chunks);
    let r = reports(chunks);
    let (so_far, since_last) = counted(chunks);
    if since_last > 0 {
        assert(r.drop_last() =~= reported(chunks));
        assert forall|i: int, j: int| 0 <= i <= j < r.len() implies (#[trigger] r[i]).0 <= (
        #[trigger] r[j]).0 by {
            if j < r.len() - 1 {
                assert(r[i] == reported(chunks)[i]);
                assert(r[j] == reported(chunks)[j]);
            } else if i < r.len() - 1 {
                assert(r[i] == reported(chunks)[i]);
            }
        }
    } else {
        lemma_last_report(chunks);
    }
}

/// Where no byte is left unreported, the last report made on the way names
/// all the bytes, and if no report was made there were no bytes.
proof fn lemma_last_report(chunks: Seq<nat>)
    requires
        counted(chunks).1 == 0,
    ensures
        reported(chunks).len() > 0 ==> reported(chunks).last().0 == total(chunks),
        reported(chunks).len() == 0 ==> total(chunks) == 0,
    decreases chunks.len(),
{
    if chunks.len() > 0 {
        let before = chunks.drop_last();
        lemma_counted_bounds(before);
        lemma_reported(before);
        let (so_far, since_last) = counted(before);
        if since_last + chunks.last() >= PROGRESS_THRESHOLD {
        } else {
            assert(since_last == 0 && chunks.last() == 0);
            lemma_last_report(before);
        }
    }
}

/// One step of a download as it was taken: the download and the session
/// before it, the event, and what the step gave.
pub ghost struct Turn {
    pub before: Download,
    pub ctx: Context,
    pub event: Event,
    pub stage: Stage,
    pub endpoint: Option<Endpoint>,
    pub action: Action,
}

/// Whether `turns` are the steps of one download, each taken where the one
/// before it left the download.
pub open spec fn is_run(turns: Seq<Turn>) -> bool {
    &&& forall|i: int|
        0 <= i < turns.len() ==> (#[trigger] turns[i]).before.steps(
            turns[i].ctx,
            turns[i].event,
            turns[i].stage,
            turns[i].endpoint,
            turns[i].action,
        )
    &&& forall|i: int|
        0 <= i < turns.len() - 1 ==> (#[trigger] turns[i + 1]).before.stage == turns[i].stage
}

/// The number of answers among the actions of `turns`.
pub open spec fn answers(turns: Seq<Turn>) -> nat
    decreases turns.len(),
{
    if turns.len() == 0 {
        0
    } else {
        answers(turns.drop_last()) + if turns.last().action is Complete {
            1nat
        } else {
            0nat
        }
    }
}

/// A step answers the download exactly when it ends it, and a download that
/// has ended stays so and asks for nothing more.
pub proof fn lemma_step_answers(
    d: Download,
    ctx: Context,
    event: Event,
    stage: Stage,
    endpoint: Option<Endpoint>,
    action: Action,
)
    requires
        d.steps(ctx, event, stage, endpoint, action),
    ensures
        action is Complete <==> !d.done() && stage == Stage::Done,
        d.done() ==> stage == Stage::Done && action is Stop,
{
}

/// A download is answered exactly once: over any run of steps from a
/// download that has not ended, there is one answer if the run ends the
/// download and none if it does not.
pub proof fn lemma_one_answer(turns: Seq<Turn>)
    requires
        is_run(turns),
        turns.len() > 0,
        !turns[0].before.done(),
    ensures
        answers(turns) == if turns.last().stage == Stage::Done {
            1nat
        } else {
            0nat
        },
    decreases turns.len(),
{
    let last = turns.last();
    lemma_step_answers(last.before, last.ctx, last.event, last.stage, last.endpoint, last.action);
    if turns.len() == 1 {
        assert(answers(turns.drop_last()) == 0);
    } else {
        let head = turns.drop_last();
        assert forall|i: int| 0 <= i < head.len() implies (#[trigger] head[i]).before.steps(
            head[i].ctx,
            head[i].event,
            head[i].stage,
            head[i].endpoint,
            head[i].action,
        ) by {
            assert(head[i] == turns[i]);
        }
        assert forall|i: int| 0 <= i < head.len() - 1 implies (#[trigger] head[i + 1]).before.stage
            == head[i].stage by {
            assert(head[i + 1] == turns[i + 1]);
            assert(head[i] == turns[i]);
        }
        assert(head[0] == turns[0]);
        lemma_one_answer(head);
        assert(head.last() == turns[turns.len() - 2]);
        assert(turns[turns.len() - 2 + 1].before.stage == turns[turns.len() - 2].stage);
    }
}

/// The telemetry of a download names a cache as its source exactly when
/// the object came from the cache: the file is committed with a source
/// after a hit whose bytes have the digest that identifies the object, and
/// without one after a transfer from the server.
pub proof fn lemma_commit_source(
    d: Download,
    ctx: Context,
    event: Event,
    stage: Stage,
    endpoint: Option<Endpoint>,
    action: Action,
)
    requires
        d.steps(ctx, event, stage, endpoint, action),
        action is Commit,
    ensures
        action->cache is Some <==> d.stage == Stage::Cache && event is Cache,
        action->cache is None <==> d.stage == Stage::Transfer && event is Transfer,
        action->cache is Some ==> (event matches Event::Cache(Ok(hit)) && hit.digest@ == d.oid@
            && action->cache == Some(hit.source)),
        action->cache is None ==> event matches Event::Transfer(Ok(_)),
{
}

/// A hit whose bytes have another digest than the one that identifies the
/// object is not committed: the download goes on to the server.
pub proof fn lemma_mismatch_falls_back(
    d: Download,
    ctx: Context,
    hit: Hit,
    stage: Stage,
    endpoint: Option<Endpoint>,
    action: Action,
)
    requires
        d.stage == Stage::Cache,
        d.steps(ctx, Event::Cache(Ok(hit)), stage, endpoint, action),
        hit.digest@ != d.oid@,
    ensures
        !(action is Commit),
        d.turns_to_server(ctx, false, stage, action),
{
}

/// One request of a session as it was handled: the session before it, the
/// request, and the session and the reaction that followed.
pub ghost struct Exchange {
    pub before: Context,
    pub request: Request,
    pub after: Context,
    pub reaction: Reaction,
}

/// Whether `exchanges` are the requests of one session in their order. A
/// download that runs between two requests may find the endpoint of the
/// server; it leaves the rest of the session as it is.
pub open spec fn is_session(exchanges: Seq<Exchange>) -> bool {
    &&& forall|i: int|
        0 <= i < exchanges.len() ==> (#[trigger] exchanges[i]).before.reacts(
            exchanges[i].request,
            exchanges[i].after,
            exchanges[i].reaction,
        )
    &&& forall|i: int|
        0 <= i < exchanges.len() - 1 ==> (#[trigger] exchanges[i + 1]).before.terminated
            == exchanges[i].after.terminated
}

/// Whether `reaction` answers, or leads to an answer.
pub open spec fn answers_request(reaction: Reaction) -> bool {
    reaction is Respond || reaction is Download
}

/// A session that has ended stays so.
proof fn lemma_terminated_stays(exchanges: Seq<Exchange>, i: int, j: int)
    requires
        is_session(exchanges),
        0 <= i <= j < exchanges.len(),
        exchanges[i].after.terminated,
    ensures
        exchanges[j].after.terminated,
    decreases j - i,
{
    if i < j {
        lemma_terminated_stays(exchanges, i, j - 1);
        assert(exchanges[j - 1 + 1].before.terminated == exchanges[j - 1].after.terminated);
        assert(exchanges[j].before.reacts(
            exchanges[j].request,
            exchanges[j].after,
            exchanges[j].reaction,
        ));
    }
}

/// Nothing is answered after `Terminate`: every request that follows it in
/// the session is met with silence. Before it, every upload is answered at
/// once and every download begins, so that each of them is answered once.
pub proof fn lemma_silent_after_terminate(exchanges: Seq<Exchange>, i: int, j: int)
    requires
        is_session(exchanges),
        0 <= i < j < exchanges.len(),
        exchanges[i].request is Terminate,
    ensures
        exchanges[j].reaction is Stop,
        !answers_request(exchanges[j].reaction),
{
    assert(exchanges[i].before.reacts(
        exchanges[i].request,
        exchanges[i].after,
        exchanges[i].reaction,
    ));
    lemma_terminated_stays(exchanges, i, j - 1);
    assert(exchanges[j - 1 + 1].before.terminated == exchanges[j - 1].after.terminated);
    assert(exchanges[j].before.reacts(
        exchanges[j].request,
        exchanges[j].after,
        exchanges[j].reaction,
    ));
}

/// In a session that has not ended, a transfer is answered: an upload at
/// once, with one answer, and a download by its steps.
pub proof fn lemma_transfer_answered(before: Context, request: Request, after: Context, r: Reaction)
    requires
        before.reacts(request, after, r),
        !before.terminated,
    ensures
        request is Upload ==> r matches Reaction::Respond(Response::Complete { .. }),
        request is Download ==> (r matches Reaction::Download(d) && !d.done()),
        request is Init || request is Terminate ==> !answers_request(r),
{
}

/// The directory in which downloads are put together, below the
/// repository's metadata directory `git_dir`.
pub fn temp_dir(git_dir: &str) -> (r: String)
    ensures
        r@ == crate::text::joined_path(crate::text::joined_path(git_dir@, "lfs"@), "tmp"@),
{
    let lfs = crate::text::join_path(git_dir, "lfs");
    crate::text::join_path(lfs.as_str(), "tmp")
}

} // verus!
