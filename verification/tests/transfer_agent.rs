use git_lfs_cache::cache::filesystem;
use git_lfs_cache::cache::{Args, Cache, Place, Source};
use git_lfs_cache::git_lfs::batch;
use git_lfs_cache::git_lfs::batch::response::{Action as Transfer, Inner, Object};
use git_lfs_cache::git_lfs::custom_transfers::{Request, Response};
use git_lfs_cache::git_lfs::server_discovery::Response as Endpoint;
use git_lfs_cache::git_lfs::{Error, Operation};
use git_lfs_cache::misc::Failure;
use git_lfs_cache::digest::Digest;
use git_lfs_cache::transfer_agent::{
    error, select, temp_dir, Action, Args as Start, Context, Download, Event, Hit, Lookup,
    Progress, Reaction, Stage,
};
use url::Url;

const OID: &str = "b94d27b9934d3e08a52e52d7da7dabfac484efe37a5380ee9088f7ace2efcde9";

fn endpoint() -> Endpoint {
    Endpoint { href: Url::parse("https://git-server.com/foo/bar.git/info/lfs").unwrap(), header: Vec::new() }
}

fn transfer() -> Transfer {
    Transfer { href: Url::parse("https://storage.example/object").unwrap(), header: Vec::new() }
}

fn answer(oid: &str, inner: Inner) -> batch::Response {
    batch::Response { objects: vec![Object { oid: oid.to_string(), size: 11, inner }] }
}

fn download() -> Inner {
    Inner::Actions { upload: None, verify: None, download: Some(Box::new(transfer())) }
}

fn with_cache() -> Context {
    let cache = Args::Filesystem(filesystem::Opts { dir: "/cache".to_string() });
    Context::start(Start { cache: Some(cache) })
}

fn initialized(mut context: Context) -> Context {
    let reaction = context.request(Request::Init {
        operation: Operation::Download,
        remote: "origin".to_string(),
        concurrent: false,
        concurrenttransfers: 1,
    });
    match reaction {
        Reaction::Init(answer) => assert!(answer.error.is_none()),
        other => panic!("{other:?}"),
    }
    context
}

fn begin(context: &mut Context) -> Download {
    match context.request(Request::Download { oid: OID.to_string(), size: 11 }) {
        Reaction::Download(d) => d,
        other => panic!("{other:?}"),
    }
}

fn completed(action: Action) -> (String, Option<String>, Option<Error>) {
    match action {
        Action::Complete(Response::Complete { oid, path, error }) => (oid, path, error),
        other => panic!("{other:?}"),
    }
}

#[test]
fn hit_is_committed_with_its_source() {
    let mut context = initialized(with_cache());
    let mut d = begin(&mut context);
    assert!(matches!(d.step(&mut context, Event::Begin), Action::Cache));
    assert_eq!(d.stage, Stage::Cache);
    let place = match context.cache.as_ref().unwrap().get(OID).unwrap() {
        Place::Filesystem(p) => p,
        other => panic!("{other:?}"),
    };
    assert_eq!(place.path, format!("/cache/b9/4d/{OID}"));
    let source = Place::Filesystem(place).source();
    let mut digest = Digest::new();
    digest.update(b"hello ");
    digest.update(b"world");
    let hit = Hit { source, digest: digest.oid() };
    let cache = match d.step(&mut context, Event::Cache(Ok(hit))) {
        Action::Commit { cache } => cache,
        other => panic!("{other:?}"),
    };
    let line = d.line(cache, 1u64, 2u64);
    match &line.cache {
        Some(Source::Filesystem(s)) => assert_eq!(s.path, format!("/cache/b9/4d/{OID}")),
        other => panic!("{other:?}"),
    }
    assert_eq!((line.oid.as_str(), line.size, line.start, line.finish), (OID, 11, 1, 2));
    assert!(matches!(line.operation, Operation::Download));
    let (oid, path, error) =
        completed(d.step(&mut context, Event::Commit(Ok("/repo/.git/lfs/tmp/x".to_string()))));
    assert_eq!(oid, OID);
    assert_eq!(path.as_deref(), Some("/repo/.git/lfs/tmp/x"));
    assert!(error.is_none());
    assert!(d.is_done());
    assert!(matches!(d.step(&mut context, Event::Begin), Action::Stop));
    assert!(matches!(d.step(&mut context, Event::Commit(Ok(String::new()))), Action::Stop));
}

#[test]
fn miss_falls_back_to_the_server_and_fills_the_cache() {
    let mut context = initialized(with_cache());
    let mut d = begin(&mut context);
    assert!(matches!(d.step(&mut context, Event::Begin), Action::Cache));
    let missed = Event::Cache(Err(Failure::other("digest mismatch")));
    assert!(matches!(d.step(&mut context, missed), Action::Discover { authorization: false }));
    assert!(matches!(d.step(&mut context, Event::Discovery(Ok(endpoint()))), Action::Batch));
    assert!(context.server_discovery.is_some());
    let request = d.batch();
    assert_eq!(request.objects.len(), 1);
    assert_eq!((request.objects[0].oid.as_str(), request.objects[0].size), (OID, 11));
    assert_eq!(request.transfers, vec![batch::request::Transfer::Basic]);
    let fetched = d.step(&mut context, Event::Batch(Ok(answer(OID, download()))));
    match fetched {
        Action::Fetch(t) => assert_eq!(t.href.as_ref(), "https://storage.example/object"),
        other => panic!("{other:?}"),
    }
    assert!(matches!(
        d.step(&mut context, Event::Status(Ok(200))),
        Action::Transfer { put: true }
    ));
    let cache = match d.step(&mut context, Event::Transfer(Ok(()))) {
        Action::Commit { cache } => cache,
        other => panic!("{other:?}"),
    };
    assert!(cache.is_none());
    assert!(d.line(cache, 0u8, 0u8).cache.is_none());
    let (_, path, error) = completed(d.step(&mut context, Event::Commit(Ok("p".to_string()))));
    assert_eq!(path.as_deref(), Some("p"));
    assert!(error.is_none());
}

#[test]
fn hit_with_another_digest_falls_back() {
    let mut context = initialized(with_cache());
    let mut d = begin(&mut context);
    d.step(&mut context, Event::Begin);
    let source = context.cache.as_ref().unwrap().get(OID).unwrap().source();
    let mut digest = Digest::new();
    digest.update(b"hello world!");
    let hit = Hit { source, digest: digest.oid() };
    assert!(matches!(
        d.step(&mut context, Event::Cache(Ok(hit))),
        Action::Discover { authorization: false }
    ));
}

#[test]
fn known_endpoint_is_used_again() {
    let mut context = initialized(Context::new(None));
    let mut first = begin(&mut context);
    assert!(matches!(first.step(&mut context, Event::Begin), Action::Discover { authorization: false }));
    assert!(matches!(first.step(&mut context, Event::Discovery(Ok(endpoint()))), Action::Batch));
    let mut second = begin(&mut context);
    assert!(matches!(second.step(&mut context, Event::Begin), Action::Batch));
    assert!(matches!(context.server_discovery(false), Lookup::Known));
    match context.server_discovery(true) {
        Lookup::Discover { operation, remote, authorization } => {
            assert!(matches!(operation, Operation::Download));
            assert_eq!(remote, "origin");
            assert!(authorization);
        }
        other => panic!("{other:?}"),
    }
}

#[test]
fn unauthorized_batch_is_tried_once_more_with_credentials() {
    let mut context = initialized(Context::new(None));
    let mut d = begin(&mut context);
    d.step(&mut context, Event::Begin);
    d.step(&mut context, Event::Discovery(Ok(endpoint())));
    let unauthorized = || Failure::Server(Error { code: 401, message: "who".to_string() });
    assert!(matches!(
        d.step(&mut context, Event::Batch(Err(unauthorized()))),
        Action::Discover { authorization: true }
    ));
    assert!(matches!(d.step(&mut context, Event::Discovery(Ok(endpoint()))), Action::Batch));
    assert_eq!(d.stage, Stage::Batch { authorized: true });
    let (_, path, error) = completed(d.step(&mut context, Event::Batch(Err(unauthorized()))));
    assert!(path.is_none());
    let error = error.unwrap();
    assert_eq!((error.code, error.message.as_str()), (401, "who"));
}

#[test]
fn other_batch_failures_surface() {
    let mut context = initialized(Context::new(None));
    let mut d = begin(&mut context);
    d.step(&mut context, Event::Begin);
    d.step(&mut context, Event::Discovery(Ok(endpoint())));
    let forbidden = Failure::Server(Error { code: 403, message: "no".to_string() });
    let (_, _, error) = completed(d.step(&mut context, Event::Batch(Err(forbidden))));
    assert_eq!(error.unwrap().code, 403);

    let mut d = begin(&mut context);
    d.step(&mut context, Event::Begin);
    let broken = Failure::other("connection closed");
    let (_, _, error) = completed(d.step(&mut context, Event::Batch(Err(broken))));
    let error = error.unwrap();
    assert_eq!((error.code, error.message.as_str()), (500, "connection closed"));
}

#[test]
fn refused_fetch_reports_the_body() {
    let mut context = initialized(Context::new(None));
    let mut d = begin(&mut context);
    d.step(&mut context, Event::Begin);
    d.step(&mut context, Event::Discovery(Ok(endpoint())));
    d.step(&mut context, Event::Batch(Ok(answer(OID, download()))));
    assert!(matches!(d.step(&mut context, Event::Status(Ok(404))), Action::Collect));
    assert_eq!(d.stage, Stage::Reject { status: 404 });
    let (oid, path, error) =
        completed(d.step(&mut context, Event::Body(Ok(b"not found".to_vec()))));
    assert_eq!(oid, OID);
    assert!(path.is_none());
    let error = error.unwrap();
    assert_eq!((error.code, error.message.as_str()), (404, "not found"));
    assert_eq!(error.to_text(), "[404] not found");
}

#[test]
fn repeated_downloads_succeed_alike() {
    let mut context = initialized(with_cache());
    for round in 0..3 {
        let mut d = begin(&mut context);
        assert!(matches!(d.step(&mut context, Event::Begin), Action::Cache));
        let source = context.cache.as_ref().unwrap().get(OID).unwrap().source();
        let mut digest = Digest::new();
        digest.update(b"hello world");
        let hit = Hit { source, digest: digest.oid() };
        assert!(matches!(d.step(&mut context, Event::Cache(Ok(hit))), Action::Commit { cache: Some(_) }));
        let (oid, path, error) =
            completed(d.step(&mut context, Event::Commit(Ok(format!("/tmp/{round}")))));
        assert_eq!((oid.as_str(), path, error.is_none()), (OID, Some(format!("/tmp/{round}")), true));
    }
}

#[test]
fn downloads_are_put_together_below_the_metadata_directory() {
    assert_eq!(temp_dir("/repo/.git"), "/repo/.git/lfs/tmp");
}

#[test]
fn session_starts_with_the_cache_of_its_arguments() {
    let context = with_cache();
    assert!(matches!(context.cache, Some(Cache::Filesystem(_))));
    assert!(context.operation.is_none() && context.remote.is_none());
    assert!(context.server_discovery.is_none() && !context.terminated);
    assert!(Context::start(Start { cache: None }).cache.is_none());
}

#[test]
fn download_before_init_fails() {
    let mut context = Context::new(None);
    let mut d = begin(&mut context);
    let (_, path, error) = completed(d.step(&mut context, Event::Begin));
    assert!(path.is_none());
    let error = error.unwrap();
    assert_eq!((error.code, error.message.as_str()), (500, "uninitialized"));
    assert!(matches!(context.server_discovery(false), Lookup::Uninitialized));
}

#[test]
fn event_out_of_turn_ends_the_download() {
    let mut context = initialized(Context::new(None));
    let mut d = begin(&mut context);
    let (_, _, error) = completed(d.step(&mut context, Event::Transfer(Ok(()))));
    assert_eq!(error.unwrap().message, "unexpected event");
    assert!(d.is_done());
}

#[test]
fn failures_on_the_way_end_the_download() {
    for stage in 0..5 {
        let mut context = initialized(Context::new(None));
        let mut d = begin(&mut context);
        d.step(&mut context, Event::Begin);
        let failure = || Failure::other("broken");
        let action = if stage == 0 {
            d.step(&mut context, Event::Discovery(Err(failure())))
        } else {
            d.step(&mut context, Event::Discovery(Ok(endpoint())));
            d.step(&mut context, Event::Batch(Ok(answer(OID, download()))));
            if stage == 1 {
                d.step(&mut context, Event::Status(Err(failure())))
            } else if stage == 2 {
                d.step(&mut context, Event::Status(Ok(500)));
                d.step(&mut context, Event::Body(Err(failure())))
            } else {
                d.step(&mut context, Event::Status(Ok(204)));
                if stage == 3 {
                    d.step(&mut context, Event::Transfer(Err(failure())))
                } else {
                    d.step(&mut context, Event::Transfer(Ok(())));
                    d.step(&mut context, Event::Commit(Err(failure())))
                }
            }
        };
        let (_, path, error) = completed(action);
        assert!(path.is_none());
        let error = error.unwrap();
        assert_eq!((error.code, error.message.as_str()), (500, "broken"));
        assert!(d.is_done());
    }
}

#[test]
fn action_that_cannot_begin_ends_the_download() {
    let mut context = initialized(with_cache());
    let mut d = begin(&mut context);
    let (_, path, error) =
        completed(d.step(&mut context, Event::Failure(Failure::other("read-only file system"))));
    assert!(path.is_none());
    assert_eq!(error.unwrap().message, "read-only file system");
    assert!(matches!(d.step(&mut context, Event::Failure(Failure::other("x"))), Action::Stop));
}

#[test]
fn upload_is_unimplemented() {
    let mut context = initialized(Context::new(None));
    let request = Request::Upload { oid: OID.to_string(), size: 11, path: "/x".to_string() };
    match context.request(request) {
        Reaction::Respond(Response::Complete { oid, path, error }) => {
            assert_eq!(oid, OID);
            assert!(path.is_none());
            let error = error.unwrap();
            assert_eq!((error.code, error.message.as_str()), (500, "unimplemented"));
        }
        other => panic!("{other:?}"),
    }
}

#[test]
fn nothing_is_answered_after_terminate() {
    let mut context = initialized(Context::new(None));
    assert!(matches!(context.request(Request::Terminate), Reaction::Stop));
    assert!(context.terminated);
    let upload = Request::Upload { oid: OID.to_string(), size: 11, path: "/x".to_string() };
    assert!(matches!(context.request(upload), Reaction::Stop));
    let download = Request::Download { oid: OID.to_string(), size: 11 };
    assert!(matches!(context.request(download), Reaction::Stop));
}

#[test]
fn answer_is_searched_for_the_object() {
    let other = "0000000000000000000000000000000000000000000000000000000000000000";
    match select(answer(other, download()), OID) {
        Err(Failure::Other(m)) => assert_eq!(m, "missing object"),
        other => panic!("{other:?}"),
    }
    let none = Inner::Actions { upload: Some(Box::new(transfer())), verify: None, download: None };
    match select(answer(OID, none), OID) {
        Err(Failure::Other(m)) => assert_eq!(m, "missing action"),
        other => panic!("{other:?}"),
    }
    let refused = Inner::Error(Error { code: 404, message: "gone".to_string() });
    match select(answer(OID, refused), OID) {
        Err(Failure::Server(e)) => assert_eq!((e.code, e.message.as_str()), (404, "gone")),
        other => panic!("{other:?}"),
    }
    let mut twice = answer(other, download());
    twice.objects.push(Object {
        oid: OID.to_string(),
        size: 11,
        inner: Inner::Error(Error { code: 410, message: "first".to_string() }),
    });
    twice.objects.push(Object { oid: OID.to_string(), size: 11, inner: download() });
    match select(twice, OID) {
        Err(Failure::Server(e)) => assert_eq!(e.code, 410),
        other => panic!("{other:?}"),
    }
}

#[test]
fn failure_without_a_status_is_an_internal_error() {
    let e = error(Failure::other("boom"));
    assert_eq!((e.code, e.message.as_str()), (500, "boom"));
    let e = error(Failure::Server(Error { code: 503, message: "busy".to_string() }));
    assert_eq!((e.code, e.message.as_str()), (503, "busy"));
}

fn report(response: Response) -> (u64, u64) {
    match response {
        Response::Progress { oid, bytes_so_far, bytes_since_last } => {
            assert_eq!(oid, OID);
            (bytes_so_far, bytes_since_last)
        }
        other => panic!("{other:?}"),
    }
}

#[test]
fn progress_is_reported_at_the_threshold_and_at_the_end() {
    let mut progress = Progress::new(OID);
    assert!(progress.update(65535).is_none());
    assert_eq!(progress.update(1).map(report), Some((65536, 65536)));
    assert!(progress.update(1).is_none());
    assert_eq!(progress.update(70000).map(report), Some((135537, 70001)));
    assert!(progress.finish().is_none());
    assert!(progress.update(5).is_none());
    assert_eq!(progress.finish().map(report), Some((135542, 5)));
}

#[test]
fn progress_adds_up() {
    let chunks = [1usize, 65535, 0, 65536, 3, 200000, 65535, 1, 7];
    let mut progress = Progress::new(OID);
    let mut reports = Vec::new();
    for len in chunks {
        reports.extend(progress.update(len).map(report));
    }
    reports.extend(progress.finish().map(report));
    let total: u64 = chunks.iter().map(|c| *c as u64).sum();
    assert!(reports.windows(2).all(|w| w[0].0 <= w[1].0));
    assert_eq!(reports.iter().map(|r| r.1).sum::<u64>(), total);
    assert_eq!(reports.last().unwrap().0, total);
    assert_eq!(
        reports,
        vec![(65536, 65536), (131072, 65536), (331075, 200003), (396611, 65536), (396618, 7)]
    );
    assert!(Progress::new(OID).finish().is_none());
}
