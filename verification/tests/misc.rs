use git_lfs_cache::digest::Digest;
use git_lfs_cache::git::Location;
use git_lfs_cache::git_lfs::batch;
use git_lfs_cache::git_lfs::{Error, Operation};
use git_lfs_cache::install::commands;
use git_lfs_cache::jsonl::{message, Reader, Writer};
use git_lfs_cache::logs::Line;
use git_lfs_cache::misc::{output_text, path_segments_mut, spawn, with_path, with_port, Failure};
use git_lfs_cache::stats::{is_log, Stat, Stats};
use git_lfs_cache::text;
use git_lfs_cache::text::{
    decimal, equal, join_path, lines, split_once, strip_prefixes, strip_suffix, trim,
};
use git_lfs_cache::web::{contains_field, is_server_error, is_success, url_len, Field};
use url::Url;

const HELLO: &str = "b94d27b9934d3e08a52e52d7da7dabfac484efe37a5380ee9088f7ace2efcde9";

#[test]
fn digest_is_the_sha256_in_hexadecimal() {
    let mut digest = Digest::new();
    digest.update(b"hello");
    digest.update(b" world");
    assert_eq!(digest.oid(), HELLO);
    assert_eq!(
        Digest::new().oid(),
        "e3b0c44298fc1c149afbf4c8996fb92427ae41e4649b934ca495991b7852b855"
    );
}

#[test]
fn child_process_gives_its_output_or_its_complaint() {
    assert_eq!(spawn(true, b"out".to_vec(), b"err").unwrap(), b"out");
    match spawn(false, b"out".to_vec(), b"fatal: not a repository") {
        Err(Failure::Other(m)) => assert_eq!(m, "fatal: not a repository"),
        other => panic!("{other:?}"),
    }
    match spawn(false, Vec::new(), &[b'a', 0xff, b'b']) {
        Err(Failure::Other(m)) => assert_eq!(m, "a\u{fffd}b"),
        other => panic!("{other:?}"),
    }
    assert_eq!(output_text("gr\u{fc}n".as_bytes().to_vec()).unwrap(), "gr\u{fc}n");
    assert!(output_text(vec![0xff]).is_err());
}

#[test]
fn segments_follow_the_path() {
    let mut url = Url::parse("https://example.com/a/").unwrap();
    path_segments_mut(&mut url, "objects").unwrap();
    path_segments_mut(&mut url, "batch").unwrap();
    assert_eq!(url.as_ref(), "https://example.com/a/objects/batch");
    assert_eq!(url_len(&url), "https://example.com/a/objects/batch".len());
    with_path(&mut url, "/x y").unwrap();
    assert_eq!(url.as_ref(), "https://example.com/x%20y");
    with_port(&mut url, Some(8443)).unwrap();
    assert_eq!(url.as_ref(), "https://example.com:8443/x%20y");
    with_port(&mut url, Some(443)).unwrap();
    assert_eq!(url.as_ref(), "https://example.com/x%20y");
    let mut mail = Url::parse("mailto:a@example.com").unwrap();
    assert!(matches!(with_port(&mut mail, Some(1)), Err(Failure::Other(_))));
    assert!(matches!(path_segments_mut(&mut mail, "x"), Err(Failure::Other(_))));
    assert_eq!(mail.as_ref(), "mailto:a@example.com");
    let long = "a".repeat((1 << 24) + 1);
    match path_segments_mut(&mut url, &long) {
        Err(Failure::Other(m)) => assert_eq!(m, "too long"),
        other => panic!("{other:?}"),
    }
    match with_path(&mut url, &long) {
        Err(Failure::Other(m)) => assert_eq!(m, "too long"),
        other => panic!("{other:?}"),
    }
}

#[test]
fn batch_request_goes_to_objects_batch() {
    let href = Url::parse("https://git-server.com/foo/bar.git/info/lfs").unwrap();
    assert_eq!(
        batch::target(&href).unwrap().as_ref(),
        "https://git-server.com/foo/bar.git/info/lfs/objects/batch"
    );
    assert_eq!(href.as_ref(), "https://git-server.com/foo/bar.git/info/lfs");
    assert!(batch::target(&Url::parse("data:text/plain,x").unwrap()).is_err());
    let fields = vec![Field { name: "authorization".to_string(), value: "Basic x".to_string() }];
    let header: Vec<(String, String)> =
        batch::header(&fields).into_iter().map(|f| (f.name, f.value)).collect();
    assert_eq!(
        header,
        vec![
            ("authorization".to_string(), "Basic x".to_string()),
            ("accept".to_string(), "application/vnd.git-lfs+json".to_string()),
            ("content-type".to_string(), "application/vnd.git-lfs+json".to_string()),
        ]
    );
    assert!(contains_field(&fields, "authorization"));
    assert!(!contains_field(&fields, "accept"));
    let request = batch::Request::download(HELLO, 11);
    assert!(matches!(request.operation, Operation::Download));
}

#[test]
fn batch_answer_is_the_list_or_the_error() {
    let list = || Ok(batch::Response { objects: Vec::new() });
    assert!(batch::batch(200, b"{}", list(), None).unwrap().objects.is_empty());
    match batch::batch(200, b"?", Err(Failure::other("bad json")), None) {
        Err(Failure::Other(m)) => assert_eq!(m, "bad json"),
        other => panic!("{other:?}"),
    }
    match batch::batch(401, b"{\"message\":\"who\"}", list(), Some("who".to_string())) {
        Err(Failure::Server(e)) => assert_eq!((e.code, e.message.as_str()), (401, "who")),
        other => panic!("{other:?}"),
    }
    match batch::batch(404, b"not found", list(), None) {
        Err(Failure::Server(e)) => assert_eq!((e.code, e.message.as_str()), (404, "not found")),
        other => panic!("{other:?}"),
    }
    assert!(is_success(200) && is_success(299) && !is_success(199) && !is_success(300));
    assert!(is_server_error(500) && is_server_error(599) && !is_server_error(499));
    assert!(!is_server_error(600));
}

#[test]
fn error_reads_with_its_status() {
    let e = Error { code: 404, message: "not found".to_string() };
    assert_eq!(e.to_text(), "[404] not found");
    let copy = e.clone();
    assert_eq!((copy.code, copy.message.as_str()), (404, "not found"));
    let e = Error { code: 65535, message: String::new() };
    assert_eq!(e.to_text(), "[65535] ");
    assert_eq!(Operation::Upload.name(), "upload");
    assert_eq!(Operation::Download.name(), "download");
}

#[test]
fn messages_are_lines() {
    let mut reader = Reader::new();
    assert!(reader.read().is_none());
    reader.feed(b"{\"event\":\"init\"}\r\n{\"event\"");
    assert_eq!(reader.read().unwrap(), b"{\"event\":\"init\"}");
    assert!(reader.read().is_none());
    reader.feed(b":\"terminate\"}\n\nrest");
    assert_eq!(reader.read().unwrap(), b"{\"event\":\"terminate\"}");
    assert_eq!(reader.read().unwrap(), b"");
    assert!(reader.read().is_none());
    assert_eq!(reader.finish().unwrap(), b"rest");
    assert!(Reader::new().finish().is_none());
    assert_eq!(message(b"{}".to_vec()).unwrap(), "{}");
    assert!(message(vec![0xff]).is_err());
    match message(b" \t".to_vec()) {
        Err(Failure::Other(m)) => assert_eq!(m, "blank line"),
        other => panic!("{other:?}"),
    }
    assert!(message(Vec::new()).is_err());
    assert_eq!(Writer::new().write(b"{}".to_vec()), b"{}\n");
    assert_eq!(Writer::new().write(Vec::new()), b"\n");
}

fn line(size: u64, hit: bool) -> Line<u32> {
    let cache = if hit {
        Some(git_lfs_cache::cache::Source::Filesystem(git_lfs_cache::cache::filesystem::Source {
            path: "p".to_string(),
        }))
    } else {
        None
    };
    Line { operation: Operation::Download, oid: HELLO.to_string(), size, cache, start: 0, finish: 1 }
}

#[test]
fn statistics_count_hits_and_misses() {
    let mut stats = Stats::new();
    assert!(stats.record(&line(1024, true)));
    assert!(stats.record(&line(512, false)));
    assert!(stats.record(&line(1024, true)));
    assert_eq!(stats.total, Stat { count: 3, size: 2560 });
    assert_eq!(stats.hit, Stat { count: 2, size: 2048 });
    assert_eq!(stats.miss, Stat { count: 1, size: 512 });
    assert_eq!(stats.total.to_text(), "3 objects (2.50 KiB)");
    assert_eq!(stats.hit.to_text(), "2 objects (2 KiB)");
    assert_eq!(Stat::new().to_text(), "0 objects (0 B)");
    assert!(stats.record(&line(u64::MAX - 2560, false)));
    let before = stats;
    assert!(!stats.record(&line(1, true)));
    assert_eq!(stats, before);
    let mut stat = Stat::new();
    assert!(stat.fits(u64::MAX));
    stat.push(&line(7, false));
    assert_eq!(stat, Stat { count: 1, size: 7 });
    assert!(!stat.fits(u64::MAX));
}

#[test]
fn records_lie_in_files_with_their_extension() {
    assert!(is_log("1234.jsonl"));
    assert!(!is_log("1234.log"));
    assert!(!is_log(".jsonl"));
    assert!(!is_log("jsonl"));
    assert!(!is_log("a.jsonl.bak"));
}

#[test]
fn installing_sets_four_entries() {
    let location = Location { global: true, ..Location::default() };
    let cache = "{\"filesystem\":{\"dir\":\"/tmp/c\"}}";
    let all = commands(&location, "/usr/bin/git-lfs-cache", Some(cache)).unwrap();
    let all: Vec<String> = all.iter().map(|c| c.join("|")).collect();
    assert_eq!(
        all,
        vec![
            "config|--global|lfs.customtransfer.git-lfs-cache.path|/usr/bin/git-lfs-cache",
            "config|--global|lfs.customtransfer.git-lfs-cache.args|transfer-agent --cache '{\"filesystem\":{\"dir\":\"/tmp/c\"}}'",
            "config|--global|lfs.customtransfer.git-lfs-cache.direction|download",
            "config|--global|lfs.standalonetransferagent|git-lfs-cache",
        ]
    );
    let bare = commands(&Location::default(), "p", None).unwrap();
    assert_eq!(bare[1], vec!["config", "lfs.customtransfer.git-lfs-cache.args", "transfer-agent"]);
    match commands(&Location::default(), "p", Some("a\0b")) {
        Err(Failure::Other(m)) => assert_eq!(m, "nul byte"),
        other => panic!("{other:?}"),
    }
}

#[test]
fn text_is_cut_and_joined() {
    assert_eq!(trim(" \t a b\u{a0}\r\n"), "a b");
    assert_eq!(trim("\u{3000}"), "");
    assert_eq!(trim(""), "");
    assert_eq!(split_once("a=b=c", '='), Some(("a", "b=c")));
    assert_eq!(split_once("=", '='), Some(("", "")));
    assert_eq!(split_once("abc", '='), None);
    assert_eq!(strip_suffix("repo.git", ".git"), "repo");
    assert_eq!(strip_suffix("repo.git.git", ".git"), "repo.git");
    assert_eq!(strip_suffix("git", ".git"), "git");
    assert_eq!(strip_prefixes("//a/b", "/"), "a/b");
    assert_eq!(strip_prefixes("git-git-lfs", "git-"), "lfs");
    assert_eq!(strip_prefixes("abc", ""), "abc");
    assert_eq!(lines("a\r\nb\n\nc\r"), vec!["a", "b", "", "c\r"]);
    assert_eq!(lines("a\n"), vec!["a"]);
    assert!(lines("").is_empty());
    assert_eq!(text::concat("ab", "cd"), "abcd");
    assert_eq!(join_path("", "a"), "a");
    assert_eq!(join_path("/", "a"), "/a");
    assert_eq!(join_path("/x", "a"), "/x/a");
    assert_eq!(decimal(0), "0");
    assert_eq!(decimal(65536), "65536");
    assert_eq!(decimal(u64::MAX), "18446744073709551615");
    assert!(equal("gr\u{fc}n", "gr\u{fc}n"));
    assert!(!equal("a", "ab"));
    assert!(!equal("ab", "ac"));
}
