use git_lfs_cache::git_lfs::server_discovery;
use git_lfs_cache::git_lfs::server_discovery::{
    custom_configuration, extra_headers, lfs_href, ssh_command, ssh_href, Answer, Discovery, Query,
    Response,
};
use git_lfs_cache::git_lfs::Operation;
use git_lfs_cache::misc::Failure;
use git_lfs_cache::web::Field;
use headers::{Authorization, Header};
use url::Url;

/// A repository as the searches of these tests find it.
#[derive(Default)]
struct Repository {
    toplevel: Option<&'static str>,
    lfsconfig: Vec<(&'static str, &'static str)>,
    config: Vec<(&'static str, &'static str)>,
    remotes: Vec<(&'static str, &'static str)>,
    extraheader: Vec<(&'static str, &'static str)>,
    credentials: Option<&'static str>,
    asked: Vec<Vec<String>>,
}

fn lookup(entries: &[(&'static str, &'static str)], key: &str) -> Result<Vec<u8>, Failure> {
    match entries.iter().find(|(k, _)| *k == key) {
        Some((_, v)) => Ok(format!("{v}\n").into_bytes()),
        None => Err(Failure::other("exit status: 1")),
    }
}

impl Repository {
    fn new() -> Repository {
        Repository { toplevel: Some("/work/tree"), ..Repository::default() }
    }

    fn answer(&mut self, args: &[String], input: Option<&String>) -> Result<Vec<u8>, Failure> {
        self.asked.push(args.to_vec());
        let args: Vec<&str> = args.iter().map(String::as_str).collect();
        match args.as_slice() {
            ["rev-parse", "--show-toplevel"] => match self.toplevel {
                Some(t) => Ok(format!("{t}\n").into_bytes()),
                None => Err(Failure::other("not a repository")),
            },
            ["config", "--file", file, key] => {
                assert_eq!(*file, "/work/tree/.lfsconfig");
                lookup(&self.lfsconfig, key)
            }
            ["config", "--get-urlmatch", "http.extraheader", url] => {
                match self.extraheader.iter().find(|(prefix, _)| url.starts_with(prefix)) {
                    Some((_, line)) => Ok(format!("{line}\n").into_bytes()),
                    None => Err(Failure::other("exit status: 1")),
                }
            }
            ["config", key] => lookup(&self.config, key),
            ["remote", "get-url", name] => lookup(&self.remotes, name),
            ["credential", "fill"] => {
                assert!(input.is_some());
                match self.credentials {
                    Some(c) => Ok(format!("{}{c}", input.unwrap()).into_bytes()),
                    None => Err(Failure::other("no credentials")),
                }
            }
            _ => panic!("unexpected question: {args:?}"),
        }
    }
}

enum Found {
    Endpoint(Result<Response, Failure>),
    Ssh { program: String, args: Vec<String>, search: Discovery },
}

fn search(
    repository: &mut Repository,
    operation: Operation,
    remote: &str,
    authorization: bool,
    ssh: Option<&str>,
) -> Found {
    let (mut search, mut query) = server_discovery::server_discovery(
        operation,
        remote,
        authorization,
        ssh.map(str::to_string),
    );
    loop {
        let answer = match query {
            Query::Git { args, input } => Answer::Output(repository.answer(&args, input.as_ref())),
            Query::Ssh { program, args } => return Found::Ssh { program, args, search },
            Query::Done(r) => return Found::Endpoint(r),
        };
        query = search.step(answer);
    }
}

fn discover(
    repository: &mut Repository,
    operation: Operation,
    remote: &str,
    authorization: bool,
) -> Result<Response, Failure> {
    match search(repository, operation, remote, authorization, None) {
        Found::Endpoint(r) => r,
        Found::Ssh { .. } => panic!("the search turned to a secure shell"),
    }
}

fn concat_parts(parts: &[&str]) -> String {
    parts.iter().map(|p| p.to_string()).collect()
}

fn basic(username: &str, password: &str) -> String {
    let mut values = Vec::new();
    Authorization::basic(username, password).encode(&mut values);
    values[0].to_str().unwrap().to_string()
}

fn authorization(response: &Response) -> Vec<&str> {
    response
        .header
        .iter()
        .filter(|f| f.name == "authorization")
        .map(|f| f.value.as_str())
        .collect()
}

fn init(http_extraheader: bool, credential_helper: bool) -> Repository {
    let mut repository = Repository::new();
    if http_extraheader {
        repository
            .extraheader
            .push(("https://git-server.com/", "authorization: Basic cXV4OnF1dXg="));
    }
    if credential_helper {
        repository.credentials = Some("username=corge\npassword=grault\n");
    }
    repository
}

#[test]
fn test_http() {
    let mut repository = init(false, false);
    repository.remotes.push(("baz", "https://git-server.com/foo/bar"));
    let response = discover(&mut repository, Operation::Upload, "baz", false).unwrap();
    assert_eq!(response.href.as_ref(), "https://git-server.com/foo/bar.git/info/lfs");
    assert!(response.header.is_empty());
}

#[test]
fn test_http_suffix() {
    let mut repository = init(false, false);
    repository.remotes.push(("baz", "https://git-server.com/foo/bar.git"));
    let response = discover(&mut repository, Operation::Upload, "baz", false).unwrap();
    assert_eq!(response.href.as_ref(), "https://git-server.com/foo/bar.git/info/lfs");
    assert!(response.header.is_empty());
}

#[test]
fn test_http_lfs_url() {
    let mut repository = init(false, false);
    repository.config.push(("lfs.url", "https://lfs-server.com/foo/bar"));
    let response = discover(&mut repository, Operation::Upload, "baz", false).unwrap();
    assert_eq!(response.href.as_ref(), "https://lfs-server.com/foo/bar");
    assert!(response.header.is_empty());
}

#[test]
fn test_http_remote_lfsurl() {
    let mut repository = init(false, false);
    repository.config.push(("remote.dev.lfsurl", "http://lfs-server.dev/foo/bar"));
    let response = discover(&mut repository, Operation::Upload, "dev", false).unwrap();
    assert_eq!(response.href.as_ref(), "http://lfs-server.dev/foo/bar");
    assert!(response.header.is_empty());
}

#[test]
fn test_http_lfsconfig_lfs_url() {
    let mut repository = init(false, false);
    repository.lfsconfig.push(("lfs.url", "https://lfs-server.com/foo/bar"));
    let response = discover(&mut repository, Operation::Upload, "baz", false).unwrap();
    assert_eq!(response.href.as_ref(), "https://lfs-server.com/foo/bar");
    assert!(response.header.is_empty());
}

#[test]
fn test_http_lfsconfig_remote_lfsurl() {
    let mut repository = init(false, false);
    repository.lfsconfig.push(("remote.dev.lfsurl", "http://lfs-server.dev/foo/bar"));
    let response = discover(&mut repository, Operation::Upload, "dev", false).unwrap();
    assert_eq!(response.href.as_ref(), "http://lfs-server.dev/foo/bar");
    assert!(response.header.is_empty());
}

#[test]
fn test_http_authorization_http_extraheader() {
    let mut repository = init(true, false);
    repository.remotes.push(("baz", "https://git-server.com/foo/bar"));
    let response = discover(&mut repository, Operation::Upload, "baz", false).unwrap();
    assert_eq!(response.href.as_ref(), "https://git-server.com/foo/bar.git/info/lfs");
    assert_eq!(authorization(&response), vec![basic("qux", "quux").as_str()]);
}

#[test]
fn test_http_authorization_credential_helper() {
    let mut repository = init(false, true);
    repository.remotes.push(("baz", "https://git-server.com/foo/bar"));
    let response = discover(&mut repository, Operation::Upload, "baz", true).unwrap();
    assert_eq!(response.href.as_ref(), "https://git-server.com/foo/bar.git/info/lfs");
    assert_eq!(authorization(&response), vec![basic("corge", "grault").as_str()]);
}

#[test]
fn test_http_authorization_both() {
    let mut repository = init(true, false);
    repository.remotes.push(("baz", "https://git-server.com/foo/bar"));
    let response = discover(&mut repository, Operation::Upload, "baz", false).unwrap();
    assert_eq!(response.href.as_ref(), "https://git-server.com/foo/bar.git/info/lfs");
    assert_eq!(authorization(&response), vec![basic("qux", "quux").as_str()]);
}

#[test]
fn test_git() {
    let mut repository = init(false, false);
    repository.remotes.push(("baz", "git@git-server.com:foo/bar.git"));
    let response = discover(&mut repository, Operation::Upload, "baz", false).unwrap();
    assert_eq!(response.href.as_ref(), "https://git-server.com/foo/bar.git/info/lfs");
    assert!(response.header.is_empty());
}

#[test]
fn test_ssh() {
    let mut repository = init(false, false);
    repository.remotes.push(("baz", "ssh://git-server.com/foo/bar.git"));
    let response = discover(&mut repository, Operation::Upload, "baz", false).unwrap();
    assert_eq!(response.href.as_ref(), "https://git-server.com/foo/bar.git/info/lfs");
    assert!(response.header.is_empty());
}

#[test]
fn test_ssh_authorization() {
    let mut repository = init(false, false);
    repository.remotes.push(("baz", "git@git-server.com:foo/bar.git"));
    let filter = concat_parts(&[
        r#"{href: "https://git-server.com/foo/bar.git/info/lfs", "#,
        r#"header: ($ARGS.positional | to_entries | map({(.key | tostring): .value}) | add)}"#,
    ]);
    let ssh = format!("jq --args --null-input '{filter}' --");
    let ssh = ssh.as_str();
    let found = search(&mut repository, Operation::Upload, "baz", true, Some(ssh));
    let (program, args, mut search) = match found {
        Found::Ssh { program, args, search } => (program, args, search),
        Found::Endpoint(_) => panic!("the search did not turn to the secure shell"),
    };
    assert_eq!(program, "jq");
    assert_eq!(
        args,
        vec![
            "--args",
            "--null-input",
            filter.as_str(),
            "--",
            "-l",
            "git",
            "git-server.com",
            "git-lfs-authenticate",
            "/foo/bar.git",
            "upload",
        ]
    );
    let header: Vec<Field> = args[4..]
        .iter()
        .enumerate()
        .map(|(i, v)| Field { name: i.to_string(), value: v.clone() })
        .collect();
    let named = Response {
        href: Url::parse("https://git-server.com/foo/bar.git/info/lfs").unwrap(),
        header,
    };
    let response = match search.step(Answer::Endpoint(Ok(named))) {
        Query::Done(Ok(response)) => response,
        other => panic!("the search did not end: {other:?}"),
    };
    assert_eq!(response.href.as_ref(), "https://git-server.com/foo/bar.git/info/lfs");
    let values: Vec<(&str, &str)> =
        response.header.iter().map(|f| (f.name.as_str(), f.value.as_str())).collect();
    assert_eq!(
        values,
        vec![
            ("0", "-l"),
            ("1", "git"),
            ("2", "git-server.com"),
            ("3", "git-lfs-authenticate"),
            ("4", "/foo/bar.git"),
            ("5", "upload"),
        ]
    );
}

#[test]
fn credential_store_gives_the_basic_field() {
    let mut repository = init(false, false);
    repository.credentials = Some("username=qux\npassword=quux\n");
    repository.remotes.push(("baz", "https://git-server.com/foo/bar"));
    let response = discover(&mut repository, Operation::Download, "baz", true).unwrap();
    assert_eq!(response.href.as_ref(), "https://git-server.com/foo/bar.git/info/lfs");
    assert_eq!(authorization(&response), vec!["Basic cXV4OnF1dXg="]);
    let input = repository.asked.last().unwrap();
    assert_eq!(input, &vec!["credential".to_string(), "fill".to_string()]);
}

#[test]
fn configured_authorization_keeps_the_helper_out() {
    let mut repository = init(true, true);
    repository.remotes.push(("baz", "https://git-server.com/foo/bar"));
    let response = discover(&mut repository, Operation::Download, "baz", true).unwrap();
    assert_eq!(authorization(&response), vec!["Basic cXV4OnF1dXg="]);
    assert!(!repository.asked.iter().any(|a| a[0] == "credential"));
}

#[test]
fn places_are_asked_in_their_order() {
    let mut repository = init(false, false);
    repository.remotes.push(("baz", "https://git-server.com/foo/bar"));
    discover(&mut repository, Operation::Download, "baz", false).unwrap();
    let asked: Vec<String> = repository.asked.iter().map(|a| a.join(" ")).collect();
    assert_eq!(
        asked,
        vec![
            "rev-parse --show-toplevel",
            "config --file /work/tree/.lfsconfig remote.baz.lfsurl",
            "config --file /work/tree/.lfsconfig lfs.url",
            "config remote.baz.lfsurl",
            "config lfs.url",
            "remote get-url baz",
            "config --get-urlmatch http.extraheader https://git-server.com/foo/bar",
        ]
    );
}

#[test]
fn file_in_the_tree_comes_before_the_configuration() {
    let mut repository = init(false, false);
    repository.lfsconfig.push(("lfs.url", "https://first.example/a"));
    repository.config.push(("remote.baz.lfsurl", "https://second.example/b"));
    repository.remotes.push(("baz", "https://third.example/c"));
    let response = discover(&mut repository, Operation::Download, "baz", false).unwrap();
    assert_eq!(response.href.as_ref(), "https://first.example/a");
}

#[test]
fn search_outside_a_tree_skips_the_file() {
    let mut repository = init(false, false);
    repository.toplevel = None;
    repository.config.push(("remote.baz.lfsurl", "https://second.example/b"));
    let response = discover(&mut repository, Operation::Download, "baz", false).unwrap();
    assert_eq!(response.href.as_ref(), "https://second.example/b");
    assert_eq!(repository.asked[1], vec!["config", "remote.baz.lfsurl"]);
}

#[test]
fn name_of_the_remote_is_read_as_an_address() {
    let mut repository = init(false, false);
    let response = discover(
        &mut repository,
        Operation::Download,
        "https://git-server.com/foo/bar",
        false,
    )
    .unwrap();
    assert_eq!(response.href.as_ref(), "https://git-server.com/foo/bar.git/info/lfs");
}

#[test]
fn unknown_scheme_ends_the_search() {
    let mut repository = init(false, false);
    repository.remotes.push(("baz", "ftp://git-server.com/foo/bar"));
    match discover(&mut repository, Operation::Download, "baz", false) {
        Err(Failure::Other(m)) => assert_eq!(m, "unknown scheme"),
        other => panic!("{other:?}"),
    }
}

#[test]
fn remote_that_is_no_address_fails() {
    let mut repository = init(false, false);
    assert!(matches!(
        discover(&mut repository, Operation::Download, "baz", false),
        Err(Failure::Other(_))
    ));
}

#[test]
fn ended_search_answers_no_more() {
    let mut repository = init(false, false);
    repository.remotes.push(("baz", "ssh://git-server.com/foo/bar.git"));
    let mut search = Discovery::new(Operation::Download, "baz".to_string(), false, None);
    let mut answer = Answer::Begin;
    loop {
        match search.step(answer) {
            Query::Git { args, input } => {
                answer = Answer::Output(repository.answer(&args, input.as_ref()));
            }
            Query::Done(r) => {
                assert!(r.is_ok());
                break;
            }
            Query::Ssh { .. } => panic!(),
        }
    }
    match search.step(Answer::Begin) {
        Query::Done(Err(Failure::Other(m))) => assert_eq!(m, "search has ended"),
        other => panic!("{other:?}"),
    }
    let mut fresh = Discovery::new(Operation::Download, "baz".to_string(), false, None);
    match fresh.step(Answer::Output(Ok(Vec::new()))) {
        Query::Done(Err(Failure::Other(m))) => assert_eq!(m, "unexpected answer"),
        other => panic!("{other:?}"),
    }
}

#[test]
fn suffix_is_stripped_once() {
    let href = lfs_href(Url::parse("https://git-server.com/foo/bar.git.git").unwrap()).unwrap();
    assert_eq!(href.as_ref(), "https://git-server.com/foo/bar.git.git/info/lfs");
    let href = lfs_href(Url::parse("https://git-server.com/foo/bar/").unwrap()).unwrap();
    assert_eq!(href.as_ref(), "https://git-server.com/foo/bar/.git/info/lfs");
    match lfs_href(Url::parse("mailto:someone@example.com").unwrap()) {
        Err(Failure::Other(m)) => assert_eq!(m, "cannot be base"),
        other => panic!("{other:?}"),
    }
}

#[test]
fn secure_shell_address_keeps_host_port_and_path() {
    let url = Url::parse("ssh://git@git-server.com:2222/foo/bar").unwrap();
    let href = ssh_href(&url).unwrap();
    assert_eq!(href.as_ref(), "https://git-server.com:2222/foo/bar.git/info/lfs");
    let (program, args) = ssh_command(&None, &url, Operation::Download).unwrap();
    assert_eq!(program, "ssh");
    assert_eq!(
        args,
        vec![
            "-l",
            "git",
            "-p",
            "2222",
            "git-server.com",
            "git-lfs-authenticate",
            "/foo/bar",
            "download"
        ]
    );
    match ssh_command(&Some(String::new()), &url, Operation::Download) {
        Err(Failure::Other(m)) => assert_eq!(m, "missing program"),
        other => panic!("{other:?}"),
    }
    match ssh_command(&None, &Url::parse("ssh:/foo").unwrap(), Operation::Upload) {
        Err(Failure::Other(m)) => assert_eq!(m, "missing host"),
        other => panic!("{other:?}"),
    }
}

#[test]
fn extra_header_lines_become_fields() {
    let lines = vec![
        "X-One:  1 ".to_string(),
        "no colon".to_string(),
        "bad name: 2".to_string(),
        "X-Two: a:b".to_string(),
        "X-Three: bad\u{7f}value".to_string(),
    ];
    let fields: Vec<(String, String)> =
        extra_headers(&lines).into_iter().map(|f| (f.name, f.value)).collect();
    assert_eq!(
        fields,
        vec![("x-one".to_string(), "1".to_string()), ("x-two".to_string(), "a:b".to_string())]
    );
}

#[test]
fn configured_address_is_asked_for_by_its_key() {
    assert_eq!(custom_configuration(None, "origin", false), vec!["config", "remote.origin.lfsurl"]);
    assert_eq!(custom_configuration(None, "origin", true), vec!["config", "lfs.url"]);
    assert_eq!(
        custom_configuration(Some("/a/.lfsconfig".to_string()), "origin", true),
        vec!["config", "--file", "/a/.lfsconfig", "lfs.url"]
    );
}
