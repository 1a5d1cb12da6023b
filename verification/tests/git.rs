use git_lfs_cache::git::{
    config, config_output, credential_fill, credential_fill_command, credential_fill_output,
    parse_url, remote_get_url, remote_get_url_output, rev_parse_absolute_git_dir,
    rev_parse_output, rev_parse_show_toplevel, Location,
};
use git_lfs_cache::git_lfs::server_discovery::{Answer, Discovery, Query};
use git_lfs_cache::git_lfs::Operation;
use git_lfs_cache::misc::Failure;
use url::Url;

fn words(args: &[&str]) -> Vec<String> {
    args.iter().map(|a| a.to_string()).collect()
}

#[test]
fn query_names_its_file() {
    assert_eq!(config(&Location::default(), words(&["lfs.url"])), words(&["config", "lfs.url"]));
    let all = Location {
        system: true,
        global: true,
        local: true,
        worktree: true,
        file: Some("f".to_string()),
    };
    assert_eq!(
        config(&all, words(&["a", "b"])),
        words(&["config", "--system", "--global", "--local", "--worktree", "--file", "f", "a", "b"])
    );
    let global = Location { global: true, ..Location::default() };
    assert_eq!(config(&global, Vec::new()), words(&["config", "--global"]));
    let copy = all.clone();
    assert_eq!(copy.file.as_deref(), Some("f"));
    assert!(copy.system && copy.global && copy.local && copy.worktree);
    assert_eq!(Location::file(Some("x".to_string())).file.as_deref(), Some("x"));
}

#[test]
fn answers_are_read_line_by_line() {
    assert_eq!(config_output(b"a\nb\r\n\nc".to_vec()).unwrap(), words(&["a", "b", "", "c"]));
    assert!(config_output(Vec::new()).unwrap().is_empty());
    match config_output(vec![0xff, 0xfe]) {
        Err(Failure::Other(m)) => assert_eq!(m, "invalid utf-8"),
        other => panic!("{other:?}"),
    }
}

#[test]
fn helper_is_told_protocol_host_and_path() {
    let url = Url::parse("https://user@git-server.com:8443//foo/bar.git?x=1").unwrap();
    assert_eq!(
        credential_fill(&url),
        "protocol=https\nhost=user@git-server.com:8443\npath=foo/bar.git\n"
    );
    assert_eq!(credential_fill_command(), words(&["credential", "fill"]));
}

fn password(stdout: &[u8]) -> Option<String> {
    let mut search = Discovery::new(Operation::Download, "https://h.example/r".to_string(), true, None);
    let mut answer = Answer::Begin;
    loop {
        match search.step(answer) {
            Query::Git { args, .. } if args[0] == "credential" => {
                answer = Answer::Output(Ok(stdout.to_vec()));
            }
            Query::Git { .. } => answer = Answer::Output(Err(Failure::other("none"))),
            Query::Done(r) => {
                return r.unwrap().header.into_iter().map(|f| f.value).next();
            }
            Query::Ssh { .. } => panic!(),
        }
    }
}

#[test]
fn helper_answers_with_keys_and_values() {
    let credential =
        credential_fill_output(b"protocol=https\nusername=a\npassword=b=c\nusername=corge\n".to_vec())
            .unwrap();
    assert_eq!(credential.username.as_deref(), Some("corge"));
    assert!(credential.password.is_some());
    let field = credential.basic().unwrap();
    assert_eq!((field.name.as_str(), field.value.as_str()), ("authorization", "Basic Y29yZ2U6Yj1j"));
    let credential = credential_fill_output(b"host=h\nnoise\n".to_vec()).unwrap();
    assert!(credential.username.is_none());
    assert!(credential.password.is_none());
    assert!(credential.basic().is_none());
    assert!(matches!(credential_fill_output(vec![0x80]), Err(Failure::Other(_))));
    assert_eq!(password(b"username=a\npassword=b=c\n").as_deref(), Some("Basic YTpiPWM="));
    assert_eq!(password(b"username=a\n"), None);
}

#[test]
fn addresses_are_parsed_with_the_short_form_of_a_secure_shell() {
    assert_eq!(parse_url("https://git-server.com/foo").unwrap().as_ref(), "https://git-server.com/foo");
    assert_eq!(
        parse_url("git@git-server.com:foo/bar.git").unwrap().as_ref(),
        "ssh://git@git-server.com/foo/bar.git"
    );
    assert!(matches!(parse_url("baz"), Err(Failure::Other(_))));
    assert!(matches!(parse_url(""), Err(Failure::Other(_))));
}

#[test]
fn remote_is_asked_for_its_address() {
    assert_eq!(remote_get_url("origin"), words(&["remote", "get-url", "origin"]));
    assert_eq!(
        remote_get_url_output(b" https://git-server.com/foo \n".to_vec()).unwrap().as_ref(),
        "https://git-server.com/foo"
    );
    assert!(matches!(remote_get_url_output(b"\n".to_vec()), Err(Failure::Other(_))));
    assert!(matches!(remote_get_url_output(vec![0xc0]), Err(Failure::Other(_))));
}

#[test]
fn directories_are_asked_for_and_trimmed() {
    assert_eq!(rev_parse_absolute_git_dir(), words(&["rev-parse", "--absolute-git-dir"]));
    assert_eq!(rev_parse_show_toplevel(), words(&["rev-parse", "--show-toplevel"]));
    assert_eq!(rev_parse_output(b"/repo/.git\n".to_vec()).unwrap(), "/repo/.git");
    assert!(rev_parse_output(vec![0xff]).is_err());
}
