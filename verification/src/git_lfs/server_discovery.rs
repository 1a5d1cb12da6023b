//! Finding the endpoint of the large-file server for a remote. The search
//! asks the version-control program a series of questions; this module
//! names each question and reads each answer, and its caller runs the
//! program.

use crate::git::{
    config, config_output, credential_fill, credential_fill_command, credential_fill_output,
    credential_input, last_value, location_flags, parse_url, remote_get_url,
    remote_get_url_output, rev_parse_output, rev_parse_show_toplevel, url_of, Location,
};
use crate::git_lfs::Operation;
use crate::misc::{
    path_segments_mut, path_set, port_set, segment_pushed, text_of, with_path, with_port, Failure,
};
use crate::shell::{shell_words, split as shell_split};
use crate::text::{
    bytes_of, concat, decimal, decimal_of, equal, first_index, join_path, joined_path, lines_of,
    split_once, strip_suffix, trim, trimmed, without_suffix,
};
use crate::web::{
    basic_authorization, contains_field, has_field, header_name, host_str, is_header_value,
    normal_header_name, path, port, scheme, url_as_string, url_host, url_parse, url_parsed,
    url_path, url_port, url_scheme, url_text, url_username, username, valid_header_value, Field,
    AUTHORIZATION,
};
use vstd::prelude::*;

verus! {

/// The endpoint of the large-file server: its address, and the fields that
/// every request to it carries.
#[derive(Debug)]
pub struct Response {
    pub href: ::url::Url,
    pub header: Vec<Field>,
}

/// The name and the value of each of `fields`.
pub open spec fn pairs(fields: Seq<Field>) -> Seq<(Seq<char>, Seq<char>)> {
    Seq::new(fields.len(), |i: int| (fields[i].name@, fields[i].value@))
}

/// The key of the configuration that names the server: the one of the
/// remote `remote`, or the general one.
pub open spec fn key_of(remote: Seq<char>, general: bool) -> Seq<char> {
    if general {
        "lfs.url"@
    } else {
        "remote."@ + remote + ".lfsurl"@
    }
}

/// The arguments of the query for a configured address of the server, in
/// the file `file` or in the configuration at large.
pub open spec fn custom_query(file: Option<String>, remote: Seq<char>, general: bool) -> Seq<
    Seq<char>,
> {
    seq!["config"@] + location_flags(Location::of(file)) + seq![key_of(remote, general)]
}

/// The arguments of the query for a configured address of the server.
pub fn custom_configuration(file: Option<String>, remote: &str, general: bool) -> (r: Vec<String>)
    ensures
        r.deep_view() == custom_query(file, remote@, general),
{
    let key = if general {
        "lfs.url".to_owned()
    } else {
        let mut key = concat("remote.", remote);
        key.append(".lfsurl");
        key
    };
    let mut args: Vec<String> = Vec::new();
    args.push(key);
    assert(args.deep_view() =~= seq![key_of(remote@, general)]);
    config(&Location::file(file), args)
}

/// The address that the answer to a query for a configured address holds:
/// the answer is one line, and the line names an address.
pub open spec fn custom_url(stdout: Seq<u8>) -> Option<Seq<char>> {
    match text_of(stdout) {
        Some(t) => if lines_of(t).len() == 1 {
            url_of(lines_of(t)[0])
        } else {
            None
        },
        None => None,
    }
}

/// The address that the answer to a query for a configured address holds.
pub fn custom_configuration_output(stdout: Vec<u8>) -> (r: Option<::url::Url>)
    ensures
        r is Some <==> custom_url(stdout@) is Some,
        r matches Some(u) ==> custom_url(stdout@) == Some(url_text(u)),
{
    match config_output(stdout) {
        Ok(lines) => {
            if lines.len() != 1 {
                return None;
            }
            assert(lines.deep_view()[0] == lines@[0]@);
            match parse_url(lines[0].as_str()) {
                Ok(url) => Some(url),
                Err(_) => None,
            }
        },
        Err(_) => None,
    }
}

/// The field that a line of the configured extra header names: a name and
/// a value with a colon between them, each without the white space around
/// it. `None` where the line has no colon or where the name or the value
/// cannot stand in a header.
pub open spec fn field_of(line: Seq<char>) -> Option<(Seq<char>, Seq<char>)> {
    if line.contains(':') {
        let i = first_index(line, ':');
        let value = trimmed(line.skip(i + 1));
        match header_name(trimmed(line.take(i))) {
            Some(name) => if is_header_value(bytes_of(value)) {
                Some((name, value))
            } else {
                None
            },
            None => None,
        }
    } else {
        None
    }
}

/// The fields that `lines` name, in their order.
pub open spec fn fields_of(lines: Seq<Seq<char>>) -> Seq<(Seq<char>, Seq<char>)>
    decreases lines.len(),
{
    if lines.len() == 0 {
        Seq::empty()
    } else {
        match field_of(lines.last()) {
            Some(f) => fields_of(lines.drop_last()).push(f),
            None => fields_of(lines.drop_last()),
        }
    }
}

/// The fields that the answer to the query for the extra header holds, and
/// none where there is no answer or it cannot be read.
pub open spec fn extra_fields(answer: Result<Vec<u8>, Failure>) -> Seq<(Seq<char>, Seq<char>)> {
    match answer {
        Ok(stdout) => match text_of(stdout@) {
            Some(t) => fields_of(lines_of(t)),
            None => Seq::empty(),
        },
        Err(_) => Seq::empty(),
    }
}

/// The fields that the lines of the configured extra header name.
pub fn extra_headers(lines: &Vec<String>) -> (r: Vec<Field>)
    ensures
        pairs(r@) == fields_of(lines.deep_view()),
{
    let mut r: Vec<Field> = Vec::new();
    let mut i: usize = 0;
    assert(lines.deep_view().take(0) =~= Seq::<Seq<char>>::empty());
    assert(pairs(r@) =~= Seq::<(Seq<char>, Seq<char>)>::empty());
    while i < lines.len()
        invariant
            i <= lines.len(),
            pairs(r@) == fields_of(lines.deep_view().take(i as int)),
        decreases lines.len() - i,
    {
        proof {
            let next = lines.deep_view().take(i + 1);
            assert(next.drop_last() =~= lines.deep_view().take(i as int));
            assert(next.last() == lines@[i as int]@);
        }
        let ghost before = pairs(r@);
        match split_once(lines[i].as_str(), ':') {
            Some((name, value)) => {
                let value = trim(value);
                match normal_header_name(trim(name)) {
                    Some(name) => {
                        if valid_header_value(value) {
                            r.push(Field { name, value: value.to_owned() });
                            assert(pairs(r@) =~= before.push((name@, value@)));
                        }
                    },
                    None => {},
                }
            },
            None => {},
        }
        i += 1;
    }
    assert(lines.deep_view().take(lines.len() as int) =~= lines.deep_view());
    r
}

/// The arguments of the query for the extra header that is configured for
/// the address `text`.
pub open spec fn extra_header_query(text: Seq<char>) -> Seq<Seq<char>> {
    seq!["config"@, "--get-urlmatch"@, "http.extraheader"@, text]
}

/// The arguments of the query for the extra header that is configured for
/// `url`.
pub fn extra_header_command(url: &::url::Url) -> (r: Vec<String>)
    ensures
        r.deep_view() == extra_header_query(url_text(*url)),
{
    let mut args: Vec<String> = Vec::new();
    args.push("--get-urlmatch".to_owned());
    args.push("http.extraheader".to_owned());
    args.push(url_as_string(url));
    assert(args.deep_view() =~= seq!["--get-urlmatch"@, "http.extraheader"@, url_text(*url)]);
    let r = config(&Location::default(), args);
    assert(r.deep_view() =~= extra_header_query(url_text(*url)));
    r
}

/// The serialization of the endpoint that the address `text` of a
/// repository leads to: its path ends with `.git`, added unless it is there,
/// and goes on with `info` and `lfs`.
pub open spec fn href_of(text: Seq<char>) -> Result<Seq<char>, Seq<char>> {
    match path_set(text, without_suffix(url_path(text), ".git"@) + ".git"@) {
        Ok(a) => match segment_pushed(a, "info"@) {
            Ok(b) => segment_pushed(b, "lfs"@),
            Err(m) => Err(m),
        },
        Err(m) => Err(m),
    }
}

/// The endpoint that the address `url` of a repository leads to.
pub fn lfs_href(url: ::url::Url) -> (r: Result<::url::Url, Failure>)
    ensures
        match href_of(url_text(url)) {
            Ok(t) => r matches Ok(u) && url_text(u) == t,
            Err(m) => r matches Err(Failure::Other(x)) && x@ == m,
        },
{
    let mut href = url;
    let whole = path(&href);
    let mut git = strip_suffix(whole.as_str(), ".git").to_owned();
    git.append(".git");
    match with_path(&mut href, git.as_str()) {
        Ok(()) => {},
        Err(f) => {
            return Err(f);
        },
    }
    match path_segments_mut(&mut href, "info") {
        Ok(()) => {},
        Err(f) => {
            return Err(f);
        },
    }
    match path_segments_mut(&mut href, "lfs") {
        Ok(()) => Ok(href),
        Err(f) => Err(f),
    }
}

/// The serialization of the endpoint that the address `text` of a
/// repository behind a secure shell leads to: the same host, port and path
/// over HTTPS.
pub open spec fn ssh_href_of(text: Seq<char>) -> Result<Seq<char>, Seq<char>> {
    match url_host(text) {
        None => Err("missing host"@),
        Some(host) => match url_parsed("https://"@ + host) {
            None => Err("invalid host"@),
            Some(a) => match port_set(a, url_port(text)) {
                Err(m) => Err(m),
                Ok(b) => match path_set(b, url_path(text)) {
                    Err(m) => Err(m),
                    Ok(c) => href_of(c),
                },
            },
        },
    }
}

/// The endpoint that the address `url` of a repository behind a secure
/// shell leads to.
pub fn ssh_href(url: &::url::Url) -> (r: Result<::url::Url, Failure>)
    ensures
        match ssh_href_of(url_text(*url)) {
            Ok(t) => r matches Ok(u) && url_text(u) == t,
            Err(m) => r matches Err(Failure::Other(x)) && x@ == m,
        },
{
    let host = match host_str(url) {
        Some(host) => host,
        None => {
            return Err(Failure::other("missing host"));
        },
    };
    let text = concat("https://", host.as_str());
    let mut href = match url_parse(text.as_str()) {
        Ok(href) => href,
        Err(_) => {
            return Err(Failure::other("invalid host"));
        },
    };
    match with_port(&mut href, port(url)) {
        Ok(()) => {},
        Err(f) => {
            return Err(f);
        },
    }
    let whole = path(url);
    match with_path(&mut href, whole.as_str()) {
        Ok(()) => {},
        Err(f) => {
            return Err(f);
        },
    }
    lfs_href(href)
}

/// The arguments that follow the program of the secure shell: the rest of
/// the configured command line, the user and the port where the address
/// names them, the host, and the request to authenticate for the path and
/// the operation.
pub open spec fn ssh_arguments(
    words: Seq<Seq<char>>,
    text: Seq<char>,
    host: Seq<char>,
    operation: Operation,
) -> Seq<Seq<char>> {
    words.skip(1) + (if url_username(text).len() > 0 {
        seq!["-l"@, url_username(text)]
    } else {
        Seq::empty()
    }) + (match url_port(text) {
        Some(p) => seq!["-p"@, decimal_of(p as nat)],
        None => Seq::empty(),
    }) + seq![
        host,
        "git-lfs-authenticate"@,
        url_path(text),
        match operation {
            Operation::Upload => "upload"@,
            Operation::Download => "download"@,
        },
    ]
}

/// The command line of the secure shell: the configured one, or the word
/// `ssh` where none is configured.
pub open spec fn ssh_line(ssh_command: Option<String>) -> Seq<char> {
    match ssh_command {
        Some(line) => line@,
        None => "ssh"@,
    }
}

/// Whether `r` is the command that asks the server behind a secure shell
/// for the endpoint: the program and its arguments, or a failure where the
/// configured command line is empty or the address names no host.
pub open spec fn ssh_commands(
    ssh_command: Option<String>,
    text: Seq<char>,
    operation: Operation,
    r: Result<(String, Vec<String>), Failure>,
) -> bool {
    let words = shell_words(ssh_line(ssh_command));
    if words.len() == 0 {
        r matches Err(Failure::Other(m)) && m@ == "missing program"@
    } else {
        match url_host(text) {
            None => r matches Err(Failure::Other(m)) && m@ == "missing host"@,
            Some(host) => r matches Ok((program, args)) && program@ == words[0]
                && args.deep_view() == ssh_arguments(words, text, host, operation),
        }
    }
}

/// The command that asks the server behind a secure shell for the
/// endpoint.
pub fn ssh_command(configured: &Option<String>, url: &::url::Url, operation: Operation) -> (r:
    Result<(String, Vec<String>), Failure>)
    ensures
        ssh_commands(*configured, url_text(*url), operation, r),
{
    let mut words = match configured {
        Some(line) => shell_split(line.as_str()),
        None => shell_split("ssh"),
    };
    let ghost all = words.deep_view();
    if words.len() == 0 {
        return Err(Failure::other("missing program"));
    }
    let program = words.remove(0);
    assert(words.deep_view() =~= all.skip(1));
    let mut args = words;
    let user = username(url);
    if user.as_str().unicode_len() > 0 {
        args.push("-l".to_owned());
        args.push(user);
    }
    let ghost with_user = args.deep_view();
    assert(with_user =~= all.skip(1) + (if url_username(url_text(*url)).len() > 0 {
        seq!["-l"@, url_username(url_text(*url))]
    } else {
        Seq::empty()
    }));
    match port(url) {
        Some(p) => {
            args.push("-p".to_owned());
            args.push(decimal(p as u64));
        },
        None => {},
    }
    let ghost with_port = args.deep_view();
    assert(with_port =~= with_user + (match url_port(url_text(*url)) {
        Some(p) => seq!["-p"@, decimal_of(p as nat)],
        None => Seq::empty(),
    }));
    let host = match host_str(url) {
        Some(host) => host,
        None => {
            return Err(Failure::other("missing host"));
        },
    };
    args.push(host);
    args.push("git-lfs-authenticate".to_owned());
    args.push(path(url));
    args.push(operation.name().to_owned());
    assert(args.deep_view() =~= ssh_arguments(all, url_text(*url), host@, operation));
    Ok((program, args))
}

/// How far a search has come.
#[derive(Debug)]
pub enum Stage {
    /// Nothing was asked yet.
    Start,
    /// The top directory of the working tree was asked for.
    Toplevel,
    /// A configured address was asked for: in `file`, or in the
    /// configuration at large; under the key of the remote, or under the
    /// general key.
    Custom { file: Option<String>, general: bool },
    /// The address of the remote was asked for.
    Remote,
    /// The extra header was asked for.
    ExtraHeader,
    /// The credential helper was asked.
    Credential,
    /// The server behind the secure shell was asked.
    Authenticate,
    /// The search has ended.
    Done,
}

/// What came of the question.
#[derive(Debug)]
pub enum Answer {
    /// The search begins.
    Begin,
    /// What the program printed, or why it failed.
    Output(Result<Vec<u8>, Failure>),
    /// The endpoint that the server behind the secure shell named.
    Endpoint(Result<Response, Failure>),
}

/// What the caller is to do next.
#[derive(Debug)]
pub enum Query {
    /// Run the version-control program with these arguments and this input.
    Git { args: Vec<String>, input: Option<String> },
    /// Run this program with these arguments, and read what it prints as an
    /// endpoint.
    Ssh { program: String, args: Vec<String> },
    /// Nothing more: this is the result of the search.
    Done(Result<Response, Failure>),
}

/// A search for the endpoint of the server.
#[derive(Debug)]
pub struct Discovery {
    pub operation: Operation,
    pub remote: String,
    pub authorization: bool,
    /// The configured command line of the secure shell.
    pub ssh_command: Option<String>,
    pub stage: Stage,
    /// The address that the search settled on, once it did.
    pub url: Option<::url::Url>,
    /// Whether that address was configured as the address of the server.
    pub custom: bool,
    /// The fields found so far.
    pub header: Vec<Field>,
}

/// Whether `query` runs the version-control program with `args` and `input`.
pub open spec fn asks(query: Query, args: Seq<Seq<char>>, input: Option<Seq<char>>) -> bool {
    query matches Query::Git { args: a, input: i } && a.deep_view() == args && (match input {
        Some(t) => i matches Some(s) && s@ == t,
        None => i is None,
    })
}

/// Whether `query` ends the search with the failure text `m`.
pub open spec fn refuses(query: Query, m: Seq<char>) -> bool {
    query matches Query::Done(Err(Failure::Other(x))) && x@ == m
}

/// Whether `query` ends the search with the endpoint at `href` with the
/// fields `fields`.
pub open spec fn finds(query: Query, href: Seq<char>, fields: Seq<(Seq<char>, Seq<char>)>) -> bool {
    query matches Query::Done(Ok(found)) && url_text(found.href) == href && pairs(found.header@)
        == fields
}

impl Discovery {
    /// A search that has not begun.
    pub fn new(
        operation: Operation,
        remote: String,
        authorization: bool,
        ssh_command: Option<String>,
    ) -> (r: Discovery)
        ensures
            r.operation == operation,
            r.remote == remote,
            r.authorization == authorization,
            r.ssh_command == ssh_command,
            r.stage is Start,
            r.url is None,
            !r.custom,
            r.header@.len() == 0,
    {
        Discovery {
            operation,
            remote,
            authorization,
            ssh_command,
            stage: Stage::Start,
            url: None,
            custom: false,
            header: Vec::new(),
        }
    }

    /// What stays the same through the whole search.
    pub open spec fn same_task(&self, post: Discovery) -> bool {
        &&& post.operation == self.operation
        &&& post.remote == self.remote
        &&& post.authorization == self.authorization
        &&& post.ssh_command == self.ssh_command
    }

    /// Whether the search ended as `query` says, with a failure `m` or with
    /// the endpoint at `href`.
    pub open spec fn ends(
        &self,
        post: Discovery,
        query: Query,
        r: Result<Seq<char>, Seq<char>>,
        fields: Seq<(Seq<char>, Seq<char>)>,
    ) -> bool {
        &&& post.stage is Done
        &&& match r {
            Ok(href) => finds(query, href, fields),
            Err(m) => refuses(query, m),
        }
    }

    /// Whether `post` and `query` ask for a configured address: in `file`,
    /// or in the configuration at large.
    pub open spec fn asks_custom(
        &self,
        post: Discovery,
        query: Query,
        file: Option<Seq<char>>,
        general: bool,
    ) -> bool {
        &&& post.stage matches Stage::Custom { file: f, general: g }
        &&& g == general
        &&& match file {
            Some(t) => f matches Some(s) && s@ == t,
            None => f is None,
        }
        &&& asks(query, custom_query(f, self.remote@, general), None)
        &&& pairs(post.header@) == pairs(self.header@)
    }

    /// Whether `post` and `query` ask for the address of the remote.
    pub open spec fn asks_remote(&self, post: Discovery, query: Query) -> bool {
        &&& post.stage is Remote
        &&& asks(query, seq!["remote"@, "get-url"@, self.remote@], None)
        &&& pairs(post.header@) == pairs(self.header@)
    }

    /// Whether `post` and `query` go on to the next place where an address
    /// may be configured after the one in the `Custom` stage of `self`
    /// gave none: the configuration at large after a file, and the address
    /// of the remote after the configuration at large.
    pub open spec fn moves_on(&self, post: Discovery, query: Query) -> bool {
        match self.stage {
            Stage::Custom { file: Some(_), .. } => self.asks_custom(post, query, None, false),
            _ => self.asks_remote(post, query),
        }
    }

    /// Whether `post` and `query` are how the search goes on with the
    /// address `text`, which was configured as the address of the server
    /// if `custom` is set. An address over HTTP asks for the extra header.
    /// One over a secure shell asks the server where credentials are wanted,
    /// and else leads to the endpoint by its form alone. Any other scheme
    /// ends the search.
    pub open spec fn settles(&self, post: Discovery, query: Query, text: Seq<char>, custom: bool) -> bool {
        let s = url_scheme(text);
        if s == "http"@ || s == "https"@ {
            &&& post.stage is ExtraHeader
            &&& post.url matches Some(u)
            &&& url_text(u) == text
            &&& post.custom == custom
            &&& asks(query, extra_header_query(text), None)
        } else if s == "ssh"@ {
            if self.authorization {
                exists|r: Result<(String, Vec<String>), Failure>|
                    {
                        &&& #[trigger] ssh_commands(self.ssh_command, text, self.operation, r)
                        &&& match r {
                            Ok((program, args)) => {
                                &&& post.stage is Authenticate
                                &&& query matches Query::Ssh { program: p, args: a }
                                &&& p@ == program@
                                &&& a.deep_view() == args.deep_view()
                            },
                            Err(Failure::Other(m)) => post.stage is Done && refuses(query, m@),
                            Err(_) => false,
                        }
                    }
            } else if custom {
                self.ends(post, query, Ok(text), Seq::empty())
            } else {
                self.ends(post, query, ssh_href_of(text), Seq::empty())
            }
        } else {
            self.ends(post, query, Err("unknown scheme"@), Seq::empty())
        }
    }

    /// Whether `post` and `query` are how the search goes on when the
    /// remote has no address of its own: with the name of the remote read
    /// as an address, and with a failure where it is none.
    pub open spec fn falls_back(&self, post: Discovery, query: Query) -> bool {
        match url_of(self.remote@) {
            Some(text) => self.settles(post, query, text, false),
            None => post.stage is Done && query matches Query::Done(Err(Failure::Other(_))),
        }
    }

    /// Whether `post` and `query` end a search over HTTP with the fields
    /// `fields`: at the address itself where it was configured, else at the
    /// endpoint that it leads to.
    pub open spec fn finishes(
        &self,
        post: Discovery,
        query: Query,
        fields: Seq<(Seq<char>, Seq<char>)>,
    ) -> bool {
        match self.url {
            Some(u) => if self.custom {
                self.ends(post, query, Ok(url_text(u)), fields)
            } else {
                self.ends(post, query, href_of(url_text(u)), fields)
            },
            None => self.ends(post, query, Err("missing address"@), fields),
        }
    }

    /// The fields after the credential helper answered: with both a user
    /// name and a password, a field that authorizes by them follows the
    /// fields found before.
    pub open spec fn with_credential(
        fields: Seq<(Seq<char>, Seq<char>)>,
        answer: Result<Vec<u8>, Failure>,
    ) -> Seq<(Seq<char>, Seq<char>)> {
        match answer {
            Ok(stdout) => match text_of(stdout@) {
                Some(t) => match (
                    last_value(lines_of(t), "username"@),
                    last_value(lines_of(t), "password"@),
                ) {
                    (Some(u), Some(p)) => fields.push((AUTHORIZATION@, basic_authorization(u, p))),
                    _ => fields,
                },
                None => fields,
            },
            Err(_) => fields,
        }
    }

    /// The step relation of a search: whether, from `self`, the answer
    /// `answer` leads to `post` and the question `query`.
    pub open spec fn steps(&self, answer: Answer, post: Discovery, query: Query) -> bool {
        &&& self.same_task(post)
        &&& match (self.stage, answer) {
            (Stage::Start, Answer::Begin) => {
                &&& post.stage is Toplevel
                &&& post.url == self.url
                &&& post.custom == self.custom
                &&& post.header == self.header
                &&& asks(query, seq!["rev-parse"@, "--show-toplevel"@], None)
            },
            (Stage::Toplevel, Answer::Output(Ok(stdout))) => match text_of(stdout@) {
                Some(t) => self.asks_custom(
                    post,
                    query,
                    Some(joined_path(trimmed(t), ".lfsconfig"@)),
                    false,
                ),
                None => self.asks_custom(post, query, None, false),
            },
            (Stage::Toplevel, Answer::Output(Err(_))) => self.asks_custom(post, query, None, false),
            (Stage::Custom { file, general }, Answer::Output(Ok(stdout))) => match custom_url(
                stdout@,
            ) {
                Some(text) => self.settles(post, query, text, true),
                None => self.moves_on(post, query),
            },
            (Stage::Custom { file, general }, Answer::Output(Err(_))) => if general {
                self.moves_on(post, query)
            } else {
                self.asks_custom(
                    post,
                    query,
                    match file {
                        Some(f) => Some(f@),
                        None => None,
                    },
                    true,
                )
            },
            (Stage::Remote, Answer::Output(Ok(stdout))) => match text_of(stdout@) {
                Some(t) => match url_of(trimmed(t)) {
                    Some(text) => self.settles(post, query, text, false),
                    None => self.falls_back(post, query),
                },
                None => self.falls_back(post, query),
            },
            (Stage::Remote, Answer::Output(Err(_))) => self.falls_back(post, query),
            (Stage::ExtraHeader, Answer::Output(found)) => {
                let fields = extra_fields(found);
                if self.authorization && !(exists|i: int|
                    0 <= i < fields.len() && (#[trigger] fields[i]).0 == AUTHORIZATION@)
                    && self.url is Some {
                    &&& post.stage is Credential
                    &&& post.url == self.url
                    &&& post.custom == self.custom
                    &&& pairs(post.header@) == fields
                    &&& asks(
                        query,
                        seq!["credential"@, "fill"@],
                        Some(credential_input(url_text(self.url->0))),
                    )
                } else {
                    self.finishes(post, query, fields)
                }
            },
            (Stage::Credential, Answer::Output(found)) => self.finishes(
                post,
                query,
                Discovery::with_credential(pairs(self.header@), found),
            ),
            (Stage::Authenticate, Answer::Endpoint(found)) => {
                &&& post.stage is Done
                &&& query == Query::Done(found)
            },
            (Stage::Done, _) => {
                &&& post.stage is Done
                &&& refuses(query, "search has ended"@)
            },
            _ => {
                &&& post.stage is Done
                &&& refuses(query, "unexpected answer"@)
            },
        }
    }

    fn end(&mut self, r: Result<::url::Url, Failure>, header: Vec<Field>) -> (q: Query)
        ensures
            old(self).same_task(*final(self)),
            final(self).stage is Done,
            match r {
                Ok(u) => finds(q, url_text(u), pairs(header@)),
                Err(Failure::Other(m)) => refuses(q, m@),
                Err(f) => q == Query::Done(Err(f)),
            },
    {
        self.stage = Stage::Done;
        match r {
            Ok(href) => Query::Done(Ok(Response { href, header })),
            Err(f) => Query::Done(Err(f)),
        }
    }

    fn ask_custom(&mut self, file: Option<String>, general: bool) -> (q: Query)
        ensures
            old(self).same_task(*final(self)),
            old(self).asks_custom(
                *final(self),
                q,
                match file {
                    Some(f) => Some(f@),
                    None => None,
                },
                general,
            ),
    {
        let copy = match &file {
            Some(f) => Some(f.clone()),
            None => None,
        };
        let args = custom_configuration(copy, self.remote.as_str(), general);
        proof {
            assert(location_flags(Location::of(copy)) =~= location_flags(Location::of(file)));
        }
        self.stage = Stage::Custom { file, general };
        Query::Git { args, input: None }
    }

    fn ask_remote(&mut self) -> (q: Query)
        ensures
            old(self).same_task(*final(self)),
            old(self).asks_remote(*final(self), q),
    {
        self.stage = Stage::Remote;
        Query::Git { args: remote_get_url(self.remote.as_str()), input: None }
    }

    fn move_on(&mut self) -> (q: Query)
        ensures
            old(self).same_task(*final(self)),
            old(self).moves_on(*final(self), q),
    {
        let after_file = match &self.stage {
            Stage::Custom { file: Some(_), general: _ } => true,
            _ => false,
        };
        if after_file {
            self.ask_custom(None, false)
        } else {
            self.ask_remote()
        }
    }

    fn settle(&mut self, url: ::url::Url, custom: bool) -> (q: Query)
        ensures
            old(self).same_task(*final(self)),
            old(self).settles(*final(self), q, url_text(url), custom),
    {
        let s = scheme(&url);
        if equal(s.as_str(), "http") || equal(s.as_str(), "https") {
            let args = extra_header_command(&url);
            self.stage = Stage::ExtraHeader;
            self.url = Some(url);
            self.custom = custom;
            Query::Git { args, input: None }
        } else if equal(s.as_str(), "ssh") {
            if self.authorization {
                let r = ssh_command(&self.ssh_command, &url, self.operation);
                assert(ssh_commands(self.ssh_command, url_text(url), self.operation, r));
                match r {
                    Ok((program, args)) => {
                        self.stage = Stage::Authenticate;
                        Query::Ssh { program, args }
                    },
                    Err(f) => self.end(Err(f), Vec::new()),
                }
            } else if custom {
                let q = self.end(Ok(url), Vec::new());
                assert(pairs(Seq::<Field>::empty()) =~= Seq::<(Seq<char>, Seq<char>)>::empty());
                q
            } else {
                let href = ssh_href(&url);
                let q = self.end(href, Vec::new());
                assert(pairs(Seq::<Field>::empty()) =~= Seq::<(Seq<char>, Seq<char>)>::empty());
                q
            }
        } else {
            self.end(Err(Failure::other("unknown scheme")), Vec::new())
        }
    }

    fn fall_back(&mut self) -> (q: Query)
        ensures
            old(self).same_task(*final(self)),
            old(self).falls_back(*final(self), q),
    {
        match parse_url(self.remote.as_str()) {
            Ok(url) => self.settle(url, false),
            Err(f) => self.end(Err(f), Vec::new()),
        }
    }

    fn finish(&mut self, header: Vec<Field>) -> (q: Query)
        ensures
            old(self).same_task(*final(self)),
            old(self).finishes(*final(self), q, pairs(header@)),
    {
        match self.url.take() {
            Some(url) => {
                if self.custom {
                    self.end(Ok(url), header)
                } else {
                    let href = lfs_href(url);
                    self.end(href, header)
                }
            },
            None => self.end(Err(Failure::other("missing address")), header),
        }
    }

    /// One step of the search: reads the answer to the last question and
    /// names the next one.
    pub fn step(&mut self, answer: Answer) -> (q: Query)
        ensures
            old(self).steps(answer, *final(self), q),
    {
        let ghost pre = *self;
        let ghost given = answer;
        let mut stage = Stage::Done;
        core::mem::swap(&mut self.stage, &mut stage);
        match (stage, answer) {
            (Stage::Start, Answer::Begin) => {
                self.stage = Stage::Toplevel;
                let q = Query::Git { args: rev_parse_show_toplevel(), input: None };
                assert(pre.steps(given, *self, q));
                q
            },
            (Stage::Toplevel, Answer::Output(Ok(stdout))) => {
                let q = match rev_parse_output(stdout) {
                    Ok(top) => {
                        let file = join_path(top.as_str(), ".lfsconfig");
                        self.ask_custom(Some(file), false)
                    },
                    Err(_) => self.ask_custom(None, false),
                };
                assert(pre.steps(given, *self, q));
                q
            },
            (Stage::Toplevel, Answer::Output(Err(_))) => {
                let q = self.ask_custom(None, false);
                assert(pre.steps(given, *self, q));
                q
            },
            (Stage::Custom { file, general }, Answer::Output(Ok(stdout))) => {
                self.stage = Stage::Custom { file, general };
                let q = match custom_configuration_output(stdout) {
                    Some(url) => self.settle(url, true),
                    None => self.move_on(),
                };
                assert(pre.steps(given, *self, q));
                q
            },
            (Stage::Custom { file, general }, Answer::Output(Err(_))) => {
                let q = if general {
                    self.stage = Stage::Custom { file, general };
                    self.move_on()
                } else {
                    self.ask_custom(file, true)
                };
                assert(pre.steps(given, *self, q));
                q
            },
            (Stage::Remote, Answer::Output(Ok(stdout))) => {
                let q = match remote_get_url_output(stdout) {
                    Ok(url) => self.settle(url, false),
                    Err(_) => self.fall_back(),
                };
                assert(pre.steps(given, *self, q));
                q
            },
            (Stage::Remote, Answer::Output(Err(_))) => {
                let q = self.fall_back();
                assert(pre.steps(given, *self, q));
                q
            },
            (Stage::ExtraHeader, Answer::Output(found)) => {
                let header = match found {
                    Ok(stdout) => match config_output(stdout) {
                        Ok(lines) => extra_headers(&lines),
                        Err(_) => Vec::new(),
                    },
                    Err(_) => Vec::new(),
                };
                proof {
                    assert(pairs(Seq::<Field>::empty()) =~= Seq::<(Seq<char>, Seq<char>)>::empty());
                    assert(pairs(header@) == extra_fields(found));
                    lemma_pairs_has_field(header@, AUTHORIZATION@);
                }
                let q = if self.authorization && !contains_field(&header, AUTHORIZATION)
                    && self.url.is_some() {
                    let input = match &self.url {
                        Some(url) => credential_fill(url),
                        None => String::new(),
                    };
                    self.stage = Stage::Credential;
                    self.header = header;
                    Query::Git { args: credential_fill_command(), input: Some(input) }
                } else {
                    self.finish(header)
                };
                assert(pre.steps(given, *self, q));
                q
            },
            (Stage::Credential, Answer::Output(found)) => {
                let mut header: Vec<Field> = Vec::new();
                core::mem::swap(&mut self.header, &mut header);
                let ghost before = pairs(header@);
                match found {
                    Ok(stdout) => match credential_fill_output(stdout) {
                        Ok(credential) => match credential.basic() {
                            Some(field) => {
                                let ghost value = field.value@;
                                header.push(field);
                                assert(pairs(header@) =~= before.push((AUTHORIZATION@, value)));
                            },
                            None => {},
                        },
                        Err(_) => {},
                    },
                    Err(_) => {},
                }
                assert(pairs(header@) == Discovery::with_credential(before, found));
                let q = self.finish(header);
                assert(pre.steps(given, *self, q));
                q
            },
            (Stage::Authenticate, Answer::Endpoint(found)) => {
                let q = Query::Done(found);
                assert(pre.steps(given, *self, q));
                q
            },
            (Stage::Done, _) => {
                let q = self.end(Err(Failure::other("search has ended")), Vec::new());
                assert(pre.steps(given, *self, q));
                q
            },
            _ => {
                let q = self.end(Err(Failure::other("unexpected answer")), Vec::new());
                assert(pre.steps(given, *self, q));
                q
            },
        }
    }
}

/// Begins the search for the endpoint of the server for the remote
/// `remote`: gives the search and its first question. `ssh_command` is the
/// configured command line of the secure shell, if one is configured.
pub fn server_discovery(
    operation: Operation,
    remote: &str,
    authorization: bool,
    ssh_command: Option<String>,
) -> (r: (Discovery, Query))
    ensures
        r.0.operation == operation,
        r.0.remote@ == remote@,
        r.0.authorization == authorization,
        r.0.ssh_command == ssh_command,
        r.0.stage is Toplevel,
        r.0.url is None,
        r.0.header@.len() == 0,
        asks(r.1, seq!["rev-parse"@, "--show-toplevel"@], None),
{
    let mut search = Discovery::new(operation, remote.to_owned(), authorization, ssh_command);
    let query = search.step(Answer::Begin);
    (search, query)
}

/// A field is among `fields` by its name exactly when it is among their
/// pairs.
pub proof fn lemma_pairs_has_field(fields: Seq<Field>, name: Seq<char>)
    ensures
        has_field(fields, name) <==> exists|i: int|
            0 <= i < pairs(fields).len() && (#[trigger] pairs(fields)[i]).0 == name,
{
    if has_field(fields, name) {
        let i = choose|i: int| 0 <= i < fields.len() && (#[trigger] fields[i]).name@ == name;
        assert(pairs(fields)[i].0 == name);
    }
    if exists|i: int| 0 <= i < pairs(fields).len() && (#[trigger] pairs(fields)[i]).0 == name {
        let i = choose|i: int| 0 <= i < pairs(fields).len() && (#[trigger] pairs(fields)[i]).0 == name;
        assert(fields[i].name@ == name);
    }
}

} // verus!
