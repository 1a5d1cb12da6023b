//! What the agent asks of the version-control program, and how it reads the
//! answers.

use crate::misc::{output_text, text_of, Failure};
use crate::text::{
    concat, equal, first_index, lines, lines_of, split_once, strip_prefixes, trim, trimmed,
    without_prefixes,
};
use crate::web::{
    authority, basic, basic_authorization, parse_error_text, path, scheme, url_authority,
    url_parse, url_parsed, url_path, url_scheme, url_text, Field, AUTHORIZATION,
};
use vstd::prelude::*;

verus! {

/// A text that is kept from being shown: a `secrecy::SecretString`, which
/// wipes the text when it is dropped and does not print it.
#[verifier::external_body]
pub struct Secret {
    inner: ::secrecy::SecretString,
}

/// The text that a secret holds.
pub uninterp spec fn secret_text(s: Secret) -> Seq<char>;

impl Secret {
    /// `SecretBox::new`: the secret that holds `text`.
    #[verifier::external_body]
    pub(crate) fn new(text: &str) -> (r: Secret)
        ensures
            secret_text(r) == text@,
    {
        Secret { inner: ::secrecy::SecretBox::new(Box::from(text)) }
    }

    /// `ExposeSecret::expose_secret`: the text that the secret holds.
    #[verifier::external_body]
    pub(crate) fn expose_secret(&self) -> (r: &str)
        ensures
            r@ == secret_text(*self),
    {
        ::secrecy::ExposeSecret::expose_secret(&self.inner)
    }
}

/// The configuration file that a query addresses.
#[derive(Debug)]
pub struct Location {
    pub system: bool,
    pub global: bool,
    pub local: bool,
    pub worktree: bool,
    pub file: Option<String>,
}

impl Location {
    /// The location that names the file `file`, or none where there is no
    /// file.
    pub open spec fn of(file: Option<String>) -> Location {
        Location { system: false, global: false, local: false, worktree: false, file }
    }

    /// The location that names the file `file`.
    pub fn file(file: Option<String>) -> (r: Location)
        ensures
            r == Location::of(file),
    {
        Location { system: false, global: false, local: false, worktree: false, file }
    }
}

impl Default for Location {
    /// The location that names no file: the configuration as a query
    /// without flags finds it.
    fn default() -> (r: Location)
        ensures
            r == Location::of(None),
    {
        Location { system: false, global: false, local: false, worktree: false, file: None }
    }
}

impl Clone for Location {
    fn clone(&self) -> (r: Location)
        ensures
            r.system == self.system,
            r.global == self.global,
            r.local == self.local,
            r.worktree == self.worktree,
            r.file is Some <==> self.file is Some,
            r.file matches Some(f) ==> f@ == self.file->0@,
    {
        Location {
            system: self.system,
            global: self.global,
            local: self.local,
            worktree: self.worktree,
            file: match &self.file {
                Some(f) => Some(f.clone()),
                None => None,
            },
        }
    }
}

/// A user name and a password, as far as the credential helper knows them.
pub struct Credential {
    pub username: Option<String>,
    pub password: Option<Secret>,
}

impl Credential {
    /// The field that authorizes a request by this credential in the basic
    /// scheme, where the credential holds both a user name and a password.
    pub fn basic(&self) -> (r: Option<Field>)
        ensures
            match (self.username, self.password) {
                (Some(u), Some(p)) => r matches Some(f) && f.name@ == AUTHORIZATION@ && f.value@
                    == basic_authorization(u@, secret_text(p)),
                _ => r is None,
            },
    {
        match (&self.username, &self.password) {
            (Some(u), Some(p)) => Some(
                Field {
                    name: AUTHORIZATION.to_owned(),
                    value: basic(u.as_str(), p.expose_secret()),
                },
            ),
            _ => None,
        }
    }
}

/// The arguments that select the configuration file `location`.
pub open spec fn location_flags(location: Location) -> Seq<Seq<char>> {
    (if location.system {
        seq!["--system"@]
    } else {
        Seq::empty()
    }) + (if location.global {
        seq!["--global"@]
    } else {
        Seq::empty()
    }) + (if location.local {
        seq!["--local"@]
    } else {
        Seq::empty()
    }) + (if location.worktree {
        seq!["--worktree"@]
    } else {
        Seq::empty()
    }) + (match location.file {
        Some(file) => seq!["--file"@, file@],
        None => Seq::empty(),
    })
}

/// The arguments of a query of the configuration: the word `config`, the
/// flags of the location, then `args`.
pub fn config(location: &Location, args: Vec<String>) -> (r: Vec<String>)
    ensures
        r.deep_view() == seq!["config"@] + location_flags(*location) + args.deep_view(),
{
    let mut r: Vec<String> = Vec::new();
    r.push("config".to_owned());
    if location.system {
        r.push("--system".to_owned());
    }
    if location.global {
        r.push("--global".to_owned());
    }
    if location.local {
        r.push("--local".to_owned());
    }
    if location.worktree {
        r.push("--worktree".to_owned());
    }
    match &location.file {
        Some(file) => {
            r.push("--file".to_owned());
            r.push(file.clone());
        },
        None => {},
    }
    assert(r.deep_view() =~= seq!["config"@] + location_flags(*location));
    let ghost flags = r.deep_view();
    let mut args = args;
    let ghost rest = args.deep_view();
    r.append(&mut args);
    assert(r.deep_view() =~= flags + rest) by {
        assert(r@.len() == flags.len() + rest.len());
        assert forall|i: int| 0 <= i < r@.len() implies r.deep_view()[i] == (flags + rest)[i] by {
            if i < flags.len() {
                assert(r@[i]@ == flags[i]);
            } else {
                assert(r@[i]@ == rest[i - flags.len()]);
            }
        }
    }
    r
}

/// The lines that a query of the configuration printed.
pub fn config_output(stdout: Vec<u8>) -> (r: Result<Vec<String>, Failure>)
    ensures
        match text_of(stdout@) {
            Some(t) => r matches Ok(v) && v.deep_view() == lines_of(t),
            None => r matches Err(Failure::Other(m)) && m@ == "invalid utf-8"@,
        },
{
    match output_text(stdout) {
        Ok(text) => Ok(lines(text.as_str())),
        Err(f) => Err(f),
    }
}

/// What the credential helper is told of an address: its protocol, its
/// host and its path, each on a line of its own.
pub open spec fn credential_input(text: Seq<char>) -> Seq<char> {
    "protocol="@ + url_scheme(text) + seq!['\n'] + "host="@ + url_authority(text) + seq!['\n']
        + "path="@ + without_prefixes(url_path(text), seq!['/']) + seq!['\n']
}

/// The arguments that ask the credential helper to fill in a credential.
pub fn credential_fill_command() -> (r: Vec<String>)
    ensures
        r.deep_view() == seq!["credential"@, "fill"@],
{
    let mut r: Vec<String> = Vec::new();
    r.push("credential".to_owned());
    r.push("fill".to_owned());
    assert(r.deep_view() =~= seq!["credential"@, "fill"@]);
    r
}

/// What the credential helper is told of `url`.
pub fn credential_fill(url: &::url::Url) -> (r: String)
    ensures
        r@ == credential_input(url_text(*url)),
{
    proof {
        reveal_strlit("\n");
        reveal_strlit("/");
        assert("\n"@ =~= seq!['\n']);
        assert("/"@ =~= seq!['/']);
    }
    let protocol = scheme(url);
    let host = authority(url);
    let whole = path(url);
    let mut r = concat("protocol=", protocol.as_str());
    r.append("\n");
    r.append("host=");
    r.append(host.as_str());
    r.append("\n");
    r.append("path=");
    r.append(strip_prefixes(whole.as_str(), "/"));
    r.append("\n");
    assert(r@ =~= credential_input(url_text(*url)));
    r
}

/// The value that the last of `lines` with the key `key` gives it, where a
/// line gives a key a value by an equals sign between them.
pub open spec fn last_value(lines: Seq<Seq<char>>, key: Seq<char>) -> Option<Seq<char>>
    decreases lines.len(),
{
    if lines.len() == 0 {
        None
    } else {
        let line = lines.last();
        let i = first_index(line, '=');
        if line.contains('=') && line.take(i) == key {
            Some(line.skip(i + 1))
        } else {
            last_value(lines.drop_last(), key)
        }
    }
}

/// The credential that the answer of the credential helper holds.
pub fn credential_fill_output(stdout: Vec<u8>) -> (r: Result<Credential, Failure>)
    ensures
        match text_of(stdout@) {
            Some(t) => r matches Ok(c) && (match last_value(lines_of(t), "username"@) {
                Some(v) => c.username matches Some(u) && u@ == v,
                None => c.username is None,
            }) && (match last_value(lines_of(t), "password"@) {
                Some(v) => c.password matches Some(p) && secret_text(p) == v,
                None => c.password is None,
            }),
            None => r matches Err(Failure::Other(m)) && m@ == "invalid utf-8"@,
        },
{
    let text = match output_text(stdout) {
        Ok(text) => text,
        Err(f) => {
            return Err(f);
        },
    };
    let all = lines(text.as_str());
    let mut username: Option<String> = None;
    let mut password: Option<Secret> = None;
    let mut i: usize = 0;
    assert(all.deep_view().take(0) =~= Seq::<Seq<char>>::empty());
    while i < all.len()
        invariant
            i <= all.len(),
            match last_value(all.deep_view().take(i as int), "username"@) {
                Some(v) => username matches Some(u) && u@ == v,
                None => username is None,
            },
            match last_value(all.deep_view().take(i as int), "password"@) {
                Some(v) => password matches Some(p) && secret_text(p) == v,
                None => password is None,
            },
        decreases all.len() - i,
    {
        proof {
            let next = all.deep_view().take(i + 1);
            assert(next.drop_last() =~= all.deep_view().take(i as int));
            assert(next.last() == all@[i as int]@);
        }
        match split_once(all[i].as_str(), '=') {
            Some((key, value)) => {
                if equal(key, "username") {
                    username = Some(value.to_owned());
                }
                if equal(key, "password") {
                    password = Some(Secret::new(value));
                }
            },
            None => {},
        }
        i += 1;
    }
    assert(all.deep_view().take(all.len() as int) =~= all.deep_view());
    Ok(Credential { username, password })
}

/// The address in the form that a secure shell takes for `s`, a host and a
/// path with a colon between them.
pub open spec fn scp_like(s: Seq<char>) -> Option<Seq<char>> {
    if s.contains(':') {
        let i = first_index(s, ':');
        Some("ssh://"@ + s.take(i) + seq!['/'] + s.skip(i + 1))
    } else {
        None
    }
}

/// The serialization of the address that `s` names: `s` itself where it
/// parses, else its form for a secure shell where that parses.
pub open spec fn url_of(s: Seq<char>) -> Option<Seq<char>> {
    match url_parsed(s) {
        Some(t) => Some(t),
        None => match scp_like(s) {
            Some(x) => url_parsed(x),
            None => None,
        },
    }
}

/// The address that `s` names. A text that is no address is read as a host
/// and a path with a colon between them.
pub fn parse_url(s: &str) -> (r: Result<::url::Url, Failure>)
    ensures
        r is Ok <==> url_of(s@) is Some,
        r matches Ok(u) ==> url_of(s@) == Some(url_text(u)),
        r matches Err(f) ==> f is Other,
{
    match url_parse(s) {
        Ok(url) => Ok(url),
        Err(e) => {
            match split_once(s, ':') {
                Some((authority, path)) => {
                    proof {
                        reveal_strlit("/");
                        assert("/"@ =~= seq!['/']);
                    }
                    let mut text = concat("ssh://", authority);
                    text.append("/");
                    text.append(path);
                    assert(Some(text@) == scp_like(s@));
                    match url_parse(text.as_str()) {
                        Ok(url) => Ok(url),
                        Err(_) => Err(Failure::Other(parse_error_text(&e))),
                    }
                },
                None => Err(Failure::Other(parse_error_text(&e))),
            }
        },
    }
}

/// The arguments that ask for the address of the remote `remote`.
pub fn remote_get_url(remote: &str) -> (r: Vec<String>)
    ensures
        r.deep_view() == seq!["remote"@, "get-url"@, remote@],
{
    let mut r: Vec<String> = Vec::new();
    r.push("remote".to_owned());
    r.push("get-url".to_owned());
    r.push(remote.to_owned());
    assert(r.deep_view() =~= seq!["remote"@, "get-url"@, remote@]);
    r
}

/// The address that the answer to `remote_get_url` holds.
pub fn remote_get_url_output(stdout: Vec<u8>) -> (r: Result<::url::Url, Failure>)
    ensures
        match text_of(stdout@) {
            Some(t) => {
                &&& r is Ok <==> url_of(trimmed(t)) is Some
                &&& r matches Ok(u) ==> url_of(trimmed(t)) == Some(url_text(u))
                &&& r matches Err(f) ==> f is Other
            },
            None => r matches Err(Failure::Other(m)) && m@ == "invalid utf-8"@,
        },
{
    match output_text(stdout) {
        Ok(text) => parse_url(trim(text.as_str())),
        Err(f) => Err(f),
    }
}

/// The arguments that ask for the metadata directory of the repository.
pub fn rev_parse_absolute_git_dir() -> (r: Vec<String>)
    ensures
        r.deep_view() == seq!["rev-parse"@, "--absolute-git-dir"@],
{
    let mut r: Vec<String> = Vec::new();
    r.push("rev-parse".to_owned());
    r.push("--absolute-git-dir".to_owned());
    assert(r.deep_view() =~= seq!["rev-parse"@, "--absolute-git-dir"@]);
    r
}

/// The arguments that ask for the top directory of the working tree.
pub fn rev_parse_show_toplevel() -> (r: Vec<String>)
    ensures
        r.deep_view() == seq!["rev-parse"@, "--show-toplevel"@],
{
    let mut r: Vec<String> = Vec::new();
    r.push("rev-parse".to_owned());
    r.push("--show-toplevel".to_owned());
    assert(r.deep_view() =~= seq!["rev-parse"@, "--show-toplevel"@]);
    r
}

/// The path that the answer to a `rev-parse` query holds.
pub fn rev_parse_output(stdout: Vec<u8>) -> (r: Result<String, Failure>)
    ensures
        match text_of(stdout@) {
            Some(t) => r matches Ok(p) && p@ == trimmed(t),
            None => r matches Err(Failure::Other(m)) && m@ == "invalid utf-8"@,
        },
{
    match output_text(stdout) {
        Ok(text) => Ok(trim(text.as_str()).to_owned()),
        Err(f) => Err(f),
    }
}

} // verus!
