//! What several parts of the agent share: the failure of an operation, the
//! outcome of a child process, and text read from bytes.

use crate::git_lfs::Error;
use crate::retry::Fault;
use crate::web::{
    push_segment, set_path, set_port, too_long, url_len, url_text, url_with_path, url_with_port,
    url_with_segment, MAX_TEXT,
};
use vstd::prelude::*;
use vstd::utf8::{decode_utf8, valid_utf8};

verus! {

/// Why an operation failed: with the error of a server, or with anything
/// else, told by its text.
#[derive(Debug)]
pub enum Failure {
    Server(Error),
    Other(String),
}

impl Failure {
    /// A failure that no server reported.
    pub fn other(text: &str) -> (r: Failure)
        ensures
            r matches Failure::Other(t) && t@ == text@,
    {
        Failure::Other(text.to_owned())
    }
}

impl Clone for Failure {
    fn clone(&self) -> (r: Failure)
        ensures
            match (*self, r) {
                (Failure::Server(a), Failure::Server(b)) => a.code == b.code && a.message@
                    == b.message@,
                (Failure::Other(a), Failure::Other(b)) => a@ == b@,
                _ => false,
            },
    {
        match self {
            Failure::Server(e) => Failure::Server(e.clone()),
            Failure::Other(t) => Failure::Other(t.clone()),
        }
    }
}

/// The text that a lossy reading of `bytes` as UTF-8 gives.
pub uninterp spec fn lossy_text(bytes: Seq<u8>) -> Seq<char>;

/// `String::from_utf8_lossy`: the reading of `bytes` as UTF-8, in which each
/// malformed part is replaced. Well-formed bytes are read as they are.
#[verifier::external_body]
pub(crate) fn from_utf8_lossy(bytes: &[u8]) -> (r: String)
    ensures
        r@ == lossy_text(bytes@),
        valid_utf8(bytes@) ==> r@ == decode_utf8(bytes@),
{
    String::from_utf8_lossy(bytes).into_owned()
}

/// The text that `bytes` encode, if they are well-formed UTF-8.
pub open spec fn text_of(bytes: Seq<u8>) -> Option<Seq<char>> {
    if valid_utf8(bytes) {
        Some(decode_utf8(bytes))
    } else {
        None
    }
}

/// `String::from_utf8`: the text that `bytes` encode, if they are
/// well-formed UTF-8.
#[verifier::external_body]
pub(crate) fn from_utf8(bytes: Vec<u8>) -> (r: Option<String>)
    ensures
        r is Some <==> text_of(bytes@) is Some,
        r matches Some(s) ==> text_of(bytes@) == Some(s@),
{
    String::from_utf8(bytes).ok()
}

/// The text that the output of a child process holds. Output that is not
/// well-formed UTF-8 is a failure.
pub fn output_text(stdout: Vec<u8>) -> (r: Result<String, Failure>)
    ensures
        match text_of(stdout@) {
            Some(t) => r matches Ok(s) && s@ == t,
            None => r matches Err(Failure::Other(m)) && m@ == "invalid utf-8"@,
        },
{
    match from_utf8(stdout) {
        Some(s) => Ok(s),
        None => Err(Failure::other("invalid utf-8")),
    }
}

/// What a finished child process amounts to: its output where it succeeded,
/// else a failure that carries what it wrote to its error stream.
pub fn spawn(success: bool, stdout: Vec<u8>, stderr: &[u8]) -> (r: Result<Vec<u8>, Failure>)
    ensures
        success ==> r == Ok::<Vec<u8>, Failure>(stdout),
        !success ==> (r matches Err(Failure::Other(t)) && t@ == lossy_text(stderr@)),
{
    if success {
        Ok(stdout)
    } else {
        Err(Failure::Other(from_utf8_lossy(stderr)))
    }
}

/// What appending `segment` to the path of the address `text` gives: the new
/// serialization, or the reason why there is none.
pub open spec fn segment_pushed(text: Seq<char>, segment: Seq<char>) -> Result<
    Seq<char>,
    Seq<char>,
> {
    if text.len() > MAX_TEXT || segment.len() > MAX_TEXT {
        Err("too long"@)
    } else {
        match url_with_segment(text, segment) {
            Some(t) => Ok(t),
            None => Err("cannot be base"@),
        }
    }
}

/// Appends `segment` to the path of `url`, after a trailing empty segment
/// was dropped. An address that cannot be a base is left as it is.
pub fn path_segments_mut(url: &mut ::url::Url, segment: &str) -> (r: Result<(), Failure>)
    ensures
        match segment_pushed(url_text(*old(url)), segment@) {
            Ok(t) => r is Ok && url_text(*final(url)) == t,
            Err(m) => r matches Err(Failure::Other(x)) && x@ == m && url_text(*final(url))
                == url_text(*old(url)),
        },
{
    if url_len(url) > MAX_TEXT || segment.unicode_len() > MAX_TEXT {
        return Err(too_long());
    }
    if push_segment(url, segment) {
        Ok(())
    } else {
        Err(Failure::other("cannot be base"))
    }
}

/// What setting the path of the address `text` to `path` gives: the new
/// serialization, or the reason why there is none.
pub open spec fn path_set(text: Seq<char>, path: Seq<char>) -> Result<Seq<char>, Seq<char>> {
    if text.len() > MAX_TEXT || path.len() > MAX_TEXT {
        Err("too long"@)
    } else {
        Ok(url_with_path(text, path))
    }
}

/// Sets the path of `url` to `path`.
pub fn with_path(url: &mut ::url::Url, path: &str) -> (r: Result<(), Failure>)
    ensures
        match path_set(url_text(*old(url)), path@) {
            Ok(t) => r is Ok && url_text(*final(url)) == t,
            Err(m) => r matches Err(Failure::Other(x)) && x@ == m && url_text(*final(url))
                == url_text(*old(url)),
        },
{
    if url_len(url) > MAX_TEXT || path.unicode_len() > MAX_TEXT {
        return Err(too_long());
    }
    set_path(url, path);
    Ok(())
}

/// What setting the port of the address `text` to `port` gives: the new
/// serialization, or the reason why there is none.
pub open spec fn port_set(text: Seq<char>, port: Option<u16>) -> Result<Seq<char>, Seq<char>> {
    if text.len() > MAX_TEXT {
        Err("too long"@)
    } else {
        match url_with_port(text, port) {
            Some(t) => Ok(t),
            None => Err("cannot be base"@),
        }
    }
}

/// Sets the port of `url` to `port`. An address that can have no port is
/// left as it is.
pub fn with_port(url: &mut ::url::Url, port: Option<u16>) -> (r: Result<(), Failure>)
    ensures
        match port_set(url_text(*old(url)), port) {
            Ok(t) => r is Ok && url_text(*final(url)) == t,
            Err(m) => r matches Err(Failure::Other(x)) && x@ == m && url_text(*final(url))
                == url_text(*old(url)),
        },
{
    if url_len(url) > MAX_TEXT {
        return Err(too_long());
    }
    if set_port(url, port) {
        Ok(())
    } else {
        Err(Failure::other("cannot be base"))
    }
}

/// A failure that is not worth another attempt.
pub fn backoff_permanent(e: Failure) -> (r: Fault)
    ensures
        r == Fault::Permanent(e),
{
    Fault::Permanent(e)
}

/// A failure that may pass: the attempt is made again.
pub fn backoff_transient(e: Failure) -> (r: Fault)
    ensures
        r == Fault::Transient(e),
{
    Fault::Transient(e)
}

} // verus!
