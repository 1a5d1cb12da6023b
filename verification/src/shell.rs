//! Command lines as a shell reads and writes them. What this module says of
//! them is assumed of the `shlex` crate.

use vstd::prelude::*;

verus! {

/// The words that a shell reads in the command line `line`.
pub uninterp spec fn shell_words(line: Seq<char>) -> Seq<Seq<char>>;

/// The command line that a shell reads as `words`, each quoted where it
/// needs it; `None` where a word cannot be quoted.
pub uninterp spec fn shell_line(words: Seq<Seq<char>>) -> Option<Seq<char>>;

/// `shlex::Shlex`, run to its end: the words of `line`. A line that breaks
/// off inside a quotation gives the words before the break.
#[verifier::external_body]
pub(crate) fn split(line: &str) -> (r: Vec<String>)
    ensures
        r.deep_view() == shell_words(line@),
{
    ::shlex::Shlex::new(line).collect()
}

/// `shlex::Quoter::join` with the default settings: `words` as one command
/// line, or `None` where a word holds a nul byte.
#[verifier::external_body]
pub(crate) fn join(words: &Vec<String>) -> (r: Option<String>)
    ensures
        r is Some <==> shell_line(words.deep_view()) is Some,
        r matches Some(line) ==> shell_line(words.deep_view()) == Some(line@),
{
    ::shlex::Quoter::new().join(words.iter().map(String::as_str)).ok()
}

} // verus!
