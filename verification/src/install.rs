//! Installing the agent: the entries of the configuration that make the
//! version-control program hand its transfers to the agent.

use crate::cache;
use crate::git::{config, location_flags, Location};
use crate::misc::Failure;
use crate::shell::{join as shell_join, shell_line};
use vstd::prelude::*;

verus! {

/// The name of the agent.
pub const PACKAGE_NAME: &'static str = "git-lfs-cache";

/// What is installed: the configuration file, and the cache that the agent
/// is to use.
#[derive(Debug)]
pub struct Args {
    pub location: Location,
    pub cache: Option<cache::Args>,
}

/// The words of the agent's command line: its subcommand, and the cache
/// where one is configured, written as `cache`.
pub open spec fn agent_words(cache: Option<Seq<char>>) -> Seq<Seq<char>> {
    match cache {
        Some(c) => seq!["transfer-agent"@, "--cache"@, c],
        None => seq!["transfer-agent"@],
    }
}

/// The arguments that set the entry `key` to `value` in the file that
/// `location` names.
pub open spec fn entry(location: Location, key: Seq<char>, value: Seq<char>) -> Seq<Seq<char>> {
    seq!["config"@] + location_flags(location) + seq![key, value]
}

/// The queries that install an agent whose command line is `agent` and
/// whose program lies at `path`: the program, its arguments, the direction
/// that it serves, and its name as the agent that stands alone.
pub open spec fn entries(location: Location, path: Seq<char>, agent: Seq<char>) -> Seq<
    Seq<Seq<char>>,
> {
    seq![
        entry(location, "lfs.customtransfer.git-lfs-cache.path"@, path),
        entry(location, "lfs.customtransfer.git-lfs-cache.args"@, agent),
        entry(location, "lfs.customtransfer.git-lfs-cache.direction"@, "download"@),
        entry(location, "lfs.standalonetransferagent"@, PACKAGE_NAME@),
    ]
}

fn set(location: &Location, key: &str, value: &str) -> (r: Vec<String>)
    ensures
        r.deep_view() == entry(*location, key@, value@),
{
    let mut args: Vec<String> = Vec::new();
    args.push(key.to_owned());
    args.push(value.to_owned());
    assert(args.deep_view() =~= seq![key@, value@]);
    config(location, args)
}

/// The queries of the configuration that install the agent, in the order in
/// which they are made. `path` is where the program of the agent lies and
/// `cache` the configuration of the cache as it is written on the command
/// line. A failure where the command line cannot be written.
pub fn commands(location: &Location, path: &str, cache: Option<&str>) -> (r: Result<
    Vec<Vec<String>>,
    Failure,
>)
    ensures
        match shell_line(
            agent_words(
                match cache {
                    Some(c) => Some(c@),
                    None => None,
                },
            ),
        ) {
            Some(agent) => r matches Ok(v) && v@.len() == 4 && (forall|i: int|
                0 <= i < 4 ==> (#[trigger] v@[i]).deep_view() == entries(*location, path@, agent)[i]),
            None => r matches Err(Failure::Other(m)) && m@ == "nul byte"@,
        },
{
    let mut words: Vec<String> = Vec::new();
    words.push("transfer-agent".to_owned());
    match cache {
        Some(c) => {
            words.push("--cache".to_owned());
            words.push(c.to_owned());
        },
        None => {},
    }
    assert(words.deep_view() =~= agent_words(
        match cache {
            Some(c) => Some(c@),
            None => None,
        },
    ));
    let agent = match shell_join(&words) {
        Some(agent) => agent,
        None => {
            return Err(Failure::other("nul byte"));
        },
    };
    let mut r: Vec<Vec<String>> = Vec::new();
    r.push(set(location, "lfs.customtransfer.git-lfs-cache.path", path));
    r.push(set(location, "lfs.customtransfer.git-lfs-cache.args", agent.as_str()));
    r.push(set(location, "lfs.customtransfer.git-lfs-cache.direction", "download"));
    r.push(set(location, "lfs.standalonetransferagent", PACKAGE_NAME));
    Ok(r)
}

} // verus!
