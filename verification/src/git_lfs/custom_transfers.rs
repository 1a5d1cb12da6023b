//! The messages that the version-control program and the agent exchange,
//! one per line.

use crate::git_lfs::{Error, Operation};
use vstd::prelude::*;

verus! {

/// What the version-control program asks of the agent.
#[derive(Debug)]
pub enum Request {
    Init { operation: Operation, remote: String, concurrent: bool, concurrenttransfers: usize },
    Upload { oid: String, size: u64, path: String },
    Download { oid: String, size: u64 },
    Terminate,
}

/// The answer to `Init`: empty on success.
#[derive(Debug)]
pub struct InitResponse {
    pub error: Option<Error>,
}

/// What the agent reports while and after it works on an object.
#[derive(Debug)]
pub enum Response {
    Complete { oid: String, path: Option<String>, error: Option<Error> },
    Progress { oid: String, bytes_so_far: u64, bytes_since_last: u64 },
}

} // verus!
