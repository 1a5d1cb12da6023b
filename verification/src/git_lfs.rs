//! The types shared by the large-file protocol: the server's error and the
//! direction of a transfer.

use crate::text::{concat, decimal, decimal_of};
use vstd::prelude::*;

pub mod batch;
pub mod custom_transfers;
pub mod server_discovery;

verus! {

/// What a server answered instead of success: its status and its message.
#[derive(Debug)]
pub struct Error {
    pub code: u16,
    pub message: String,
}

/// The status reported where no status of a server applies.
pub const INTERNAL_SERVER_ERROR: u16 = 500;

/// The status of a request that lacked valid credentials.
pub const UNAUTHORIZED: u16 = 401;

/// The status of a request that the server gave up waiting for.
pub const REQUEST_TIMEOUT: u16 = 408;

impl Error {
    /// How the error reads: the status in square brackets, then the message.
    pub open spec fn text_of(code: u16, message: Seq<char>) -> Seq<char> {
        seq!['['] + decimal_of(code as nat) + seq![']', ' '] + message
    }

    /// How the error reads.
    pub fn to_text(&self) -> (r: String)
        ensures
            r@ == Error::text_of(self.code, self.message@),
    {
        proof {
            reveal_strlit("[");
            reveal_strlit("] ");
        }
        let number = decimal(self.code as u64);
        let mut r = concat("[", number.as_str());
        r.append("] ");
        r.append(self.message.as_str());
        assert("["@ =~= seq!['[']);
        assert("] "@ =~= seq![']', ' ']);
        r
    }
}

impl Clone for Error {
    fn clone(&self) -> (r: Error)
        ensures
            r.code == self.code,
            r.message@ == self.message@,
    {
        Error { code: self.code, message: self.message.clone() }
    }
}

/// The direction of a transfer.
#[derive(Clone, Copy, Debug, PartialEq, Eq, Structural)]
pub enum Operation {
    Upload,
    Download,
}

impl Operation {
    /// The word that the protocol uses for the direction.
    pub fn name(&self) -> (r: &'static str)
        ensures
            r@ == (match *self {
                Operation::Upload => "upload"@,
                Operation::Download => "download"@,
            }),
    {
        match self {
            Operation::Upload => "upload",
            Operation::Download => "download",
        }
    }
}

} // verus!
