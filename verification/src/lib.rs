//! A transfer agent for large files under version control, with a cache
//! between the working tree and the server of the large files.
//!
//! The library holds what the agent decides and computes: the books of the
//! channel that fans the bytes of an object out to several readers, the
//! steps of a download and of the search for the server, where the cache
//! keeps an object, and how the messages of the protocol are framed. Files,
//! sockets and child processes belong to its caller.

pub mod cache;
pub mod channel;
pub mod digest;
pub mod git;
pub mod git_lfs;
pub mod install;
pub mod jsonl;
pub mod logs;
pub mod misc;
pub mod retry;
pub mod shell;
pub mod stats;
pub mod text;
pub mod transfer_agent;
pub mod web;
pub mod writer;
