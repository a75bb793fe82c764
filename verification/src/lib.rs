//! Remote execution of single functions: a function that is marked for a
//! platform runs as a service of its own, on this machine or in a cluster,
//! and calls of it are requests to that service.
//!
//! This crate holds the decisions: how the service's project is derived from
//! the function, what its bundle holds, how a platform provisions it, and how
//! a call becomes a URL. It reads no file, starts no process and sends no
//! request: each step that does is handed to the caller as a value that says
//! what to do, and its outcome is handed back.
use vstd::prelude::*;

pub mod archive;
pub mod build_project;
pub mod distributed_platform;
pub mod extract_function;
pub mod json;
pub mod kubernetes;
pub mod local_queue;
pub mod macros;
pub mod order;
pub mod percent;
pub mod readiness;
pub mod registry;
pub mod run_id;
pub mod text;

verus! {

/// Name of the directory, below the working directory, in which derived
/// projects, their local dependencies and their build artifacts are kept.
pub fn cache_dir_name() -> (name: &'static str)
    ensures
        name@ == ".turbolift"@,
{
    ".turbolift"
}

} // verus!
