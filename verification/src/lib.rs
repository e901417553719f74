//! Core logic of a desktop diagram editor's backend.
//!
//! The centrepiece is the render-server supervisor in [`supervisor`]: it
//! decides when the long-lived external render engine is spawned, shared,
//! reused or terminated, and keeps the per-process reference count that
//! makes several windows of one application share a single engine.  The
//! decisions are pure state transitions; the host wraps them around the
//! actual process and socket calls.
//!
//! The other modules hold the pure text processing the backend performs:
//! recognising openable diagram files ([`file_open`]) and interpreting the
//! output of version-control queries ([`git_report`]).

use vstd::prelude::*;
use vstd::string::StringExecFns;

pub mod file_open;
pub mod git_report;
pub mod supervisor;
pub mod text;

verus! {

/// The demonstration greeting the UI's hello command shows.
pub fn greeting(name: &str) -> (r: String)
    ensures
        r@ == "Hello, "@ + name@ + "! You've been greeted from Rust!"@,
{
    String::from_str("Hello, ").concat(name).concat("! You've been greeted from Rust!")
}

} // verus!
