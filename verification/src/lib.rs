//! Core of a small image-serving backend: a single-slot disk cache of a
//! remotely fetched picture, refreshed on a time-to-live.
//!
//! The library holds the logic alone. `marker` encodes and decodes the
//! durable freshness marker, `cache` is the per-request orchestrator that
//! decides between serving the stored artifact and fetching a fresh one,
//! and `todo` holds the validation rule for the todo endpoint. All I/O
//! (file reads and writes, the origin fetch, the database) is the host
//! program's: it performs each `Action` the orchestrator asks for and
//! reports the outcome back as an `Event`.

pub mod cache;
pub mod marker;
pub mod todo;

use vstd::prelude::*;
use vstd::string::StringExecFns;

verus! {

/// The greeting that the health endpoint answers with.
pub fn greeting() -> (r: String)
    ensures
        r@ == "Hello World!"@,
{
    String::from_str("Hello World!")
}

} // verus!
