//! Verified core of a presence publisher for an embedded web surface.
//!
//! The crate models the three pieces that carry real logic: a correlation
//! pool that turns one-shot script evaluations into awaitable results, a
//! page-state poller that classifies sampled routes and debounces transient
//! navigation, and a renderer that maps game-state payloads to the two
//! display lines of the presence session.

use vstd::prelude::*;

pub mod bridge;
pub mod jsonval;
pub mod numfmt;
pub mod poller;
pub mod pool;
pub mod render;
pub mod routes;
pub mod text;

verus! {

/// A route prefix check used throughout the classifier.
pub open spec fn starts_with_spec(s: Seq<char>, p: Seq<char>) -> bool {
    p.len() <= s.len() && s.subrange(0, p.len() as int) == p
}

} // verus!
