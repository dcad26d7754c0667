//! Discovery and reclamation of the disk space that developer tools' caches take.
//!
//! The library holds the decisions: where each tool keeps its caches ([`catalog`]),
//! how a directory walk adds up to a size ([`walk`]), how the container runtime's
//! sizes, listings and usage reports read ([`size`], [`runtime`]), how a locator
//! decodes ([`locator`]), and what a batch of deletions adds up to ([`reclaim`]).
//! Reading the filesystem, resolving directories and running the runtime are left
//! to the caller, which hands the results in as plain values.
use vstd::prelude::*;

pub mod catalog;
pub mod locator;
pub mod reclaim;
pub mod records;
pub mod runtime;
pub mod size;
pub mod text;
pub mod walk;

verus! {

/// The greeting shown to `name`.
pub fn greet(name: &str) -> (r: String)
    ensures
        r@ == "Hello, "@ + name@ + "! You've been greeted from Rust!"@,
{
    text::concat(text::concat("Hello, ", name).as_str(), "! You've been greeted from Rust!")
}

} // verus!
