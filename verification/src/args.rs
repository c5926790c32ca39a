//! The run configuration: seed URL, depth bound, filters and traversal mode.
//!
//! These types carry plain values only; the command-line front end that fills
//! them in lives outside the library.

use vstd::prelude::*;

verus! {

/// The traversal mode: a generic hyperlink graph, or an encyclopedia article
/// graph crawled by `amount` parallel random walks, optionally following only
/// the link at a fixed index on each page.
#[derive(Clone, Copy)]
pub enum Command {
    Html,
    Wiki { amount: u32, link: Option<u32> },
}

/// The configuration of one run. Immutable once the run starts.
pub struct Args {
    pub command: Command,
    /// The seed URL; relative candidates are resolved against it.
    pub url: String,
    /// The maximum traversal depth.
    pub depth: u32,
    /// Where the CSV export goes, if requested.
    pub output: Option<String>,
    /// Drop the query component of a URL before filtering and deduplication.
    pub ignore_query: bool,
    /// If non-empty, a URL must contain at least one of these substrings.
    pub filters: Vec<String>,
    /// A URL containing any of these substrings is rejected.
    pub ignore: Vec<String>,
    /// The size of the execution context that drives the run.
    pub threads: u32,
    /// The endpoint of the graph-visualization service; empty disables it.
    pub gephi_url: String,
}

} // verus!
