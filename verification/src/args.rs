use vstd::prelude::*;

verus! {

/// The run configuration: how many workers, how many requests each issues,
/// the target of every POST, and whether one client is shared by all workers.
///
/// Parsed once from the command line before any worker starts and immutable
/// afterwards; every worker reads it, none writes it.
pub struct Args {
    /// Number of workers to run simultaneously.
    pub worker_count: u32,
    /// Number of requests to perform per worker.
    pub requests_per_worker: u32,
    /// URI of the endpoint every request is POSTed to.
    pub target_uri: String,
    /// Use a single connection client shared between workers.
    pub share_worker_connection: bool,
    /// Verbose logging.
    pub verbose: bool,
}

} // verus!
