//! A small concurrent HTTP load-generation library.
//!
//! The library holds the decision logic of the tool: how many clients to
//! construct, which requests each worker issues and in what order, how a
//! transport failure cuts a worker's run short, and how per-worker outcomes
//! are aggregated into the final exit status. The surrounding binary performs
//! the network sends and feeds their results back into these functions.

mod args;
mod dispatch;
mod runner;

pub use args::Args;
pub use dispatch::{client_choice, clients_constructed, clients_to_construct, ClientChoice};
pub use dispatch::{dispatch_outcomes, exit_code};
pub use dispatch::{lemma_all_workers_succeed, lemma_workers_independent};
pub use runner::{run_outcome, attempts_of, first_failure, run_requests};
pub use runner::{lemma_all_sends_ok, lemma_failure_caps_run, lemma_first_failure};
pub use runner::{Runner, RunnerAction, SendResult, WorkerOutcome};
