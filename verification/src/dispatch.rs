use vstd::prelude::*;

use crate::args::Args;
use crate::runner::{run_outcome, run_requests, SendResult, WorkerOutcome};

verus! {

/// Which client a worker's task is handed: a clone of the one shared
/// client, or a fresh client constructed for this worker alone.
#[derive(Clone, Copy, Debug, PartialEq, Eq, Structural)]
pub enum ClientChoice {
    UseShared,
    ConstructOwn,
}

/// How many HTTP clients a run constructs: one when the connection is
/// shared by all workers, otherwise one per worker.
pub open spec fn clients_constructed(share_worker_connection: bool, worker_count: u32) -> int {
    if share_worker_connection {
        1
    } else {
        worker_count as int
    }
}

/// The number of HTTP clients the dispatcher constructs for this run.
pub fn clients_to_construct(args: &Args) -> (n: u32)
    ensures
        n == clients_constructed(args.share_worker_connection, args.worker_count),
        args.share_worker_connection ==> n == 1,
        !args.share_worker_connection ==> n == args.worker_count,
{
    if args.share_worker_connection {
        1
    } else {
        args.worker_count
    }
}

/// The dispatcher's choice of client for one worker: a worker shares the
/// single client exactly when the configuration says so, and otherwise gets
/// a client of its own, used by no other worker.
pub fn client_choice(share_worker_connection: bool) -> (c: ClientChoice)
    ensures
        c == ClientChoice::UseShared <==> share_worker_connection,
{
    if share_worker_connection {
        ClientChoice::UseShared
    } else {
        ClientChoice::ConstructOwn
    }
}

/// The whole dispatch, given what the transport answers each worker:
/// `sends[w][i]` is how worker `w`'s send of its request `i` would come
/// out. Exactly one outcome is produced per spawned worker, and each
/// worker's outcome is determined by that worker's own sends alone.
pub fn dispatch_outcomes(args: &Args, sends: &Vec<Vec<SendResult>>) -> (outcomes: Vec<
    WorkerOutcome,
>)
    requires
        sends@.len() == args.worker_count,
        forall|w: int|
            0 <= w < sends@.len() ==> (#[trigger] sends@[w])@.len() == args.requests_per_worker,
    ensures
        outcomes@.len() == args.worker_count,
        forall|w: int|
            0 <= w < outcomes@.len() ==> (#[trigger] outcomes@[w]) == run_outcome(
                w as u32,
                sends@[w]@,
            ),
{
    let worker_count: usize = sends.len();
    let mut outcomes: Vec<WorkerOutcome> = Vec::new();
    for w in 0..worker_count
        invariant
            worker_count == sends@.len(),
            sends@.len() == args.worker_count,
            forall|v: int|
                0 <= v < sends@.len() ==> (#[trigger] sends@[v])@.len()
                    == args.requests_per_worker,
            outcomes@.len() == w,
            forall|v: int|
                0 <= v < outcomes@.len() ==> (#[trigger] outcomes@[v]) == run_outcome(
                    v as u32,
                    sends@[v]@,
                ),
    {
        let (outcome, _trace) = run_requests(w as u32, &sends[w]);
        outcomes.push(outcome);
    }
    outcomes
}

/// The process exit status once every spawned worker's task has been
/// awaited and its outcome accounted for: zero, however many individual
/// workers failed.
pub fn exit_code(args: &Args, outcomes: &Vec<WorkerOutcome>) -> (code: i32)
    requires
        outcomes@.len() == args.worker_count,
    ensures
        code == 0,
{
    0
}

/// Law: for a run of at least one worker in which every send of every
/// worker succeeds, exactly one outcome per worker is produced and each
/// reports the full per-worker request count.
pub proof fn lemma_all_workers_succeed(
    outcomes: Seq<WorkerOutcome>,
    sends: Seq<Seq<SendResult>>,
    worker_count: u32,
    requests_per_worker: u32,
)
    requires
        worker_count >= 1,
        sends.len() == worker_count,
        outcomes.len() == worker_count,
        forall|w: int| 0 <= w < sends.len() ==> (#[trigger] sends[w]).len() == requests_per_worker,
        forall|w: int|
            0 <= w < outcomes.len() ==> (#[trigger] outcomes[w]) == run_outcome(
                w as u32,
                sends[w],
            ),
        forall|w: int, i: int|
            0 <= w < sends.len() && 0 <= i < sends[w].len() ==> (#[trigger] sends[w][i])
                == SendResult::Sent,
    ensures
        forall|w: int|
            0 <= w < outcomes.len() ==> (#[trigger] outcomes[w]) == (WorkerOutcome::Success {
                worker_index: w as u32,
                requests_completed: requests_per_worker,
            }),
{
    assert forall|w: int| 0 <= w < outcomes.len() implies (#[trigger] outcomes[w])
        == (WorkerOutcome::Success {
        worker_index: w as u32,
        requests_completed: requests_per_worker,
    }) by {
        crate::runner::lemma_all_sends_ok(w as u32, sends[w]);
    }
}

/// Law: workers do not affect one another. Outcomes are computed worker by
/// worker from that worker's own sends, so in two runs whose transports
/// answer worker `w` alike, worker `w`'s outcome is the same, whatever
/// happened to the other workers in either run.
pub proof fn lemma_workers_independent(
    w: int,
    sends_a: Seq<Seq<SendResult>>,
    sends_b: Seq<Seq<SendResult>>,
    outcomes_a: Seq<WorkerOutcome>,
    outcomes_b: Seq<WorkerOutcome>,
)
    requires
        0 <= w < sends_a.len(),
        0 <= w < sends_b.len(),
        sends_a[w] == sends_b[w],
        outcomes_a.len() == sends_a.len(),
        outcomes_b.len() == sends_b.len(),
        forall|v: int|
            0 <= v < outcomes_a.len() ==> (#[trigger] outcomes_a[v]) == run_outcome(
                v as u32,
                sends_a[v],
            ),
        forall|v: int|
            0 <= v < outcomes_b.len() ==> (#[trigger] outcomes_b[v]) == run_outcome(
                v as u32,
                sends_b[v],
            ),
    ensures
        outcomes_a[w] == outcomes_b[w],
{
}

} // verus!
