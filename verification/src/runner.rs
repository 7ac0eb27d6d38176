use vstd::prelude::*;

verus! {

/// What one attempted send came to. A non-success HTTP status still counts
/// as sent: only a transport-level failure (connection refused, timeout,
/// DNS or TLS failure) is an error here.
#[derive(Clone, Copy, Debug, PartialEq, Eq, Structural)]
pub enum SendResult {
    /// The send returned: the request went out and an answer came back.
    Sent,
    /// The send failed at the transport level before a response arrived.
    TransportError,
}

/// The per-worker result record, produced exactly once at task completion.
#[derive(Clone, Copy, Debug, PartialEq, Eq, Structural)]
pub enum WorkerOutcome {
    /// Every request of the worker was sent without transport error.
    Success { worker_index: u32, requests_completed: u32 },
    /// The send of request `failed_at` (0-indexed) failed in transport; the
    /// worker aborted there and attempted no request after `failed_at`.
    Failure { worker_index: u32, request_count: u32, failed_at: u32 },
}

/// What a worker does next: issue the POST request with the given index, or
/// finish with its outcome.
#[derive(Clone, Copy, Debug, PartialEq, Eq, Structural)]
pub enum RunnerAction {
    Send { request_index: u32 },
    Finish { outcome: WorkerOutcome },
}

/// The index of the first send that fails in transport, or `sends.len()`
/// when every send succeeds.
pub open spec fn first_failure(sends: Seq<SendResult>) -> int
    decreases sends.len(),
{
    if sends.len() == 0 {
        0
    } else if sends[0] == SendResult::TransportError {
        0
    } else {
        1 + first_failure(sends.skip(1))
    }
}

/// How many sends a worker attempts when the transport answers as `sends`
/// says: every request up to and including the first failing one, or all of
/// them when none fails.
pub open spec fn attempts_of(sends: Seq<SendResult>) -> int {
    if first_failure(sends) < sends.len() {
        first_failure(sends) + 1
    } else {
        sends.len() as int
    }
}

/// The outcome of a worker whose requests the transport would answer as
/// `sends` says, one entry per request: success with the full count when
/// every send goes through, otherwise failure at the first transport error.
pub open spec fn run_outcome(worker_index: u32, sends: Seq<SendResult>) -> WorkerOutcome
    recommends
        sends.len() <= u32::MAX,
{
    if first_failure(sends) < sends.len() {
        WorkerOutcome::Failure {
            worker_index,
            request_count: sends.len() as u32,
            failed_at: first_failure(sends) as u32,
        }
    } else {
        WorkerOutcome::Success { worker_index, requests_completed: sends.len() as u32 }
    }
}

/// `first_failure` points at the first transport error: every send before it
/// succeeds, and the send at it, when there is one, fails.
pub proof fn lemma_first_failure(sends: Seq<SendResult>)
    ensures
        0 <= first_failure(sends) <= sends.len(),
        forall|i: int| 0 <= i < first_failure(sends) ==> sends[i] == SendResult::Sent,
        first_failure(sends) < sends.len() ==> sends[first_failure(sends)]
            == SendResult::TransportError,
    decreases sends.len(),
{
    if sends.len() == 0 {
    } else if sends[0] == SendResult::TransportError {
    } else {
        let tail = sends.skip(1);
        lemma_first_failure(tail);
        assert(sends[0] == SendResult::Sent);
        assert forall|i: int| 0 <= i < first_failure(sends) implies sends[i] == SendResult::Sent by {
            if i > 0 {
                assert(tail[i - 1] == sends[i]);
            }
        }
        if first_failure(sends) < sends.len() {
            assert(tail[first_failure(sends) - 1] == sends[first_failure(sends)]);
        }
    }
}

/// One worker's progress through its sequential requests. The surrounding
/// task asks `next_action` what to do, performs the send it names, and hands
/// the result back through `record_send`, until `next_action` says finish.
pub struct Runner {
    /// Which worker this is; used for reporting, never for branching.
    pub worker_index: u32,
    /// How many requests this worker is to issue.
    pub request_count: u32,
    /// How many sends have completed without transport error.
    pub completed: u32,
    /// Whether a send has failed in transport; the runner then aborts.
    pub failed: bool,
}

impl Runner {
    /// A runner never completes more sends than it was asked for, and a
    /// failed send is never counted as completed.
    pub open spec fn wf(self) -> bool {
        &&& self.completed <= self.request_count
        &&& (self.failed ==> self.completed < self.request_count)
    }

    /// The worker's next step: finish with a failure once a send has failed,
    /// send the next request while some remain, else finish successfully.
    pub open spec fn spec_next_action(self) -> RunnerAction {
        if self.failed {
            RunnerAction::Finish {
                outcome: WorkerOutcome::Failure {
                    worker_index: self.worker_index,
                    request_count: self.request_count,
                    failed_at: self.completed,
                },
            }
        } else if self.completed < self.request_count {
            RunnerAction::Send { request_index: self.completed }
        } else {
            RunnerAction::Finish {
                outcome: WorkerOutcome::Success {
                    worker_index: self.worker_index,
                    requests_completed: self.request_count,
                },
            }
        }
    }

    /// A fresh runner for one worker: nothing sent, nothing failed.
    pub fn new(worker_index: u32, request_count: u32) -> (r: Runner)
        ensures
            r.wf(),
            (r == (Runner { worker_index, request_count, completed: 0, failed: false })),
    {
        Runner { worker_index, request_count, completed: 0, failed: false }
    }

    /// What this worker does next. The request named by a `Send` action is
    /// always the one after the last completed send: requests go out strictly
    /// sequentially, in index order.
    pub fn next_action(&self) -> (a: RunnerAction)
        requires
            self.wf(),
        ensures
            a == self.spec_next_action(),
    {
        if self.failed {
            RunnerAction::Finish {
                outcome: WorkerOutcome::Failure {
                    worker_index: self.worker_index,
                    request_count: self.request_count,
                    failed_at: self.completed,
                },
            }
        } else if self.completed < self.request_count {
            RunnerAction::Send { request_index: self.completed }
        } else {
            RunnerAction::Finish {
                outcome: WorkerOutcome::Success {
                    worker_index: self.worker_index,
                    requests_completed: self.request_count,
                },
            }
        }
    }

    /// Record how the send named by the last `Send` action came out: a
    /// successful send is counted, a transport error puts the runner in its
    /// failed state with the count left where it was.
    pub fn record_send(&mut self, result: SendResult)
        requires
            old(self).wf(),
            !old(self).failed,
            old(self).completed < old(self).request_count,
        ensures
            final(self).wf(),
            final(self).worker_index == old(self).worker_index,
            final(self).request_count == old(self).request_count,
            result == SendResult::Sent ==> final(self).completed == old(self).completed + 1
                && !final(self).failed,
            result == SendResult::TransportError ==> final(self).completed
                == old(self).completed && final(self).failed,
    {
        match result {
            SendResult::Sent => {
                self.completed = self.completed + 1;
            },
            SendResult::TransportError => {
                self.failed = true;
            },
        }
    }
}

/// Issue one worker's whole run, given what the transport answers to each
/// request that is attempted: `sends[i]` is how the send of request `i`
/// would come out. Returns the worker's outcome together with the trace of
/// attempted request indices, in the order they were initiated: the trace is
/// `0, 1, ..., attempts_of(sends) - 1`, so request `i + 1` is never
/// initiated before request `i`'s send has returned, and nothing after the
/// first transport error is attempted.
pub fn run_requests(worker_index: u32, sends: &Vec<SendResult>) -> (r: (WorkerOutcome, Vec<u32>))
    requires
        sends@.len() <= u32::MAX,
    ensures
        r.0 == run_outcome(worker_index, sends@),
        r.1@.len() == attempts_of(sends@),
        forall|i: int| 0 <= i < r.1@.len() ==> r.1@[i] == i,
{
    let request_count: u32 = sends.len() as u32;
    let mut runner = Runner::new(worker_index, request_count);
    let mut trace: Vec<u32> = Vec::new();
    proof {
        lemma_first_failure(sends@);
    }
    loop
        invariant
            sends@.len() == request_count,
            runner.wf(),
            runner.worker_index == worker_index,
            runner.request_count == request_count,
            !runner.failed ==> runner.completed <= first_failure(sends@) && trace@.len()
                == runner.completed,
            runner.failed ==> runner.completed == first_failure(sends@) && trace@.len()
                == runner.completed + 1,
            forall|i: int| 0 <= i < trace@.len() ==> trace@[i] == i,
            0 <= first_failure(sends@) <= sends@.len(),
            forall|i: int| 0 <= i < first_failure(sends@) ==> sends@[i] == SendResult::Sent,
            first_failure(sends@) < sends@.len() ==> sends@[first_failure(sends@)]
                == SendResult::TransportError,
        decreases runner.request_count - runner.completed + (if runner.failed {
            0int
        } else {
            1int
        }),
    {
        let action = runner.next_action();
        match action {
            RunnerAction::Send { request_index } => {
                trace.push(request_index);
                let result = sends[request_index as usize];
                proof {
                    if result == SendResult::Sent {
                        assert(first_failure(sends@) != runner.completed);
                    } else {
                        assert(runner.completed >= first_failure(sends@));
                    }
                }
                runner.record_send(result);
            },
            RunnerAction::Finish { outcome } => {
                return (outcome, trace);
            },
        }
    }
}

/// Law: a worker all of whose sends succeed reports success with its full
/// request count, and attempts each of its requests exactly once.
pub proof fn lemma_all_sends_ok(worker_index: u32, sends: Seq<SendResult>)
    requires
        sends.len() <= u32::MAX,
        forall|i: int| 0 <= i < sends.len() ==> sends[i] == SendResult::Sent,
    ensures
        run_outcome(worker_index, sends) == (WorkerOutcome::Success {
            worker_index,
            requests_completed: sends.len() as u32,
        }),
        attempts_of(sends) == sends.len(),
{
    lemma_first_failure(sends);
}

/// Law: a transport failure on request `k` — the first request to fail —
/// makes the worker's outcome a failure reporting index `k`, and the worker
/// attempts exactly the requests `0` through `k`: none after `k`.
pub proof fn lemma_failure_caps_run(worker_index: u32, sends: Seq<SendResult>, k: int)
    requires
        sends.len() <= u32::MAX,
        0 <= k < sends.len(),
        forall|i: int| 0 <= i < k ==> sends[i] == SendResult::Sent,
        sends[k] == SendResult::TransportError,
    ensures
        run_outcome(worker_index, sends) == (WorkerOutcome::Failure {
            worker_index,
            request_count: sends.len() as u32,
            failed_at: k as u32,
        }),
        attempts_of(sends) == k + 1,
{
    lemma_first_failure(sends);
    if first_failure(sends) < k {
        assert(sends[first_failure(sends)] == SendResult::Sent);
    }
    if first_failure(sends) > k {
        assert(sends[k] == SendResult::Sent);
    }
}

} // verus!
