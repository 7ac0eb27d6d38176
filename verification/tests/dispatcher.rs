use loadgen::{
    client_choice, clients_to_construct, dispatch_outcomes, exit_code, Args, ClientChoice,
    SendResult, WorkerOutcome,
};

fn args(worker_count: u32, requests_per_worker: u32, share: bool) -> Args {
    Args {
        worker_count,
        requests_per_worker,
        target_uri: String::from("http://localhost:9999/"),
        share_worker_connection: share,
        verbose: false,
    }
}

#[test]
fn one_client_when_shared_one_per_worker_otherwise() {
    assert_eq!(clients_to_construct(&args(4, 1, true)), 1);
    assert_eq!(clients_to_construct(&args(4, 1, false)), 4);
    assert_eq!(clients_to_construct(&args(1, 0, false)), 1);
    assert_eq!(client_choice(true), ClientChoice::UseShared);
    assert_eq!(client_choice(false), ClientChoice::ConstructOwn);
}

#[test]
fn three_workers_against_unreachable_target() {
    // N=3, M=2 against an unreachable endpoint: every worker fails on its
    // first request, each reports its own failure, and the run still exits 0.
    let a = args(3, 2, false);
    let sends = vec![vec![SendResult::TransportError, SendResult::TransportError]; 3];
    let outcomes = dispatch_outcomes(&a, &sends);
    assert_eq!(outcomes.len(), 3);
    for (w, outcome) in outcomes.iter().enumerate() {
        assert_eq!(
            *outcome,
            WorkerOutcome::Failure {
                worker_index: w as u32,
                request_count: 2,
                failed_at: 0
            }
        );
    }
    assert_eq!(exit_code(&a, &outcomes), 0);
}

#[test]
fn two_workers_five_requests_shared_connection() {
    // N=2, M=5 against a reachable endpoint with a shared client: outcomes
    // (0,5) and (1,5), one client, and 10 POSTs on the wire in total.
    let a = args(2, 5, true);
    assert_eq!(clients_to_construct(&a), 1);
    let sends = vec![vec![SendResult::Sent; 5]; 2];
    let outcomes = dispatch_outcomes(&a, &sends);
    assert_eq!(
        outcomes,
        vec![
            WorkerOutcome::Success { worker_index: 0, requests_completed: 5 },
            WorkerOutcome::Success { worker_index: 1, requests_completed: 5 },
        ]
    );
    let mut total_posts = 0;
    for worker_sends in &sends {
        let (_, trace) = loadgen::run_requests(0, worker_sends);
        total_posts += trace.len();
    }
    assert_eq!(total_posts, 10);
    assert_eq!(exit_code(&a, &outcomes), 0);
}

#[test]
fn one_worker_zero_requests() {
    let a = args(1, 0, false);
    let sends = vec![vec![]];
    let outcomes = dispatch_outcomes(&a, &sends);
    assert_eq!(
        outcomes,
        vec![WorkerOutcome::Success { worker_index: 0, requests_completed: 0 }]
    );
    assert_eq!(exit_code(&a, &outcomes), 0);
}

#[test]
fn exit_is_zero_even_when_some_workers_fail() {
    let a = args(2, 1, false);
    let sends = vec![vec![SendResult::Sent], vec![SendResult::TransportError]];
    let outcomes = dispatch_outcomes(&a, &sends);
    assert_eq!(outcomes.len(), 2);
    assert!(matches!(outcomes[1], WorkerOutcome::Failure { .. }));
    assert_eq!(exit_code(&a, &outcomes), 0);
}

#[test]
fn a_failing_worker_leaves_the_others_unaffected() {
    let a = args(2, 3, false);
    let ok = vec![SendResult::Sent; 3];
    let bad = vec![SendResult::TransportError, SendResult::Sent, SendResult::Sent];
    let outcomes_all_ok = dispatch_outcomes(&a, &vec![ok.clone(), ok.clone()]);
    let outcomes_one_bad = dispatch_outcomes(&a, &vec![ok, bad]);
    assert_eq!(outcomes_all_ok[0], outcomes_one_bad[0]);
    assert_eq!(
        outcomes_one_bad[1],
        WorkerOutcome::Failure { worker_index: 1, request_count: 3, failed_at: 0 }
    );
}
