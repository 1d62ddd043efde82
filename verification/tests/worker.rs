use callysto::row::CPostgresRow;
use callysto::worker::{
    after_pull, next_action, step, FailureKind, WorkerAction, WorkerEvent, WorkerState,
    WriteOutcome,
};

fn row(query: &str, args: Vec<i32>) -> CPostgresRow<i32> {
    CPostgresRow::new(query.to_string(), args)
}

fn same(row: &CPostgresRow<i32>, query: &str, args: &[i32]) -> bool {
    row.query == query && row.args == args
}

#[test]
fn row_keeps_query_and_args() {
    let r = CPostgresRow::new("INSERT INTO t VALUES ($1, $2)".to_string(), vec![1, 2]);
    assert_eq!(r.query, "INSERT INTO t VALUES ($1, $2)");
    assert_eq!(r.args, vec![1, 2]);
}

#[test]
fn row_may_have_no_args() {
    let r: CPostgresRow<String> = CPostgresRow::new("DELETE FROM t".to_string(), Vec::new());
    assert_eq!(r.query, "DELETE FROM t");
    assert!(r.args.is_empty());
}

#[test]
fn each_state_calls_for_its_action() {
    assert_eq!(next_action(&WorkerState::<i32>::Idle), WorkerAction::AwaitItem);
    assert_eq!(next_action(&WorkerState::Acquiring(row("q", vec![]))), WorkerAction::AcquireClient);
    assert_eq!(next_action(&WorkerState::Preparing(row("q", vec![]))), WorkerAction::Prepare);
    assert_eq!(next_action(&WorkerState::Executing(row("q", vec![]))), WorkerAction::Execute);
    assert_eq!(next_action(&WorkerState::<i32>::Drained), WorkerAction::Stop);
}

#[test]
fn pulled_item_starts_acquiring() {
    match after_pull(Some(row("q", vec![5]))) {
        WorkerState::Acquiring(r) => assert!(same(&r, "q", &[5])),
        other => panic!("{:?}", other),
    }
}

#[test]
fn closed_queue_drains_worker() {
    assert!(matches!(after_pull::<i32>(None), WorkerState::Drained));
}

#[test]
fn successful_write_walks_all_steps() {
    let state = after_pull(Some(row("INSERT INTO t VALUES ($1)", vec![42])));
    let (state, outcome) = step(state, WorkerEvent::ClientAcquired);
    assert!(outcome.is_none());
    assert!(matches!(&state, WorkerState::Preparing(r) if same(r, "INSERT INTO t VALUES ($1)", &[42])));
    let (state, outcome) = step(state, WorkerEvent::Prepared);
    assert!(outcome.is_none());
    assert!(matches!(&state, WorkerState::Executing(r) if same(r, "INSERT INTO t VALUES ($1)", &[42])));
    let (state, outcome) = step(state, WorkerEvent::Executed);
    assert!(matches!(state, WorkerState::Idle));
    match outcome {
        Some(WriteOutcome::Written { request }) => {
            assert!(same(&request, "INSERT INTO t VALUES ($1)", &[42]))
        }
        other => panic!("{:?}", other),
    }
}

#[test]
fn acquire_failure_is_a_pool_failure() {
    let (state, outcome) = step(
        WorkerState::Acquiring(row("q", vec![1])),
        WorkerEvent::AcquireFailed("pool timed out".to_string()),
    );
    assert!(matches!(state, WorkerState::Idle));
    match outcome {
        Some(WriteOutcome::Failed { request, kind, reason }) => {
            assert!(same(&request, "q", &[1]));
            assert_eq!(kind, FailureKind::Pool);
            assert_eq!(reason, "pool timed out");
        }
        other => panic!("{:?}", other),
    }
}

#[test]
fn prepare_failure_is_a_statement_failure() {
    let (state, outcome) = step(
        WorkerState::Preparing(row("INSRT INTO t", vec![1])),
        WorkerEvent::PrepareFailed("syntax error".to_string()),
    );
    assert!(matches!(state, WorkerState::Idle));
    match outcome {
        Some(WriteOutcome::Failed { request, kind, reason }) => {
            assert!(same(&request, "INSRT INTO t", &[1]));
            assert_eq!(kind, FailureKind::Statement);
            assert_eq!(reason, "syntax error");
        }
        other => panic!("{:?}", other),
    }
}

#[test]
fn execute_failure_is_an_execution_failure() {
    let (state, outcome) = step(
        WorkerState::Executing(row("q", vec![1, 2])),
        WorkerEvent::ExecuteFailed("unique violation".to_string()),
    );
    assert!(matches!(state, WorkerState::Idle));
    match outcome {
        Some(WriteOutcome::Failed { request, kind, reason }) => {
            assert!(same(&request, "q", &[1, 2]));
            assert_eq!(kind, FailureKind::Execution);
            assert_eq!(reason, "unique violation");
        }
        other => panic!("{:?}", other),
    }
}

fn events() -> Vec<WorkerEvent> {
    vec![
        WorkerEvent::ClientAcquired,
        WorkerEvent::AcquireFailed("a".to_string()),
        WorkerEvent::Prepared,
        WorkerEvent::PrepareFailed("p".to_string()),
        WorkerEvent::Executed,
        WorkerEvent::ExecuteFailed("e".to_string()),
    ]
}

#[test]
fn idle_worker_ignores_every_event() {
    for event in events() {
        let (state, outcome) = step(WorkerState::<i32>::Idle, event);
        assert!(matches!(state, WorkerState::Idle));
        assert!(outcome.is_none());
    }
}

#[test]
fn drained_worker_ignores_every_event() {
    for event in events() {
        let (state, outcome) = step(WorkerState::<i32>::Drained, event);
        assert!(matches!(state, WorkerState::Drained));
        assert!(outcome.is_none());
    }
}

#[test]
fn event_for_another_step_changes_nothing() {
    for event in events() {
        let answers = matches!(event, WorkerEvent::ClientAcquired | WorkerEvent::AcquireFailed(_));
        let (state, outcome) = step(WorkerState::Acquiring(row("q", vec![9])), event);
        if !answers {
            assert!(matches!(&state, WorkerState::Acquiring(r) if same(r, "q", &[9])));
            assert!(outcome.is_none());
        }
    }
    for event in events() {
        let answers = matches!(event, WorkerEvent::Prepared | WorkerEvent::PrepareFailed(_));
        let (state, outcome) = step(WorkerState::Preparing(row("q", vec![9])), event);
        if !answers {
            assert!(matches!(&state, WorkerState::Preparing(r) if same(r, "q", &[9])));
            assert!(outcome.is_none());
        }
    }
    for event in events() {
        let answers = matches!(event, WorkerEvent::Executed | WorkerEvent::ExecuteFailed(_));
        let (state, outcome) = step(WorkerState::Executing(row("q", vec![9])), event);
        if !answers {
            assert!(matches!(&state, WorkerState::Executing(r) if same(r, "q", &[9])));
            assert!(outcome.is_none());
        }
    }
}

#[test]
fn no_event_drains_a_working_worker() {
    for event in events() {
        let (state, _) = step(WorkerState::Acquiring(row("q", vec![])), event);
        assert!(!matches!(state, WorkerState::Drained));
    }
    for event in events() {
        let (state, _) = step(WorkerState::Preparing(row("q", vec![])), event);
        assert!(!matches!(state, WorkerState::Drained));
    }
    for event in events() {
        let (state, _) = step(WorkerState::Executing(row("q", vec![])), event);
        assert!(!matches!(state, WorkerState::Drained));
    }
}
