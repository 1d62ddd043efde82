//! The background worker: the single consumer of the write queue.
//!
//! The worker takes one request at a time through three awaited steps
//! (lease a client from the pool, prepare the statement, execute it) and
//! only then looks at the queue again. The awaiting itself belongs to the
//! code that drives the worker; what is decided here is which step comes
//! next and what becomes of the request when a step fails.
//!
//! A failed step ends the request it belongs to, never the worker: the
//! request is handed back inside a [`WriteOutcome::Failed`] and the worker
//! returns to the queue.

use crate::channel::queue_recv;
use crate::pool::{pool_limit, PgPool};
use crate::row::{CPostgresRow, RowView};
use crossbeam_channel::Receiver;
use cuneiform_fields::arch::ArchPadding;
use vstd::prelude::*;

verus! {

/// The step at which a write failed.
#[derive(Debug, Clone, Copy, PartialEq, Eq, Structural)]
pub enum FailureKind {
    /// No client could be leased from the pool.
    Pool,
    /// The statement could not be prepared.
    Statement,
    /// The database rejected the statement when it ran.
    Execution,
}

/// What an outcome is, mathematically.
pub enum OutcomeView<T> {
    Written { request: RowView<T> },
    Failed { request: RowView<T>, kind: FailureKind, reason: Seq<char> },
}

impl<T> OutcomeView<T> {
    /// The request the outcome is about.
    pub open spec fn request(self) -> RowView<T> {
        match self {
            OutcomeView::Written { request } => request,
            OutcomeView::Failed { request, .. } => request,
        }
    }
}

/// How one request ended. Either way the request comes back to the caller,
/// so that a failed one can be logged, retried or set aside.
#[derive(Debug)]
pub enum WriteOutcome<T> {
    Written { request: CPostgresRow<T> },
    Failed { request: CPostgresRow<T>, kind: FailureKind, reason: String },
}

impl<T> View for WriteOutcome<T> {
    type V = OutcomeView<T>;

    open spec fn view(&self) -> OutcomeView<T> {
        match self {
            WriteOutcome::Written { request } => OutcomeView::Written { request: request@ },
            WriteOutcome::Failed { request, kind, reason } => OutcomeView::Failed {
                request: request@,
                kind: *kind,
                reason: reason@,
            },
        }
    }
}

/// What a worker state is, mathematically.
pub enum StateView<T> {
    Idle,
    Acquiring(RowView<T>),
    Preparing(RowView<T>),
    Executing(RowView<T>),
    Drained,
}

impl<T> StateView<T> {
    /// The request being worked on, if there is one.
    pub open spec fn in_flight(self) -> Option<RowView<T>> {
        match self {
            StateView::Acquiring(row) => Some(row),
            StateView::Preparing(row) => Some(row),
            StateView::Executing(row) => Some(row),
            _ => None,
        }
    }
}

/// Where the worker stands. The three middle states own the request that is
/// being worked on.
#[derive(Debug)]
pub enum WorkerState<T> {
    /// Waiting for the next request.
    Idle,
    /// Waiting for a client lease.
    Acquiring(CPostgresRow<T>),
    /// Waiting for the statement to be prepared.
    Preparing(CPostgresRow<T>),
    /// Waiting for the statement to finish.
    Executing(CPostgresRow<T>),
    /// Every producer is gone and the queue is empty: the worker is done.
    Drained,
}

impl<T> View for WorkerState<T> {
    type V = StateView<T>;

    open spec fn view(&self) -> StateView<T> {
        match self {
            WorkerState::Idle => StateView::Idle,
            WorkerState::Acquiring(row) => StateView::Acquiring(row@),
            WorkerState::Preparing(row) => StateView::Preparing(row@),
            WorkerState::Executing(row) => StateView::Executing(row@),
            WorkerState::Drained => StateView::Drained,
        }
    }
}

/// What an event is, mathematically.
pub enum EventView {
    ClientAcquired,
    AcquireFailed(Seq<char>),
    Prepared,
    PrepareFailed(Seq<char>),
    Executed,
    ExecuteFailed(Seq<char>),
}

/// How an awaited step ended. A failure carries the collaborator's reason.
#[derive(Debug, PartialEq, Eq)]
pub enum WorkerEvent {
    ClientAcquired,
    AcquireFailed(String),
    Prepared,
    PrepareFailed(String),
    Executed,
    ExecuteFailed(String),
}

impl View for WorkerEvent {
    type V = EventView;

    open spec fn view(&self) -> EventView {
        match self {
            WorkerEvent::ClientAcquired => EventView::ClientAcquired,
            WorkerEvent::AcquireFailed(reason) => EventView::AcquireFailed(reason@),
            WorkerEvent::Prepared => EventView::Prepared,
            WorkerEvent::PrepareFailed(reason) => EventView::PrepareFailed(reason@),
            WorkerEvent::Executed => EventView::Executed,
            WorkerEvent::ExecuteFailed(reason) => EventView::ExecuteFailed(reason@),
        }
    }
}

/// What the worker's driver has to do next.
#[derive(Debug, Clone, Copy, PartialEq, Eq, Structural)]
pub enum WorkerAction {
    /// Take the next request from the queue.
    AwaitItem,
    /// Lease a client from the pool.
    AcquireClient,
    /// Prepare the statement of the request in flight.
    Prepare,
    /// Execute the prepared statement with the request's arguments.
    Execute,
    /// Leave the loop.
    Stop,
}

/// The action each state calls for.
pub open spec fn action_for<T>(state: StateView<T>) -> WorkerAction {
    match state {
        StateView::Idle => WorkerAction::AwaitItem,
        StateView::Acquiring(_) => WorkerAction::AcquireClient,
        StateView::Preparing(_) => WorkerAction::Prepare,
        StateView::Executing(_) => WorkerAction::Execute,
        StateView::Drained => WorkerAction::Stop,
    }
}

/// The state after a look at the queue by an idle worker: a request starts
/// its way through the steps, and the end of the queue ends the worker.
pub open spec fn pulled_state<T>(item: Option<RowView<T>>) -> StateView<T> {
    match item {
        Some(row) => StateView::Acquiring(row),
        None => StateView::Drained,
    }
}

/// The transition table. A success moves the request one step on; the last
/// step and every failure finish the request and free the worker. An event
/// that does not answer the step the worker is waiting on changes nothing.
pub open spec fn step_spec<T>(state: StateView<T>, event: EventView) -> (
    StateView<T>,
    Option<OutcomeView<T>>,
) {
    match (state, event) {
        (StateView::Acquiring(row), EventView::ClientAcquired) => (StateView::Preparing(row), None),
        (StateView::Acquiring(row), EventView::AcquireFailed(reason)) => (
            StateView::Idle,
            Some(OutcomeView::Failed { request: row, kind: FailureKind::Pool, reason }),
        ),
        (StateView::Preparing(row), EventView::Prepared) => (StateView::Executing(row), None),
        (StateView::Preparing(row), EventView::PrepareFailed(reason)) => (
            StateView::Idle,
            Some(OutcomeView::Failed { request: row, kind: FailureKind::Statement, reason }),
        ),
        (StateView::Executing(row), EventView::Executed) => (
            StateView::Idle,
            Some(OutcomeView::Written { request: row }),
        ),
        (StateView::Executing(row), EventView::ExecuteFailed(reason)) => (
            StateView::Idle,
            Some(OutcomeView::Failed { request: row, kind: FailureKind::Execution, reason }),
        ),
        _ => (state, None),
    }
}

/// The view of an outcome that may be absent.
pub open spec fn outcome_view<T>(outcome: Option<WriteOutcome<T>>) -> Option<OutcomeView<T>> {
    match outcome {
        Some(o) => Some(o@),
        None => None,
    }
}

/// The action a state calls for.
pub fn next_action<T>(state: &WorkerState<T>) -> (action: WorkerAction)
    ensures
        action == action_for(state@),
{
    match state {
        WorkerState::Idle => WorkerAction::AwaitItem,
        WorkerState::Acquiring(_) => WorkerAction::AcquireClient,
        WorkerState::Preparing(_) => WorkerAction::Prepare,
        WorkerState::Executing(_) => WorkerAction::Execute,
        WorkerState::Drained => WorkerAction::Stop,
    }
}

/// The state of an idle worker after it looked at the queue and found
/// `item`, or found the queue closed and empty.
pub fn after_pull<T>(item: Option<CPostgresRow<T>>) -> (state: WorkerState<T>)
    ensures
        state@ == pulled_state(
            match item {
                Some(row) => Some(row@),
                None => None,
            },
        ),
{
    match item {
        Some(row) => WorkerState::Acquiring(row),
        None => WorkerState::Drained,
    }
}

/// Applies one event to a state. Returns the next state and, when the event
/// finished the request in flight, how it ended.
pub fn step<T>(state: WorkerState<T>, event: WorkerEvent) -> (next: (
    WorkerState<T>,
    Option<WriteOutcome<T>>,
))
    ensures
        (next.0@, outcome_view(next.1)) == step_spec(state@, event@),
{
    match (state, event) {
        (WorkerState::Acquiring(row), WorkerEvent::ClientAcquired) => (
            WorkerState::Preparing(row),
            None,
        ),
        (WorkerState::Acquiring(row), WorkerEvent::AcquireFailed(reason)) => (
            WorkerState::Idle,
            Some(WriteOutcome::Failed { request: row, kind: FailureKind::Pool, reason }),
        ),
        (WorkerState::Preparing(row), WorkerEvent::Prepared) => (
            WorkerState::Executing(row),
            None,
        ),
        (WorkerState::Preparing(row), WorkerEvent::PrepareFailed(reason)) => (
            WorkerState::Idle,
            Some(WriteOutcome::Failed { request: row, kind: FailureKind::Statement, reason }),
        ),
        (WorkerState::Executing(row), WorkerEvent::Executed) => (
            WorkerState::Idle,
            Some(WriteOutcome::Written { request: row }),
        ),
        (WorkerState::Executing(row), WorkerEvent::ExecuteFailed(reason)) => (
            WorkerState::Idle,
            Some(WriteOutcome::Failed { request: row, kind: FailureKind::Execution, reason }),
        ),
        (state, _) => (state, None),
    }
}

/// The worker's state together with two histories that are kept for
/// reasoning and vanish from the compiled code: the requests taken from the
/// queue and the outcomes handed out, both oldest first.
struct Progress<T> {
    state: WorkerState<T>,
    pulled: Ghost<Seq<RowView<T>>>,
    finished: Ghost<Seq<OutcomeView<T>>>,
}

/// The histories fit the state: every request taken has its outcome, in the
/// order taken, except the one in flight, which is the last taken.
pub open spec fn histories_fit<T>(
    state: StateView<T>,
    pulled: Seq<RowView<T>>,
    finished: Seq<OutcomeView<T>>,
) -> bool {
    &&& pulled.len() == finished.len() + (if state.in_flight() is Some {
        1nat
    } else {
        0nat
    })
    &&& forall|i: int| 0 <= i < finished.len() ==> (#[trigger] finished[i]).request() == pulled[i]
    &&& state.in_flight() matches Some(row) ==> pulled.last() == row
}

impl<T> Progress<T> {
    #[verifier::type_invariant]
    spec fn fits(self) -> bool {
        histories_fit(self.state@, self.pulled@, self.finished@)
    }

    /// An idle worker that has taken nothing yet.
    fn fresh() -> (progress: Self)
        ensures
            progress.state@ == StateView::<T>::Idle,
            progress.pulled@ == Seq::<RowView<T>>::empty(),
            progress.finished@ == Seq::<OutcomeView<T>>::empty(),
    {
        Progress { state: WorkerState::Idle, pulled: Ghost(Seq::empty()), finished: Ghost(Seq::empty()) }
    }

    /// The progress of an idle worker after it found `item` in the queue, or
    /// found the queue closed and empty.
    fn took(self, item: Option<CPostgresRow<T>>) -> (next: Self)
        requires
            self.state@ is Idle,
        ensures
            next.finished@ == self.finished@,
            match item {
                Some(row) => next.state@ == StateView::Acquiring(row@) && next.pulled@
                    == self.pulled@.push(row@),
                None => next.state@ == StateView::<T>::Drained && next.pulled@ == self.pulled@,
            },
    {
        proof {
            use_type_invariant(&self);
        }
        let ghost pulled = if item is Some {
            self.pulled@.push(item->Some_0@)
        } else {
            self.pulled@
        };
        Progress { state: after_pull(item), pulled: Ghost(pulled), finished: self.finished }
    }

    /// The progress after an event, and the outcome if the event finished
    /// the request in flight.
    fn after(self, event: WorkerEvent) -> (next: (Self, Option<WriteOutcome<T>>))
        ensures
            (next.0.state@, outcome_view(next.1)) == step_spec(self.state@, event@),
            next.0.pulled@ == self.pulled@,
            next.0.finished@ == match next.1 {
                Some(o) => self.finished@.push(o@),
                None => self.finished@,
            },
    {
        proof {
            use_type_invariant(&self);
        }
        let Progress { state, pulled, finished } = self;
        let (state, outcome) = step(state, event);
        let ghost finished = if outcome is Some {
            finished@.push(outcome->Some_0@)
        } else {
            finished@
        };
        (Progress { state, pulled, finished: Ghost(finished) }, outcome)
    }
}

/// The worker: the consuming half of the queue, a handle to the pool, and
/// the state the worker is in. There is one worker per sink and it cannot be
/// copied, so the queue has a single consumer.
#[verifier::reject_recursive_types(T)]
pub struct Worker<T> {
    pool: PgPool,
    rx: ArchPadding<Receiver<CPostgresRow<T>>>,
    progress: Progress<T>,
}

impl<T> Worker<T> {
    /// Where the worker stands.
    pub closed spec fn state(&self) -> StateView<T> {
        self.progress.state@
    }

    /// The requests taken from the queue so far, oldest first.
    pub closed spec fn pulled(&self) -> Seq<RowView<T>> {
        self.progress.pulled@
    }

    /// The outcomes handed out so far, oldest first.
    pub closed spec fn finished(&self) -> Seq<OutcomeView<T>> {
        self.progress.finished@
    }

    /// The limit of the pool the worker leases from.
    pub closed spec fn pool_size(&self) -> nat {
        pool_limit(self.pool)
    }

    /// The worker's histories fit its state. This holds of every worker
    /// there is.
    pub open spec fn wf(&self) -> bool {
        histories_fit(self.state(), self.pulled(), self.finished())
    }

    /// A fresh, idle worker on the consuming half `rx`.
    pub(crate) fn attach(pool: PgPool, rx: ArchPadding<Receiver<CPostgresRow<T>>>) -> (worker:
        Self)
        ensures
            worker.wf(),
            worker.state() == StateView::<T>::Idle,
            worker.pulled() == Seq::<RowView<T>>::empty(),
            worker.finished() == Seq::<OutcomeView<T>>::empty(),
            worker.pool_size() == pool_limit(pool),
    {
        Worker { pool, rx, progress: Progress::fresh() }
    }

    /// What the driver has to do next.
    pub fn action(&self) -> (action: WorkerAction)
        ensures
            action == action_for(self.state()),
    {
        next_action(&self.progress.state)
    }

    /// The request being worked on, if there is one.
    pub fn in_flight(&self) -> (row: Option<&CPostgresRow<T>>)
        ensures
            match row {
                Some(r) => self.state().in_flight() == Some(r@),
                None => self.state().in_flight() is None,
            },
    {
        match &self.progress.state {
            WorkerState::Acquiring(row) => Some(row),
            WorkerState::Preparing(row) => Some(row),
            WorkerState::Executing(row) => Some(row),
            _ => None,
        }
    }

    /// The pool to lease clients from.
    pub fn pool(&self) -> (pool: &PgPool)
        ensures
            pool_limit(*pool) == self.pool_size(),
    {
        &self.pool
    }

    /// Looks at the queue if the worker is idle, waiting until a request
    /// arrives or the queue is closed and empty; does nothing otherwise.
    /// Returns what to do next.
    pub fn pull(&mut self) -> (action: WorkerAction)
        ensures
            final(self).wf(),
            action == action_for(final(self).state()),
            final(self).finished() == old(self).finished(),
            final(self).pool_size() == old(self).pool_size(),
            !(old(self).state() is Idle) ==> final(self).state() == old(self).state()
                && final(self).pulled() == old(self).pulled(),
            old(self).state() is Idle ==> {
                ||| final(self).state() is Drained && final(self).pulled() == old(self).pulled()
                ||| final(self).state() matches StateView::Acquiring(row) && final(self).pulled()
                    == old(self).pulled().push(row)
            },
    {
        proof {
            use_type_invariant(&self.progress);
        }
        if let WorkerState::Idle = self.progress.state {
            let item = queue_recv(&self.rx);
            let mut progress = Progress::fresh();
            core::mem::swap(&mut self.progress, &mut progress);
            self.progress = progress.took(item);
        }
        proof {
            use_type_invariant(&self.progress);
        }
        next_action(&self.progress.state)
    }

    /// Applies the end of an awaited step. Returns how the request in flight
    /// ended, if the event finished it.
    pub fn advance(&mut self, event: WorkerEvent) -> (outcome: Option<WriteOutcome<T>>)
        ensures
            final(self).wf(),
            (final(self).state(), outcome_view(outcome)) == step_spec(old(self).state(), event@),
            final(self).pulled() == old(self).pulled(),
            final(self).pool_size() == old(self).pool_size(),
            final(self).finished() == match outcome {
                Some(o) => old(self).finished().push(o@),
                None => old(self).finished(),
            },
    {
        proof {
            use_type_invariant(&self.progress);
        }
        let mut progress = Progress::fresh();
        core::mem::swap(&mut self.progress, &mut progress);
        let (next, outcome) = progress.after(event);
        self.progress = next;
        proof {
            use_type_invariant(&self.progress);
        }
        outcome
    }
}

/// First in, first out, one at a time: when a request has been taken from
/// the queue, every request taken before it has already ended, and its
/// outcome stands at the place at which the request was taken.
pub proof fn lemma_taken_in_order_finished_in_order<T>(worker: Worker<T>, earlier: int, later: int)
    requires
        worker.wf(),
        0 <= earlier < later < worker.pulled().len(),
    ensures
        earlier < worker.finished().len(),
        worker.finished()[earlier].request() == worker.pulled()[earlier],
        later < worker.finished().len() ==> worker.finished()[later].request()
            == worker.pulled()[later],
        later >= worker.finished().len() ==> later == worker.pulled().len() - 1
            && worker.state().in_flight() == Some(worker.pulled()[later]),
{
}

/// A worker never holds more than one request that has not ended.
pub proof fn lemma_one_request_in_flight<T>(worker: Worker<T>)
    requires
        worker.wf(),
    ensures
        worker.finished().len() <= worker.pulled().len() <= worker.finished().len() + 1,
        worker.pulled().len() == worker.finished().len() <==> worker.state().in_flight() is None,
{
}

/// No event ends the worker, and no failure leaves it stuck: an event that
/// reports a failed step of the request in flight frees the worker for the
/// next request.
pub proof fn lemma_failure_frees_worker<T>(state: StateView<T>, event: EventView)
    ensures
        step_spec(state, event).0 is Drained <==> state is Drained,
        step_spec(state, event).1 matches Some(outcome) ==> step_spec(state, event).0 is Idle
            && state.in_flight() == Some(outcome.request()),
        step_spec(state, event).1 is None ==> step_spec(state, event).0.in_flight()
            == state.in_flight(),
{
}

} // verus!
