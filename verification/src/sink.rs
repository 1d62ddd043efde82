//! The sink: the endpoint producers talk to.
//!
//! A producer asks whether the sink is ready, hands over one request when it
//! is, and may later ask whether the queue has been emptied. None of the
//! four operations waits: a check answers `Pending` and the producer asks
//! again. The requests are written by the [`Worker`] that comes with the
//! sink and runs elsewhere.

use crate::channel::{queue_depth, queue_send};
use crate::errors::{CallystoError, ErrorView};
use crate::flow::{drained_at, drained_signal, ready_at, ready_signal, PollView, SinkPoll};
use crate::pool::{pool_limit, setup_pg, setup_rejection, share_pool, PgPool};
use crate::row::{CPostgresRow, RowView};
use crate::worker::{OutcomeView, StateView, Worker};
use crossbeam_channel::Sender;
use cuneiform_fields::arch::ArchPadding;
use std::sync::Arc;
use vstd::prelude::*;

verus! {

/// The producing end of the write queue, with the limit it throttles at.
///
/// A history is kept for reasoning and vanishes from the compiled code: the
/// requests the queue has taken over from this sink, oldest first.
#[verifier::reject_recursive_types(T)]
pub struct CPostgresSink<T> {
    client: Arc<PgPool>,
    tx: ArchPadding<Sender<CPostgresRow<T>>>,
    buffer_size: usize,
    submitted: Ghost<Seq<RowView<T>>>,
}

/// The delivery error for a hand-over to the queue that failed for `reason`:
/// its text quotes the reason.
pub open spec fn delivery_failure(reason: Seq<char>) -> ErrorView {
    ErrorView::DeliveryError("Failed to send to db: `"@ + reason + "`"@)
}

/// The one delivery error a sink answers with: the queue's consuming half is
/// gone.
pub open spec fn worker_gone() -> ErrorView {
    ErrorView::DeliveryError("Failed to send to db: `sending on a disconnected channel`"@)
}

/// Turns the result of a hand-over to the queue into the answer to the
/// producer: success stays success, and a failure becomes the delivery error
/// for its reason.
pub fn delivery_result(sent: Result<(), String>) -> (answer: Result<(), CallystoError>)
    ensures
        match sent {
            Ok(()) => answer is Ok,
            Err(reason) => answer matches Err(e) && e@ == delivery_failure(reason@),
        },
{
    match sent {
        Ok(()) => Ok(()),
        Err(reason) => {
            let mut message = "Failed to send to db: `".to_owned();
            message.append(reason.as_str());
            message.append("`");
            Err(CallystoError::DeliveryError(message))
        },
    }
}

impl<T> CPostgresSink<T> {
    /// The configured limit on the queue depth; zero means no limit.
    pub closed spec fn limit(&self) -> nat {
        self.buffer_size as nat
    }

    /// The limit of the pool the sink was built with.
    pub closed spec fn pool_size(&self) -> nat {
        pool_limit(*self.client)
    }

    /// The requests the queue has taken over from this sink, in the order
    /// in which they were submitted.
    pub closed spec fn submitted(&self) -> Seq<RowView<T>> {
        self.submitted@
    }

    /// Builds a sink and its worker: a pool of at most `pool_size`
    /// unencrypted connections to the database that `pg_dsn` describes, and a
    /// fresh queue between the two. Fails with a configuration error, and
    /// builds nothing, on a descriptor that does not parse or a pool size
    /// out of range.
    pub fn new(pg_dsn: &str, pool_size: usize, buffer_size: usize) -> (made: Result<
        (Self, Worker<T>),
        CallystoError,
    >)
        ensures
            match setup_rejection(pg_dsn@, false, pool_size as nat) {
                Some(rejection) => made matches Err(err) && err@ == rejection,
                None => {
                    &&& made matches Ok((sink, worker))
                    &&& sink.limit() == buffer_size
                    &&& sink.pool_size() == pool_size
                    &&& sink.submitted() == Seq::<RowView<T>>::empty()
                    &&& worker.pool_size() == pool_size
                    &&& worker.wf()
                    &&& worker.state() == StateView::<T>::Idle
                    &&& worker.pulled() == Seq::<RowView<T>>::empty()
                    &&& worker.finished() == Seq::<OutcomeView<T>>::empty()
                },
            },
    {
        let pgpool = match setup_pg(pg_dsn, false, pool_size) {
            Ok(pgpool) => pgpool,
            Err(err) => {
                return Err(err);
            },
        };
        let (tx, rx) = crossbeam_channel::unbounded::<CPostgresRow<T>>();
        let (tx, rx) = (ArchPadding::new(tx), ArchPadding::new(rx));
        let inner_client = share_pool(&pgpool);
        let client = Arc::new(pgpool);
        let worker = Worker::attach(inner_client, rx);
        Ok((Self { client, tx, buffer_size, submitted: Ghost(Seq::empty()) }, worker))
    }

    /// The configured limit on the queue depth; zero means no limit.
    pub fn buffer_size(&self) -> (limit: usize)
        ensures
            limit == self.limit(),
    {
        self.buffer_size
    }

    /// The pool the sink was built with, which its worker leases from.
    pub fn pool(&self) -> (pool: &PgPool)
        ensures
            pool_limit(*pool) == self.pool_size(),
    {
        &self.client
    }

    /// Whether the sink takes a request now. Without a limit it always does;
    /// with one it does while the queue holds fewer requests than the limit.
    /// The answer is the one [`ready_signal`] gives for the depth the queue
    /// had when it was looked at.
    pub fn poll_ready(&self) -> (answer: SinkPoll)
        ensures
            exists|depth: usize| answer@ == #[trigger] ready_signal(self.limit(), depth as nat),
            self.limit() == 0 ==> answer@ == PollView::Ready(Ok(())),
    {
        if self.buffer_size == 0 {
            // No limit: the queue is not even looked at.
            assert(ready_signal(self.limit(), 0usize as nat) == PollView::Ready(Ok(())));
            return SinkPoll::Ready(Ok(()));
        }
        let depth = queue_depth(&self.tx);
        let answer = ready_at(self.buffer_size, depth);
        assert(answer@ == ready_signal(self.limit(), depth as nat));
        answer
    }

    /// Hands one request to the queue, which owns it from then on. Does not
    /// wait. Fails only when the worker's half of the queue is gone, with a
    /// delivery error that says so; the request is then dropped.
    ///
    /// The request joins the sink's history exactly when the queue took it
    /// over, behind everything submitted before it. The limit and the pool
    /// stay as they were.
    pub fn start_send(&mut self, item: CPostgresRow<T>) -> (answer: Result<(), CallystoError>)
        ensures
            final(self).limit() == old(self).limit(),
            final(self).pool_size() == old(self).pool_size(),
            answer matches Err(e) ==> e@ == worker_gone(),
            final(self).submitted() == match answer {
                Ok(()) => old(self).submitted().push(item@),
                Err(_) => old(self).submitted(),
            },
    {
        let ghost request = item@;
        let sent = queue_send(&self.tx, item);
        let answer = delivery_result(sent);
        proof {
            if answer is Ok {
                self.submitted@ = self.submitted@.push(request);
            }
        }
        proof {
            reveal_strlit("Failed to send to db: `");
            reveal_strlit("`");
            reveal_strlit("sending on a disconnected channel");
            reveal_strlit("Failed to send to db: `sending on a disconnected channel`");
            if answer is Err {
                assert("Failed to send to db: `"@ + "sending on a disconnected channel"@ + "`"@
                    =~= "Failed to send to db: `sending on a disconnected channel`"@);
            }
        }
        answer
    }

    /// Whether the queue is empty. This says that every request submitted so
    /// far has been taken by the worker, not that the database has it. The
    /// answer is the one [`drained_signal`] gives for the depth the queue had
    /// when it was looked at.
    pub fn poll_flush(&self) -> (answer: SinkPoll)
        ensures
            exists|depth: usize| answer@ == #[trigger] drained_signal(depth as nat),
    {
        let depth = queue_depth(&self.tx);
        let answer = drained_at(depth);
        assert(answer@ == drained_signal(depth as nat));
        answer
    }

    /// Whether the sink may be dropped without leaving requests in the queue:
    /// the same check as [`CPostgresSink::poll_flush`]. The worker is not
    /// stopped by it; it stops by itself once every sink is gone and the
    /// queue is empty.
    pub fn poll_close(&self) -> (answer: SinkPoll)
        ensures
            exists|depth: usize| answer@ == #[trigger] drained_signal(depth as nat),
    {
        let depth = queue_depth(&self.tx);
        let answer = drained_at(depth);
        assert(answer@ == drained_signal(depth as nat));
        answer
    }
}

/// First submitted, first written. Take a sink and its worker, and let the
/// queue between them have handed requests to the worker in the order in
/// which it took them from the sink, as the channel does for the one sink
/// and the one worker it connects. Then of two requests the worker has
/// taken, the one submitted first has ended before the worker turned to the
/// other, and its outcome stands at the place at which it was submitted.
///
/// The order inside the queue is the premise here, not a result: the queue
/// is shared between two threads and is the channel's to keep in order.
pub proof fn lemma_first_submitted_first_written<T>(
    sink: CPostgresSink<T>,
    worker: Worker<T>,
    first: int,
    second: int,
)
    requires
        worker.wf(),
        worker.pulled().is_prefix_of(sink.submitted()),
        0 <= first < second < worker.pulled().len(),
    ensures
        first < worker.finished().len(),
        worker.finished()[first].request() == sink.submitted()[first],
        second < worker.finished().len() ==> worker.finished()[second].request()
            == sink.submitted()[second],
        second >= worker.finished().len() ==> worker.state().in_flight() == Some(
            sink.submitted()[second],
        ),
{
}

} // verus!
