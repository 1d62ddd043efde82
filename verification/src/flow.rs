//! Flow control: what the producer is told when it asks whether the sink can
//! take a request, or whether everything it submitted has left the queue.
//!
//! Every answer is a function of the configured limit and of the queue depth
//! observed at the moment of asking. Nothing here knows whether a write has
//! reached the database: "flushed" means that the queue is empty.

use crate::errors::{CallystoError, ErrorView};
use vstd::prelude::*;

verus! {

/// What an answer is, mathematically.
pub enum PollView {
    Pending,
    Ready(Result<(), ErrorView>),
}

/// The answer to a readiness, flush or close check. `Pending` asks the
/// producer to come back later.
#[derive(Debug, PartialEq, Eq)]
pub enum SinkPoll {
    Pending,
    Ready(Result<(), CallystoError>),
}

impl View for SinkPoll {
    type V = PollView;

    open spec fn view(&self) -> PollView {
        match self {
            SinkPoll::Pending => PollView::Pending,
            SinkPoll::Ready(Ok(())) => PollView::Ready(Ok(())),
            SinkPoll::Ready(Err(e)) => PollView::Ready(Err(e@)),
        }
    }
}

/// Whether a sink with limit `buffer_size` accepts a request while `depth`
/// requests wait in its queue. A limit of zero switches throttling off.
pub open spec fn accepts(buffer_size: nat, depth: nat) -> bool {
    buffer_size == 0 || depth < buffer_size
}

/// The answer to a readiness check made at queue depth `depth`.
pub open spec fn ready_signal(buffer_size: nat, depth: nat) -> PollView {
    if accepts(buffer_size, depth) {
        PollView::Ready(Ok(()))
    } else {
        PollView::Pending
    }
}

/// The answer to a flush or close check made at queue depth `depth`.
pub open spec fn drained_signal(depth: nat) -> PollView {
    if depth == 0 {
        PollView::Ready(Ok(()))
    } else {
        PollView::Pending
    }
}

/// Answers a readiness check from the limit and the observed depth.
pub fn ready_at(buffer_size: usize, depth: usize) -> (answer: SinkPoll)
    ensures
        answer@ == ready_signal(buffer_size as nat, depth as nat),
        answer is Pending <==> buffer_size > 0 && depth >= buffer_size,
        buffer_size == 0 ==> answer@ == PollView::Ready(Ok(())),
{
    if buffer_size == 0 {
        return SinkPoll::Ready(Ok(()));
    }
    if depth >= buffer_size {
        SinkPoll::Pending
    } else {
        SinkPoll::Ready(Ok(()))
    }
}

/// Answers a flush or close check from the observed depth.
pub fn drained_at(depth: usize) -> (answer: SinkPoll)
    ensures
        answer@ == drained_signal(depth as nat),
        answer@ == PollView::Ready(Ok(())) <==> depth == 0,
{
    if depth > 0 {
        SinkPoll::Pending
    } else {
        SinkPoll::Ready(Ok(()))
    }
}

/// Under a limit, a readiness check answers `Pending` exactly when the
/// queue holds at least as many requests as the limit allows, and answers
/// that the sink is ready otherwise.
pub proof fn lemma_limit_throttles_at_depth(buffer_size: nat, depth: nat)
    requires
        buffer_size > 0,
    ensures
        ready_signal(buffer_size, depth) == PollView::Pending <==> depth >= buffer_size,
        ready_signal(buffer_size, depth) == PollView::Ready(Ok(())) <==> depth < buffer_size,
{
}

/// Without a limit, a readiness check answers that the sink is ready,
/// however deep the queue is.
pub proof fn lemma_no_limit_never_throttles(depth: nat)
    ensures
        ready_signal(0, depth) == PollView::Ready(Ok(())),
{
}

/// A flush or close check answers that the sink is done exactly when the
/// queue is empty, and `Pending` otherwise. Nothing else enters into it.
pub proof fn lemma_flushed_means_empty(depth: nat)
    ensures
        drained_signal(depth) == PollView::Ready(Ok(())) <==> depth == 0,
        drained_signal(depth) == PollView::Pending <==> depth > 0,
{
}

/// A sink that is ready stays ready while the queue gets no deeper, and an
/// empty queue is always accepted into.
pub proof fn lemma_ready_survives_draining(buffer_size: nat, depth: nat, later: nat)
    requires
        later <= depth,
    ensures
        accepts(buffer_size, depth) ==> accepts(buffer_size, later),
        accepts(buffer_size, 0),
{
}

} // verus!
