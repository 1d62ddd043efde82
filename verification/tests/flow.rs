use callysto::errors::CallystoError;
use callysto::flow::{drained_at, ready_at, SinkPoll};

#[test]
fn ready_below_limit() {
    assert_eq!(ready_at(2, 0), SinkPoll::Ready(Ok(())));
    assert_eq!(ready_at(2, 1), SinkPoll::Ready(Ok(())));
}

#[test]
fn pending_at_limit() {
    assert_eq!(ready_at(2, 2), SinkPoll::Pending);
    assert_eq!(ready_at(1, 1), SinkPoll::Pending);
}

#[test]
fn pending_above_limit() {
    assert_eq!(ready_at(2, 3), SinkPoll::Pending);
    assert_eq!(ready_at(1, usize::MAX), SinkPoll::Pending);
}

#[test]
fn not_ready_exactly_when_depth_reaches_limit() {
    for limit in 1..6usize {
        for depth in 0..10usize {
            let answer = ready_at(limit, depth);
            assert_eq!(answer == SinkPoll::Pending, depth >= limit);
            assert_eq!(answer == SinkPoll::Ready(Ok(())), depth < limit);
        }
    }
}

#[test]
fn zero_limit_is_always_ready() {
    for depth in [0usize, 1, 2, 1000, usize::MAX] {
        assert_eq!(ready_at(0, depth), SinkPoll::Ready(Ok(())));
    }
}

#[test]
fn largest_limit_throttles_only_when_full() {
    assert_eq!(ready_at(usize::MAX, usize::MAX - 1), SinkPoll::Ready(Ok(())));
    assert_eq!(ready_at(usize::MAX, usize::MAX), SinkPoll::Pending);
}

#[test]
fn drained_when_empty() {
    assert_eq!(drained_at(0), SinkPoll::Ready(Ok(())));
}

#[test]
fn not_drained_while_anything_waits() {
    for depth in [1usize, 2, 17, usize::MAX] {
        assert_eq!(drained_at(depth), SinkPoll::Pending);
    }
}

#[test]
fn checks_never_answer_with_an_error() {
    for limit in 0..4usize {
        for depth in 0..6usize {
            assert!(!matches!(ready_at(limit, depth), SinkPoll::Ready(Err(_))));
            assert!(!matches!(drained_at(depth), SinkPoll::Ready(Err(_))));
        }
    }
}

#[test]
fn error_reason_is_the_text_it_carries() {
    assert_eq!(CallystoError::ConfigError("a".to_string()).reason(), "a");
    assert_eq!(CallystoError::GeneralError("b".to_string()).reason(), "b");
    assert_eq!(CallystoError::DeliveryError("c".to_string()).reason(), "c");
}
