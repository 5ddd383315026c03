use termcall::pacing::{remaining_interval, TARGET_FPS, TARGET_INTERVAL_MS};
use termcall::stream::{Producer, ProducerAction, ProducerEvent};

#[test]
fn target_interval_is_a_thirtieth_of_a_second() {
    assert_eq!(TARGET_FPS, 30);
    assert_eq!(TARGET_INTERVAL_MS, 1000 / 30);
    assert_eq!(TARGET_INTERVAL_MS, 33);
}

#[test]
fn remaining_interval_is_what_is_left() {
    assert_eq!(remaining_interval(0, 33), 33);
    assert_eq!(remaining_interval(10, 33), 23);
    assert_eq!(remaining_interval(32, 33), 1);
    assert_eq!(remaining_interval(33, 33), 0);
    assert_eq!(remaining_interval(34, 33), 0);
    assert_eq!(remaining_interval(u64::MAX, 33), 0);
    assert_eq!(remaining_interval(0, 0), 0);
    assert_eq!(remaining_interval(5, u64::MAX), u64::MAX - 5);
}

/// Runs the producer against a clock that only the test moves, and hands
/// back the times at which it sent.
fn run_producer(interval: u64, work: &[u64]) -> Vec<u64> {
    let mut clock: u64 = 1_000;
    let mut sends = Vec::new();
    let mut producer = Producer::new(interval);
    let mut action = producer.step(ProducerEvent::Start);
    for &took in work {
        assert_eq!(action, ProducerAction::Capture);
        let began = clock;
        clock += took;
        action = producer.step(ProducerEvent::Captured { payload: vec![1, 2, 3], now: clock });
        assert!(matches!(action, ProducerAction::Send(_)));
        sends.push(clock);
        action = producer.step(ProducerEvent::Sent { elapsed: clock - began });
        match action {
            ProducerAction::Sleep(rest) => {
                assert_eq!(rest, remaining_interval(took, interval));
                clock += rest;
            }
            other => panic!("unexpected action {:?}", other),
        }
        assert!(clock - began >= interval);
        action = producer.step(ProducerEvent::Slept);
    }
    sends
}

#[test]
fn sends_are_an_interval_apart_with_steady_work() {
    let work = vec![5u64; 150];
    let sends = run_producer(33, &work);
    assert_eq!(sends.len(), 150);
    for pair in sends.windows(2) {
        assert!(pair[1] - pair[0] >= 33);
        assert_eq!(pair[1] - pair[0], 33);
    }
}

#[test]
fn sends_are_an_interval_apart_with_growing_work() {
    let work: Vec<u64> = (0..200).map(|k| k / 3).collect();
    let sends = run_producer(33, &work);
    assert_eq!(sends.len(), 200);
    for pair in sends.windows(2) {
        assert!(pair[1] - pair[0] >= 33);
    }
}

#[test]
fn sends_are_an_interval_apart_with_slow_work() {
    let work: Vec<u64> = (0..120).map(|k| 33 + (k * 7) % 50).collect();
    let sends = run_producer(33, &work);
    for pair in sends.windows(2) {
        assert!(pair[1] - pair[0] >= 33);
    }
}

#[test]
fn rounds_start_an_interval_apart_whatever_the_work() {
    let work: Vec<u64> = (0..150).map(|k| (k * 37) % 80).collect();
    let interval = 33;
    let mut start = 0u64;
    for &took in &work {
        let next = start + took + remaining_interval(took, interval);
        assert!(next - start >= interval);
        assert_eq!(next - start, took.max(interval));
        start = next;
    }
}

#[test]
fn fast_round_after_slow_round_sends_early() {
    let sends = run_producer(33, &[40, 1]);
    assert_eq!(sends, vec![1_040, 1_041]);
}
