use termcall::error::NegotiationError;
use termcall::wait::{
    BoundedWait, WaitStep, DIRECTORY_POLL_MS, NEGOTIATION_POLL_MS, NEGOTIATION_TIMEOUT_MS,
};

#[test]
fn polling_intervals() {
    assert_eq!(NEGOTIATION_POLL_MS, 100);
    assert_eq!(NEGOTIATION_TIMEOUT_MS, 30_000);
    assert_eq!(DIRECTORY_POLL_MS, 1000);
}

#[test]
fn outcome_of_a_step() {
    assert_eq!(WaitStep::Ready.outcome(), Some(Ok(())));
    assert_eq!(WaitStep::Retry(100).outcome(), None);
    assert_eq!(WaitStep::TimedOut.outcome(), Some(Err(NegotiationError::Timeout)));
}

#[test]
fn negotiation_wait_gives_up_after_its_timeout() {
    let mut wait = BoundedWait::new(NEGOTIATION_POLL_MS, NEGOTIATION_TIMEOUT_MS);
    let mut looks = 0;
    let outcome = loop {
        looks += 1;
        if let Some(outcome) = wait.poll(false).outcome() {
            break outcome;
        }
    };
    assert_eq!(outcome, Err(NegotiationError::Timeout));
    assert_eq!(looks, 301);
    assert_eq!(wait.waited(), 30_000);
}

#[test]
fn ready_at_once() {
    let mut wait = BoundedWait::new(100, 1_000);
    assert_eq!(wait.poll(true), WaitStep::Ready);
    assert_eq!(wait.waited(), 0);
}

#[test]
fn retries_until_ready() {
    let mut wait = BoundedWait::new(100, 1_000);
    assert_eq!(wait.poll(false), WaitStep::Retry(100));
    assert_eq!(wait.poll(false), WaitStep::Retry(100));
    assert_eq!(wait.waited(), 200);
    assert_eq!(wait.poll(true), WaitStep::Ready);
    assert_eq!(wait.waited(), 200);
}

#[test]
fn times_out_after_the_timeout() {
    let mut wait = BoundedWait::new(100, 1_000);
    for _ in 0..10 {
        assert_eq!(wait.poll(false), WaitStep::Retry(100));
    }
    assert_eq!(wait.waited(), 1_000);
    assert_eq!(wait.poll(false), WaitStep::TimedOut);
    assert_eq!(wait.poll(false), WaitStep::TimedOut);
    assert_eq!(wait.waited(), 1_000);
}

#[test]
fn ready_wins_over_timeout() {
    let mut wait = BoundedWait::new(100, 100);
    assert_eq!(wait.poll(false), WaitStep::Retry(100));
    assert_eq!(wait.poll(true), WaitStep::Ready);
}

#[test]
fn timeout_of_zero_never_waits() {
    let mut wait = BoundedWait::new(100, 0);
    assert_eq!(wait.poll(false), WaitStep::TimedOut);
    assert_eq!(wait.poll(true), WaitStep::Ready);
}

#[test]
fn uneven_interval_oversteps_once() {
    let mut wait = BoundedWait::new(300, 1_000);
    let mut retries = 0;
    while wait.poll(false) != WaitStep::TimedOut {
        retries += 1;
        assert!(retries <= 4);
    }
    assert_eq!(retries, 4);
    assert_eq!(wait.waited(), 1_200);
}

#[test]
fn time_waited_saturates() {
    let mut wait = BoundedWait::new(u64::MAX - 1, u64::MAX);
    assert_eq!(wait.poll(false), WaitStep::Retry(u64::MAX - 1));
    assert_eq!(wait.waited(), u64::MAX - 1);
    assert_eq!(wait.poll(false), WaitStep::Retry(u64::MAX - 1));
    assert_eq!(wait.waited(), u64::MAX);
    assert_eq!(wait.poll(false), WaitStep::TimedOut);
}
