use photo_moderation::queue::{consumer_step, ConsumerAction, ConsumerEvent, ConsumerState, RetryPolicy};

#[test]
fn idle_consumer_keeps_leasing() {
    let p = RetryPolicy::standard();
    assert_eq!(
        consumer_step(p, ConsumerState::Polling, ConsumerEvent::NoItem),
        (ConsumerState::Polling, ConsumerAction::Lease { seconds: 5 })
    );
}

#[test]
fn successful_job_is_completed() {
    let p = RetryPolicy::standard();
    let (s, a) = consumer_step(p, ConsumerState::Polling, ConsumerEvent::Leased);
    assert_eq!(a, ConsumerAction::Handle { delay_ms: 0 });
    let (s, a) = consumer_step(p, s, ConsumerEvent::HandlerOk);
    assert_eq!(a, ConsumerAction::Complete { succeeded: true });
    assert_eq!(consumer_step(p, s, ConsumerEvent::Completed), (ConsumerState::Polling, ConsumerAction::Lease { seconds: 5 }));
}

#[test]
fn failing_job_is_retried_then_completed() {
    let p = RetryPolicy::standard();
    let (mut s, _) = consumer_step(p, ConsumerState::Polling, ConsumerEvent::Leased);
    for _ in 0..3 {
        let (n, a) = consumer_step(p, s, ConsumerEvent::HandlerFailed);
        assert_eq!(a, ConsumerAction::Handle { delay_ms: 1000 });
        s = n;
    }
    assert_eq!(s, ConsumerState::Handling { attempts: 4 });
    let (s, a) = consumer_step(p, s, ConsumerEvent::HandlerFailed);
    assert_eq!(a, ConsumerAction::Complete { succeeded: false });
    assert_eq!(s, ConsumerState::Completing);
}

#[test]
fn retry_then_success() {
    let p = RetryPolicy { max_retries: 1, delay_ms: 50 };
    let (s, _) = consumer_step(p, ConsumerState::Polling, ConsumerEvent::Leased);
    let (s, a) = consumer_step(p, s, ConsumerEvent::HandlerFailed);
    assert_eq!(a, ConsumerAction::Handle { delay_ms: 50 });
    assert_eq!(consumer_step(p, s, ConsumerEvent::HandlerOk).1, ConsumerAction::Complete { succeeded: true });
}

#[test]
fn no_retries_policy_completes_after_first_failure() {
    let p = RetryPolicy { max_retries: 0, delay_ms: 0 };
    let (s, _) = consumer_step(p, ConsumerState::Polling, ConsumerEvent::Leased);
    assert_eq!(consumer_step(p, s, ConsumerEvent::HandlerFailed).1, ConsumerAction::Complete { succeeded: false });
}
