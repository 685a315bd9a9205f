use maxbot::models::{BotStartedUpdate, Update, User};
use maxbot::poller::{FailureAction, FetchError, FetchParams, Poller, StopReason};
use maxbot::queue::{DeliveryQueue, ReceiveOutcome, SendOutcome};
use maxbot::retry::RetryPolicy;

fn bot_started(id: i64) -> Update {
    Update::BotStarted(BotStartedUpdate {
        timestamp: id,
        chat_id: 7,
        user: User {
            user_id: id,
            first_name: "sample".to_string(),
            last_name: None,
            username: None,
            is_bot: false,
            last_activity_time: 0,
        },
        payload: None,
        user_locale: None,
    })
}

fn started_id(update: &Update) -> i64 {
    match update {
        Update::BotStarted(u) => u.timestamp,
        _ => panic!("expected a bot-started update"),
    }
}

#[test]
fn queue_blocks_after_capacity_and_resumes_after_one_drain() {
    let mut queue = DeliveryQueue::new(2);
    assert!(matches!(queue.send(bot_started(1)), SendOutcome::Accepted));
    assert!(matches!(queue.send(bot_started(2)), SendOutcome::Accepted));
    // Exactly at capacity: the third send is refused and handed back.
    match queue.send(bot_started(3)) {
        SendOutcome::Full(update) => assert_eq!(started_id(&update), 3),
        _ => panic!("expected the queue to be full"),
    }
    // One drain by the consumer makes room immediately.
    match queue.receive() {
        ReceiveOutcome::Item(update) => assert_eq!(started_id(&update), 1),
        _ => panic!("expected a buffered update"),
    }
    assert!(matches!(queue.send(bot_started(3)), SendOutcome::Accepted));
    assert_eq!(queue.len(), 2);
}

#[test]
fn queue_is_first_in_first_out() {
    let mut queue = DeliveryQueue::new(10);
    for id in 1..=4 {
        assert!(matches!(queue.send(bot_started(id)), SendOutcome::Accepted));
    }
    let mut seen = Vec::new();
    while let ReceiveOutcome::Item(update) = queue.receive() {
        seen.push(started_id(&update));
    }
    assert_eq!(seen, vec![1, 2, 3, 4]);
}

#[test]
fn closed_queue_refuses_sends_and_drains_then_signals_done() {
    let mut queue = DeliveryQueue::new(5);
    assert!(matches!(queue.send(bot_started(1)), SendOutcome::Accepted));
    queue.close();
    assert!(queue.is_closed());
    match queue.send(bot_started(2)) {
        SendOutcome::Closed(update) => assert_eq!(started_id(&update), 2),
        _ => panic!("expected the queue to be closed"),
    }
    // What was buffered before the close still drains, then end-of-stream.
    assert!(matches!(queue.receive(), ReceiveOutcome::Item(_)));
    assert!(matches!(queue.receive(), ReceiveOutcome::Done));
}

#[test]
fn open_empty_queue_reports_pending() {
    let mut queue = DeliveryQueue::new(3);
    assert!(matches!(queue.receive(), ReceiveOutcome::Pending));
}

#[test]
fn backoff_doubles_to_ceiling_and_resets_on_success() {
    let mut policy = RetryPolicy::new(1000, 60000);
    let mut delays = Vec::new();
    for _ in 0..8 {
        delays.push(policy.current_delay_ms());
        policy.on_failure();
    }
    assert_eq!(
        delays,
        vec![1000, 2000, 4000, 8000, 16000, 32000, 60000, 60000]
    );
    // Non-decreasing throughout, bounded by the ceiling.
    for pair in delays.windows(2) {
        assert!(pair[0] <= pair[1]);
        assert!(pair[1] <= 60000);
    }
    policy.on_success();
    assert_eq!(policy.current_delay_ms(), 1000);
}

#[test]
fn transport_failure_backs_off_and_keeps_marker() {
    let mut poller = Poller::with_defaults();
    poller.marker = Some(11);
    let action = poller.on_fetch_failure(&FetchError::Transport("timed out".to_string()));
    match action {
        FailureAction::RetryAfter(delay) => assert_eq!(delay, 1000),
        _ => panic!("a transport failure must be retried"),
    }
    assert_eq!(poller.marker, Some(11));
    // The next failure waits twice as long.
    let action = poller.on_fetch_failure(&FetchError::Transport("timed out".to_string()));
    match action {
        FailureAction::RetryAfter(delay) => assert_eq!(delay, 2000),
        _ => panic!("a transport failure must be retried"),
    }
}

#[test]
fn auth_error_is_fatal_other_api_errors_are_retried() {
    let mut poller = Poller::with_defaults();
    let action = poller.on_fetch_failure(&FetchError::Api {
        code: "rate.limited".to_string(),
        message: "slow down".to_string(),
    });
    assert!(matches!(action, FailureAction::RetryAfter(_)));

    let action = poller.on_fetch_failure(&FetchError::Api {
        code: "access.denied".to_string(),
        message: "bad token".to_string(),
    });
    match action {
        FailureAction::Fatal(StopReason::AuthRejected { code, .. }) => {
            assert_eq!(code, "access.denied");
        },
        _ => panic!("a credential error must stop the loop"),
    }
}

#[test]
fn third_consecutive_decode_failure_is_fatal() {
    let mut poller = Poller::with_defaults();
    let error = FetchError::Decode("unknown variant".to_string());
    assert!(matches!(
        poller.on_fetch_failure(&error),
        FailureAction::RetryAfter(_)
    ));
    assert!(matches!(
        poller.on_fetch_failure(&error),
        FailureAction::RetryAfter(_)
    ));
    match poller.on_fetch_failure(&error) {
        FailureAction::Fatal(StopReason::PersistentDecode { attempts }) => {
            assert_eq!(attempts, 3);
        },
        _ => panic!("persistent decode failures must stop the loop"),
    }
}

#[test]
fn delivery_resets_failure_state_and_advances_marker() {
    let mut poller = Poller::with_defaults();
    poller.on_fetch_failure(&FetchError::Transport("timed out".to_string()));
    poller.on_fetch_failure(&FetchError::Decode("bad payload".to_string()));
    poller.on_batch_delivered(Some(21));
    assert_eq!(poller.marker, Some(21));
    assert_eq!(poller.decode_failures, 0);
    assert_eq!(poller.retry.current_ms, poller.retry.base_ms);
    // An absent next marker leaves the cursor where it was.
    poller.on_batch_delivered(None);
    assert_eq!(poller.marker, Some(21));
}

#[test]
fn queue_closed_is_fatal() {
    let mut poller = Poller::with_defaults();
    poller.marker = Some(3);
    let action = poller.on_queue_closed();
    assert!(matches!(
        action,
        FailureAction::Fatal(StopReason::QueueClosed)
    ));
    // The marker stays on the undelivered batch for a later restart.
    assert_eq!(poller.marker, Some(3));
}

#[test]
fn default_configuration_matches_reference() {
    let poller = Poller::with_defaults();
    assert_eq!(poller.marker, None);
    assert_eq!(poller.params.limit, 100);
    assert_eq!(poller.params.timeout_seconds, 30);
    assert!(poller.params.types.is_none());
    assert_eq!(poller.retry.base_ms, 1000);
    assert_eq!(poller.retry.max_ms, 60000);
    assert_eq!(poller.decode_failure_limit, 3);
}

#[test]
fn fresh_poller_via_new_starts_at_tail() {
    let params = FetchParams {
        limit: 50,
        timeout_seconds: 10,
        types: Some(vec!["message_created".to_string()]),
    };
    let poller = Poller::new(params, RetryPolicy::new(500, 8000), 5);
    assert_eq!(poller.marker, None);
    assert_eq!(poller.params.limit, 50);
    assert_eq!(poller.decode_failures, 0);
    assert_eq!(poller.retry.current_ms, 500);
}
