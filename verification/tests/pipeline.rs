use maxbot::ingest::run_scripted;
use maxbot::models::{
    Callback, ChatType, Message, MessageBody, MessageCallbackUpdate, MessageCreatedUpdate,
    Recipient, Update, UpdateList, User,
};
use maxbot::poller::{FetchError, Poller};
use maxbot::queue::DeliveryQueue;

fn sample_user(user_id: i64) -> User {
    User {
        user_id,
        first_name: "sample".to_string(),
        last_name: None,
        username: None,
        is_bot: false,
        last_activity_time: 0,
    }
}

fn sample_message(seq: i64) -> Message {
    Message {
        sender: Some(sample_user(seq)),
        recipient: Recipient {
            chat_id: Some(7),
            chat_type: ChatType::Chat,
            user_id: None,
        },
        timestamp: seq,
        link: None,
        body: MessageBody {
            mid: format!("mid.{}", seq),
            seq,
            text: Some(format!("text {}", seq)),
            attachments: None,
            markup: None,
        },
        stat: None,
        url: None,
    }
}

fn message_created(id: i64) -> Update {
    Update::MessageCreated(MessageCreatedUpdate {
        timestamp: id,
        message: sample_message(id),
        user_locale: None,
    })
}

fn message_callback(id: i64) -> Update {
    Update::MessageCallback(MessageCallbackUpdate {
        timestamp: id,
        callback: Callback {
            timestamp: id,
            callback_id: format!("cb.{}", id),
            payload: None,
            user: sample_user(id),
        },
        message: None,
        user_locale: None,
    })
}

fn created_id(update: &Update) -> i64 {
    match update {
        Update::MessageCreated(u) => u.timestamp,
        _ => panic!("expected a message-created update"),
    }
}

#[test]
fn scripted_batches_deliver_in_order_and_store_final_marker() {
    let mut poller = Poller::with_defaults();
    let mut queue = DeliveryQueue::new(100);
    let script: Vec<Result<UpdateList, FetchError>> = vec![
        Ok(UpdateList {
            updates: vec![message_created(1)],
            marker: Some(10),
        }),
        Ok(UpdateList {
            updates: vec![message_created(2), message_callback(3)],
            marker: Some(15),
        }),
        Ok(UpdateList {
            updates: vec![],
            marker: Some(15),
        }),
    ];
    let (delivered, markers) = run_scripted(&mut poller, &mut queue, script);

    assert_eq!(delivered.len(), 3);
    assert!(matches!(&delivered[0], Update::MessageCreated(u) if u.timestamp == 1));
    assert!(matches!(&delivered[1], Update::MessageCreated(u) if u.timestamp == 2));
    assert!(matches!(&delivered[2], Update::MessageCallback(u) if u.timestamp == 3));
    assert_eq!(poller.marker, Some(15));
    assert_eq!(markers, vec![None, Some(10), Some(15)]);
}

#[test]
fn transport_failure_keeps_marker_and_loses_nothing() {
    let mut poller = Poller::with_defaults();
    let mut queue = DeliveryQueue::new(100);
    let script: Vec<Result<UpdateList, FetchError>> = vec![
        Ok(UpdateList {
            updates: vec![message_created(1)],
            marker: Some(5),
        }),
        Err(FetchError::Transport("connection refused".to_string())),
        Ok(UpdateList {
            updates: vec![message_created(2)],
            marker: Some(7),
        }),
    ];
    let (delivered, markers) = run_scripted(&mut poller, &mut queue, script);

    // Call 2 fails, so call 3 is made with the marker call 1 established.
    assert_eq!(markers, vec![None, Some(5), Some(5)]);
    // Nothing duplicated, nothing lost across calls 1 and 3.
    let ids: Vec<i64> = delivered.iter().map(created_id).collect();
    assert_eq!(ids, vec![1, 2]);
    assert_eq!(poller.marker, Some(7));
}

#[test]
fn absent_batch_marker_leaves_cursor_unchanged() {
    let mut poller = Poller::with_defaults();
    let mut queue = DeliveryQueue::new(100);
    let script: Vec<Result<UpdateList, FetchError>> = vec![
        Ok(UpdateList {
            updates: vec![message_created(1)],
            marker: Some(42),
        }),
        Ok(UpdateList {
            updates: vec![message_created(2)],
            marker: None,
        }),
    ];
    let (delivered, markers) = run_scripted(&mut poller, &mut queue, script);

    assert_eq!(markers, vec![None, Some(42)]);
    assert_eq!(poller.marker, Some(42));
    assert_eq!(delivered.len(), 2);
}

#[test]
fn small_queue_still_delivers_everything_in_order() {
    let mut poller = Poller::with_defaults();
    // Capacity 1: every second send finds the queue full, so the driver's
    // consumer model drains between sends.
    let mut queue = DeliveryQueue::new(1);
    let script: Vec<Result<UpdateList, FetchError>> = vec![
        Ok(UpdateList {
            updates: vec![message_created(1), message_created(2), message_created(3)],
            marker: Some(3),
        }),
        Ok(UpdateList {
            updates: vec![message_created(4), message_created(5)],
            marker: Some(5),
        }),
    ];
    let (delivered, _markers) = run_scripted(&mut poller, &mut queue, script);

    let ids: Vec<i64> = delivered.iter().map(created_id).collect();
    assert_eq!(ids, vec![1, 2, 3, 4, 5]);
    assert_eq!(poller.marker, Some(5));
}

#[test]
fn retryable_api_error_keeps_marker() {
    let mut poller = Poller::with_defaults();
    let mut queue = DeliveryQueue::new(100);
    let script: Vec<Result<UpdateList, FetchError>> = vec![
        Ok(UpdateList {
            updates: vec![message_created(1)],
            marker: Some(9),
        }),
        Err(FetchError::Api {
            code: "rate.limited".to_string(),
            message: "slow down".to_string(),
        }),
    ];
    let (delivered, markers) = run_scripted(&mut poller, &mut queue, script);

    assert_eq!(markers, vec![None, Some(9)]);
    assert_eq!(poller.marker, Some(9));
    assert_eq!(delivered.len(), 1);
}

#[test]
fn reply_and_forward_bodies_reference_the_message() {
    let message = sample_message(9);
    let answer = message.answer_body("hi".to_string());
    assert!(answer.link.is_none());
    let reply = message.reply_body("hi".to_string());
    assert_eq!(reply.link.expect("reply must link").mid, "mid.9");
    let forward = message.forward_body("fyi".to_string());
    assert_eq!(forward.link.expect("forward must link").mid, "mid.9");
}

fn fetch_window(log: &[i64], marker: Option<i64>, limit: usize) -> UpdateList {
    // A fake platform whose marker is an index into its event log.
    let start = marker.unwrap_or(0) as usize;
    let end = (start + limit).min(log.len());
    UpdateList {
        updates: log[start..end].iter().map(|id| message_created(*id)).collect(),
        marker: Some(end as i64),
    }
}

#[test]
fn restart_from_last_committed_marker_replays_without_gap() {
    let log: Vec<i64> = vec![1, 2, 3, 4, 5, 6];

    // First run: one batch of two is fetched and fully delivered, so the
    // marker commits at 2; the process then stops before anything more is
    // delivered.
    let mut poller = Poller::with_defaults();
    let mut queue = DeliveryQueue::new(100);
    let script = vec![Ok(fetch_window(&log, None, 2))];
    let (observed_before, _) = run_scripted(&mut poller, &mut queue, script);
    let stored_marker = poller.marker;
    assert_eq!(stored_marker, Some(2));

    // Restart with the stored marker and replay what the platform holds.
    let mut poller = Poller::with_defaults();
    poller.marker = stored_marker;
    let mut queue = DeliveryQueue::new(100);
    let script = vec![Ok(fetch_window(&log, poller.marker, 100))];
    let (observed_after, markers) = run_scripted(&mut poller, &mut queue, script);
    assert_eq!(markers, vec![Some(2)]);

    // Before and after the restart together cover the whole log in order:
    // at-least-once delivery, never a gap.
    let mut seen: Vec<i64> = observed_before.iter().map(created_id).collect();
    seen.extend(observed_after.iter().map(created_id));
    assert_eq!(seen, vec![1, 2, 3, 4, 5, 6]);
    assert_eq!(poller.marker, Some(6));
}

#[test]
fn unknown_update_kind_flows_through_the_pipeline() {
    let mut poller = Poller::with_defaults();
    let mut queue = DeliveryQueue::new(100);
    let script = vec![Ok(UpdateList {
        updates: vec![Update::Unknown, message_created(2)],
        marker: Some(1),
    })];
    let (delivered, _) = run_scripted(&mut poller, &mut queue, script);
    assert_eq!(delivered.len(), 2);
    assert!(matches!(delivered[0], Update::Unknown));
    assert!(matches!(&delivered[1], Update::MessageCreated(u) if u.timestamp == 2));
}

#[test]
fn decode_hiccups_below_the_limit_do_not_stop_the_loop() {
    let mut poller = Poller::with_defaults();
    let mut queue = DeliveryQueue::new(100);
    // Two consecutive decode failures stay below the default tolerance of
    // three, and a delivered batch resets the run.
    let script: Vec<Result<UpdateList, FetchError>> = vec![
        Ok(UpdateList {
            updates: vec![message_created(1)],
            marker: Some(4),
        }),
        Err(FetchError::Decode("unknown field".to_string())),
        Err(FetchError::Decode("unknown field".to_string())),
        Ok(UpdateList {
            updates: vec![message_created(2)],
            marker: Some(8),
        }),
        Err(FetchError::Decode("unknown field".to_string())),
    ];
    let (delivered, markers) = run_scripted(&mut poller, &mut queue, script);

    let ids: Vec<i64> = delivered.iter().map(created_id).collect();
    assert_eq!(ids, vec![1, 2]);
    assert_eq!(markers, vec![None, Some(4), Some(4), Some(4), Some(8)]);
    assert_eq!(poller.marker, Some(8));
    assert_eq!(poller.decode_failures, 1);
}
