use maxbot::models::{MessageLinkType, NewMessageBody, TextFormat};
use maxbot::query::{
    chat_path, chats_query, i64_to_string, join_types, message_id_query, message_path,
    send_message_query, u64_to_string, updates_query, url_query, with_access_token,
};

#[test]
fn decimal_rendering_matches_expected_strings() {
    assert_eq!(u64_to_string(0), "0");
    assert_eq!(u64_to_string(7), "7");
    assert_eq!(u64_to_string(12345), "12345");
    assert_eq!(u64_to_string(u64::MAX), "18446744073709551615");
    assert_eq!(i64_to_string(0), "0");
    assert_eq!(i64_to_string(42), "42");
    assert_eq!(i64_to_string(-1), "-1");
    assert_eq!(i64_to_string(-987654), "-987654");
    assert_eq!(i64_to_string(i64::MAX), "9223372036854775807");
    assert_eq!(i64_to_string(i64::MIN), "-9223372036854775808");
}

#[test]
fn type_filter_joins_with_commas() {
    assert_eq!(join_types(&vec![]), "");
    assert_eq!(join_types(&vec!["message_created".to_string()]), "message_created");
    assert_eq!(
        join_types(&vec![
            "message_created".to_string(),
            "message_edited".to_string(),
            "bot_started".to_string(),
        ]),
        "message_created,message_edited,bot_started"
    );
}

#[test]
fn updates_query_holds_only_present_parameters() {
    let pairs = updates_query(Some(100), Some(30), Some(5), &None);
    assert_eq!(
        pairs,
        vec![
            ("limit".to_string(), "100".to_string()),
            ("timeout".to_string(), "30".to_string()),
            ("marker".to_string(), "5".to_string()),
        ]
    );

    let none = updates_query(None, None, None, &None);
    assert!(none.is_empty());

    let filtered = updates_query(
        None,
        None,
        None,
        &Some(vec!["message_created".to_string(), "message_removed".to_string()]),
    );
    assert_eq!(
        filtered,
        vec![("types".to_string(), "message_created,message_removed".to_string())]
    );
}

#[test]
fn chats_and_message_queries_render_identifiers() {
    assert_eq!(
        chats_query(Some(50), Some(-3)),
        vec![
            ("count".to_string(), "50".to_string()),
            ("marker".to_string(), "-3".to_string()),
        ]
    );
    assert_eq!(chats_query(None, None), vec![]);
    assert_eq!(
        send_message_query(Some(123), None),
        vec![("chat_id".to_string(), "123".to_string())]
    );
    assert_eq!(
        send_message_query(None, Some(9)),
        vec![("user_id".to_string(), "9".to_string())]
    );
    assert_eq!(
        message_id_query("mid.77"),
        vec![("message_id".to_string(), "mid.77".to_string())]
    );
    assert_eq!(
        url_query("https://example.test/hook"),
        vec![("url".to_string(), "https://example.test/hook".to_string())]
    );
}

#[test]
fn access_token_goes_first() {
    let pairs = with_access_token(
        "token123",
        vec![("marker".to_string(), "5".to_string())],
    );
    assert_eq!(
        pairs,
        vec![
            ("access_token".to_string(), "token123".to_string()),
            ("marker".to_string(), "5".to_string()),
        ]
    );
}

#[test]
fn resource_paths_embed_identifiers() {
    assert_eq!(chat_path(42), "/chats/42");
    assert_eq!(chat_path(-1), "/chats/-1");
    assert_eq!(message_path("mid.abc"), "/messages/mid.abc");
}

#[test]
fn new_message_body_defaults() {
    let body = NewMessageBody::new("hello".to_string());
    assert_eq!(body.text, Some("hello".to_string()));
    assert!(body.attachments.is_none());
    assert!(body.link.is_none());
    assert_eq!(body.notify, Some(false));
    assert!(matches!(body.format, Some(TextFormat::Markdown)));
}

#[test]
fn set_notify_changes_only_the_flag() {
    let mut body = NewMessageBody::new("hello".to_string());
    body.set_notify(true);
    assert_eq!(body.notify, Some(true));
    assert_eq!(body.text, Some("hello".to_string()));
    assert!(body.link.is_none());
}

#[test]
fn linked_bodies_carry_the_source_message_id() {
    let forward = NewMessageBody::with_link(
        "see this".to_string(),
        MessageLinkType::Forward,
        "mid.5".to_string(),
    );
    let link = forward.link.expect("forward body must carry a link");
    assert!(matches!(link.link_type, MessageLinkType::Forward));
    assert_eq!(link.mid, "mid.5");

    let reply = NewMessageBody::with_link(
        "agreed".to_string(),
        MessageLinkType::Reply,
        "mid.6".to_string(),
    );
    let link = reply.link.expect("reply body must carry a link");
    assert!(matches!(link.link_type, MessageLinkType::Reply));
    assert_eq!(link.mid, "mid.6");
}
