use chat_core::history::{history_for_replay, order_history, replay_lines, text_before};
use chat_core::hub::Hub;
use chat_core::message::{format_line, ChatMessage};
use chat_core::session::{
    on_connect, resolve_name, step, validate_session, Action, Admission, ConnState, Event,
    Refusal, StorageUnavailable,
};

const STAMP: &str = "2024-03-05 09:07:01";

fn stored(id: i64, sender_id: i64, name: &str, content: &str, ts: &str) -> ChatMessage {
    ChatMessage {
        id,
        sender_id,
        sender_name: name.to_string(),
        content: content.to_string(),
        timestamp: ts.to_string(),
    }
}

fn lookup_token(token: &str) -> Result<Option<i64>, StorageUnavailable> {
    match token {
        "tok-A" => Ok(Some(1)),
        "tok-B" => Ok(Some(2)),
        _ => Ok(None),
    }
}

fn user_name(id: i64) -> Result<Option<String>, StorageUnavailable> {
    match id {
        1 => Ok(Some("alice".to_string())),
        2 => Ok(Some("bob".to_string())),
        _ => Ok(None),
    }
}

fn join_with(hub: &mut Hub, token: &str, history: Vec<ChatMessage>) -> Admission {
    let a = match on_connect(hub, lookup_token(token), Ok(history)) {
        Ok(a) => a,
        Err(_) => panic!("connection refused"),
    };
    a
}

/// Drives a text frame through persistence and naming, as the server loop
/// does, and returns the stamp the message was confirmed at.
fn send_text(hub: &mut Hub, conn: &mut chat_core::session::Connection, text: &str, store: &mut Vec<ChatMessage>) -> String {
    let act = step(hub, conn, Event::Text(text.to_string()));
    let content = match act {
        Action::Persist(c) => c,
        _ => panic!("expected a persist action"),
    };
    let act = step(hub, conn, Event::Stored { content, outcome: Ok(()) });
    let content = match act {
        Action::ResolveName(c) => c,
        _ => panic!("expected a name lookup"),
    };
    let stamp = conn.confirmed.last().unwrap().stamp.clone();
    assert_eq!(conn.confirmed.last().unwrap().content, content);
    let id = store.len() as i64 + 1;
    let name = user_name(conn.user_id).unwrap().unwrap();
    store.push(stored(id, conn.user_id, &name, &content, &stamp));
    let act = step(hub, conn, Event::Named { content, lookup: user_name(conn.user_id) });
    assert!(matches!(act, Action::Idle));
    assert!(conn.confirmed.is_empty());
    stamp
}

fn assert_stamp_shape(s: &str) {
    let b = s.as_bytes();
    assert_eq!(b.len(), 19);
    for (i, c) in b.iter().enumerate() {
        match i {
            4 | 7 => assert_eq!(*c, b'-'),
            10 => assert_eq!(*c, b' '),
            13 | 16 => assert_eq!(*c, b':'),
            _ => assert!(c.is_ascii_digit()),
        }
    }
}

#[test]
fn two_clients_and_a_late_joiner() {
    let mut hub = Hub::new();
    let mut store: Vec<ChatMessage> = Vec::new();
    let mut a = join_with(&mut hub, "tok-A", store.clone_all());
    let mut b = join_with(&mut hub, "tok-B", store.clone_all());
    assert_eq!(a.connection.user_id, 1);
    assert_eq!(b.connection.user_id, 2);
    assert_eq!(a.connection.state, ConnState::Authenticated);
    step(&mut hub, &mut a.connection, Event::Replayed);
    step(&mut hub, &mut b.connection, Event::Replayed);
    assert_eq!(a.connection.state, ConnState::Streaming);

    let ts = send_text(&mut hub, &mut a.connection, "hi", &mut store);
    assert_stamp_shape(&ts);
    let expected = format!("alice: hi      [{}]", ts);
    assert_eq!(hub.take_pending(a.connection.subscription), vec![expected.clone()]);
    assert_eq!(hub.take_pending(b.connection.subscription), vec![expected.clone()]);

    let mut c = join_with(&mut hub, "tok-B", store.clone_all());
    assert_eq!(c.replay, vec![expected.clone()]);
    assert!(hub.take_pending(c.connection.subscription).is_empty());
    step(&mut hub, &mut c.connection, Event::Replayed);
    let ts = send_text(&mut hub, &mut b.connection, "yo", &mut store);
    let live = format!("bob: yo      [{}]", ts);
    assert_eq!(hub.take_pending(c.connection.subscription), vec![live]);
}

trait CloneAll {
    fn clone_all(&self) -> Vec<ChatMessage>;
}

impl CloneAll for Vec<ChatMessage> {
    fn clone_all(&self) -> Vec<ChatMessage> {
        self.iter()
            .map(|m| stored(m.id, m.sender_id, &m.sender_name, &m.content, &m.timestamp))
            .collect()
    }
}

#[test]
fn garbage_token_is_unauthorized() {
    let mut hub = Hub::new();
    let _a = join_with(&mut hub, "tok-A", Vec::new());
    let before = hub.subscriber_count();
    let r = on_connect(&mut hub, lookup_token("garbage"), Ok(Vec::new()));
    assert!(matches!(r, Err(Refusal::Unauthorized)));
    assert_eq!(hub.subscriber_count(), before);
}

#[test]
fn failing_session_store_is_unauthorized() {
    let mut hub = Hub::new();
    let r = on_connect(&mut hub, Err(StorageUnavailable), Ok(Vec::new()));
    assert!(matches!(r, Err(Refusal::Unauthorized)));
    assert_eq!(hub.subscriber_count(), 0);
    assert_eq!(validate_session(Err(StorageUnavailable)), None);
    assert_eq!(validate_session(Ok(None)), None);
    assert_eq!(validate_session(Ok(Some(9))), Some(9));
}

#[test]
fn close_frame_leaves_other_client_running() {
    let mut hub = Hub::new();
    let mut store: Vec<ChatMessage> = Vec::new();
    let mut a = join_with(&mut hub, "tok-A", Vec::new());
    let mut b = join_with(&mut hub, "tok-B", Vec::new());
    step(&mut hub, &mut a.connection, Event::Replayed);
    step(&mut hub, &mut b.connection, Event::Replayed);
    let act = step(&mut hub, &mut a.connection, Event::Close);
    assert!(matches!(act, Action::AcknowledgeClose));
    assert_eq!(a.connection.state, ConnState::Closed);
    assert!(!hub.is_subscribed(a.connection.subscription));
    assert_eq!(hub.subscriber_count(), 1);
    let ts = send_text(&mut hub, &mut b.connection, "still here", &mut store);
    assert_eq!(
        hub.take_pending(b.connection.subscription),
        vec![format!("bob: still here      [{}]", ts)]
    );
    let act = step(&mut hub, &mut b.connection, Event::HubLine("x".to_string()));
    assert!(matches!(act, Action::Forward(ref l) if l == "x"));
    // A closed connection ignores further frames.
    let act = step(&mut hub, &mut a.connection, Event::Text("late".to_string()));
    assert!(matches!(act, Action::Idle));
}

#[test]
fn failed_append_keeps_session_and_hub() {
    let mut hub = Hub::new();
    let mut store: Vec<ChatMessage> = Vec::new();
    let mut a = join_with(&mut hub, "tok-A", Vec::new());
    let mut b = join_with(&mut hub, "tok-B", Vec::new());
    step(&mut hub, &mut a.connection, Event::Replayed);
    step(&mut hub, &mut b.connection, Event::Replayed);
    let act = step(
        &mut hub,
        &mut a.connection,
        Event::Stored { content: "lost".to_string(), outcome: Err(StorageUnavailable) },
    );
    assert!(matches!(act, Action::Idle));
    assert_eq!(a.connection.state, ConnState::Streaming);
    assert!(hub.take_pending(b.connection.subscription).is_empty());
    let ts = send_text(&mut hub, &mut b.connection, "mine", &mut store);
    assert_eq!(
        hub.take_pending(b.connection.subscription),
        vec![format!("bob: mine      [{}]", ts)]
    );
}

#[test]
fn send_failure_and_stream_end_close() {
    let mut hub = Hub::new();
    let mut a = join_with(&mut hub, "tok-A", Vec::new());
    step(&mut hub, &mut a.connection, Event::Replayed);
    let act = step(&mut hub, &mut a.connection, Event::SendFailed);
    assert!(matches!(act, Action::Release));
    assert_eq!(a.connection.state, ConnState::Closed);
    assert_eq!(hub.subscriber_count(), 0);

    let mut b = join_with(&mut hub, "tok-B", Vec::new());
    step(&mut hub, &mut b.connection, Event::Replayed);
    let act = step(&mut hub, &mut b.connection, Event::Malformed);
    assert!(matches!(act, Action::Idle));
    assert_eq!(b.connection.state, ConnState::Streaming);
    let act = step(&mut hub, &mut b.connection, Event::InboundEnded);
    assert!(matches!(act, Action::Release));
    assert_eq!(b.connection.state, ConnState::Closed);
}

#[test]
fn fan_out_only_after_subscribe() {
    let mut hub = Hub::new();
    let first = hub.subscribe().unwrap();
    hub.publish("early");
    let late = hub.subscribe().unwrap();
    hub.publish("later");
    hub.publish("last");
    assert_eq!(hub.take_pending(first), vec!["early", "later", "last"]);
    assert_eq!(hub.take_pending(late), vec!["later", "last"]);
    assert!(hub.take_pending(late).is_empty());
    assert!(hub.unsubscribe(first));
    assert!(!hub.unsubscribe(first));
    assert!(hub.take_pending(first).is_empty());
    assert_eq!(hub.subscriber_count(), 1);
}

#[test]
fn name_resolution_is_stable_with_fallback() {
    assert_eq!(resolve_name(user_name(1)), resolve_name(user_name(1)));
    assert_eq!(resolve_name(user_name(1)), "alice");
    assert_eq!(resolve_name(Ok(None)), "Анонім");
    assert_eq!(resolve_name(Err(StorageUnavailable)), "Анонім");
}

#[test]
fn history_is_replayed_in_creation_order() {
    let msgs = vec![
        stored(3, 1, "alice", "third", "2024-01-01 00:00:02"),
        stored(1, 2, "bob", "first", "2024-01-01 00:00:00"),
        stored(2, 1, "alice", "second", "2024-01-01 00:00:01"),
    ];
    let ordered = order_history(msgs);
    let ids: Vec<i64> = ordered.iter().map(|m| m.id).collect();
    assert_eq!(ids, vec![1, 2, 3]);
    assert_eq!(
        replay_lines(&ordered),
        vec![
            "bob: first      [2024-01-01 00:00:00]",
            "alice: second      [2024-01-01 00:00:01]",
            "alice: third      [2024-01-01 00:00:02]",
        ]
    );
    let r: Result<Vec<ChatMessage>, StorageUnavailable> = Err(StorageUnavailable);
    assert!(history_for_replay(r).is_empty());
    assert!(order_history(Vec::new()).is_empty());
}

#[test]
fn failed_history_still_admits() {
    let mut hub = Hub::new();
    let a = on_connect(&mut hub, Ok(Some(5)), Err(StorageUnavailable));
    match a {
        Ok(a) => {
            assert!(a.replay.is_empty());
            assert_eq!(a.connection.user_id, 5);
            assert!(hub.is_subscribed(a.connection.subscription));
        }
        Err(_) => panic!("history failure must not refuse the connection"),
    }
}

#[test]
fn line_shapes() {
    assert_eq!(format_line("alice", "hi", STAMP), "alice: hi      [2024-03-05 09:07:01]");
    assert_eq!(format_line("", "", ""), ":       []");
}

#[test]
fn only_confirmed_appends_are_published() {
    let mut hub = Hub::new();
    let mut a = join_with(&mut hub, "tok-A", Vec::new());
    step(&mut hub, &mut a.connection, Event::Replayed);
    let act = step(
        &mut hub,
        &mut a.connection,
        Event::Named { content: "ghost".to_string(), lookup: user_name(1) },
    );
    assert!(matches!(act, Action::Idle));
    assert!(hub.take_pending(a.connection.subscription).is_empty());
    let act = step(&mut hub, &mut a.connection, Event::Stored { content: "real".to_string(), outcome: Ok(()) });
    assert!(matches!(act, Action::ResolveName(ref c) if c == "real"));
    assert_eq!(a.connection.confirmed.len(), 1);
    let ts = a.connection.confirmed[0].stamp.clone();
    assert_stamp_shape(&ts);
    // A name for other content than the oldest confirmed one publishes nothing.
    step(&mut hub, &mut a.connection, Event::Named { content: "forged".to_string(), lookup: user_name(1) });
    assert_eq!(a.connection.confirmed.len(), 1);
    assert!(hub.take_pending(a.connection.subscription).is_empty());
    step(
        &mut hub,
        &mut a.connection,
        Event::Named { content: "real".to_string(), lookup: Err(StorageUnavailable) },
    );
    assert!(a.connection.confirmed.is_empty());
    assert_eq!(
        hub.take_pending(a.connection.subscription),
        vec![format!("Анонім: real      [{}]", ts)]
    );
}

#[test]
fn confirmed_messages_publish_oldest_first() {
    let mut hub = Hub::new();
    let mut a = join_with(&mut hub, "tok-A", Vec::new());
    step(&mut hub, &mut a.connection, Event::Replayed);
    step(&mut hub, &mut a.connection, Event::Stored { content: "one".to_string(), outcome: Ok(()) });
    step(&mut hub, &mut a.connection, Event::Stored { content: "two".to_string(), outcome: Ok(()) });
    let ts1 = a.connection.confirmed[0].stamp.clone();
    let ts2 = a.connection.confirmed[1].stamp.clone();
    step(&mut hub, &mut a.connection, Event::Named { content: "two".to_string(), lookup: user_name(1) });
    assert!(hub.take_pending(a.connection.subscription).is_empty());
    step(&mut hub, &mut a.connection, Event::Named { content: "one".to_string(), lookup: user_name(1) });
    step(&mut hub, &mut a.connection, Event::Named { content: "two".to_string(), lookup: user_name(1) });
    assert_eq!(
        hub.take_pending(a.connection.subscription),
        vec![format!("alice: one      [{}]", ts1), format!("alice: two      [{}]", ts2)]
    );
}

#[test]
fn hub_lines_before_replay_are_dropped() {
    let mut hub = Hub::new();
    let mut a = join_with(&mut hub, "tok-A", Vec::new());
    let act = step(&mut hub, &mut a.connection, Event::HubLine("early".to_string()));
    assert!(matches!(act, Action::Idle));
    hub.publish("queued");
    step(&mut hub, &mut a.connection, Event::Replayed);
    assert_eq!(hub.take_pending(a.connection.subscription), vec!["queued"]);
}

#[test]
fn frames_before_replay_are_ignored() {
    let mut hub = Hub::new();
    let mut a = join_with(&mut hub, "tok-A", Vec::new());
    let act = step(&mut hub, &mut a.connection, Event::Text("early".to_string()));
    assert!(matches!(act, Action::Idle));
    assert_eq!(a.connection.state, ConnState::Authenticated);
    let act = step(&mut hub, &mut a.connection, Event::Close);
    assert!(matches!(act, Action::AcknowledgeClose));
    assert_eq!(hub.subscriber_count(), 0);
}

#[test]
fn equal_timestamps_are_ordered_by_id() {
    let msgs = vec![
        stored(9, 1, "alice", "b", "2024-01-01 00:00:05"),
        stored(4, 1, "alice", "a", "2024-01-01 00:00:05"),
        stored(2, 2, "bob", "late id, early time", "2023-12-31 23:59:59"),
        stored(4, 2, "bob", "same key keeps place", "2024-01-01 00:00:05"),
    ];
    let ordered = order_history(msgs);
    let contents: Vec<&str> = ordered.iter().map(|m| m.content.as_str()).collect();
    assert_eq!(contents, vec!["late id, early time", "a", "same key keeps place", "b"]);
}

#[test]
fn ordered_history_is_kept_as_is() {
    let msgs = vec![
        stored(1, 1, "alice", "x", "2024-01-01 00:00:00"),
        stored(2, 2, "bob", "y", "2024-01-01 00:00:00"),
        stored(3, 1, "alice", "z", "2024-01-02 00:00:00"),
    ];
    let lines = history_for_replay::<StorageUnavailable>(Ok(msgs));
    assert_eq!(
        lines,
        vec![
            "alice: x      [2024-01-01 00:00:00]",
            "bob: y      [2024-01-01 00:00:00]",
            "alice: z      [2024-01-02 00:00:00]",
        ]
    );
}

#[test]
fn text_order() {
    assert!(text_before("2024-01-01 00:00:00", "2024-01-01 00:00:01"));
    assert!(!text_before("2024-01-01 00:00:01", "2024-01-01 00:00:00"));
    assert!(!text_before("same", "same"));
    assert!(text_before("ab", "abc"));
    assert!(!text_before("abc", "ab"));
    assert!(text_before("", "a"));
    assert!(!text_before("", ""));
}
