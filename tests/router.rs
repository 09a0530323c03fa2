use chat_backend::ident::format_id;
use chat_backend::presence::PresenceRegistry;
use chat_backend::router::{
    check_inbound, handle_client_message, parse_inbound, render_error, render_message,
    route_inbound, FrameError, RouteError,
};
use chat_backend::store::{ConversationStore, Message, StoreError};
use tokio::sync::mpsc::{unbounded_channel, UnboundedReceiver};

const A: u128 = 0x0a0a0a0a_0a0a_4a0a_8a0a_0a0a0a0a0a0a;
const B: u128 = 0x0b0b0b0b_0b0b_4b0b_8b0b_0b0b0b0b0b0b;
const C: u128 = 0x0c0c0c0c_0c0c_4c0c_8c0c_0c0c0c0c0c0c;

fn frame_to(receiver: u128, content: &str) -> String {
    format!(r#"{{"receiver_id":"{}","content":"{}"}}"#, format_id(receiver), content)
}

fn drain(rx: &mut UnboundedReceiver<String>) -> Vec<String> {
    let mut out = Vec::new();
    while let Ok(s) = rx.try_recv() {
        out.push(s);
    }
    out
}

fn field(frame: &str, key: &str) -> serde_json::Value {
    let v: serde_json::Value = serde_json::from_str(frame).unwrap();
    v.get(key).cloned().unwrap_or(serde_json::Value::Null)
}

#[test]
fn both_online_receive_the_message_and_the_echo() {
    let mut store = ConversationStore::new();
    store.set_participant_name(A, "Alice".to_string());
    let mut reg = PresenceRegistry::new();
    let (ta, mut ra) = unbounded_channel::<String>();
    let (tb, mut rb) = unbounded_channel::<String>();
    reg.register(A, 1, ta);
    reg.register(B, 2, tb);

    let d = handle_client_message(&mut store, &reg, A, &frame_to(B, "hi")).unwrap();
    assert_eq!(d.to_receiver, Some(2));
    assert_eq!(d.to_sender, Some(1));

    let got_b = drain(&mut rb);
    let got_a = drain(&mut ra);
    assert_eq!(got_b.len(), 1);
    assert_eq!(got_a.len(), 1);
    assert_eq!(got_a[0], got_b[0]);
    assert_eq!(got_b[0], d.frame);
    assert_eq!(field(&got_b[0], "type"), "message");
    assert_eq!(field(&got_b[0], "content"), "hi");
    assert_eq!(field(&got_b[0], "sender_id"), format_id(A).as_str());
    assert_eq!(field(&got_b[0], "sender_name"), "Alice");
    assert_eq!(field(&got_b[0], "id"), format_id(d.message.id).as_str());
    assert_eq!(field(&got_b[0], "conv_id"), format_id(d.message.conv_id).as_str());

    let conv = store.find_conversation(A, B).unwrap();
    assert_eq!(conv, d.message.conv_id);
    let h = store.history(conv);
    assert_eq!(h.len(), 1);
    assert_eq!(h[0].id, d.message.id);
    assert_eq!(h[0].content, "hi");
}

#[test]
fn offline_receiver_still_gets_the_message_stored() {
    let mut store = ConversationStore::new();
    let mut reg = PresenceRegistry::new();
    let (ta, mut ra) = unbounded_channel::<String>();
    reg.register(A, 1, ta);

    let d = handle_client_message(&mut store, &reg, A, &frame_to(C, "are you there")).unwrap();
    assert_eq!(d.to_receiver, None);
    assert_eq!(d.to_sender, Some(1));
    let echo = drain(&mut ra);
    assert_eq!(echo.len(), 1);
    assert_eq!(field(&echo[0], "type"), "message");
    assert_eq!(field(&echo[0], "sender_name"), serde_json::Value::Null);

    let conv = store.find_conversation(A, C).unwrap();
    let h = store.history(conv);
    assert_eq!(h.len(), 1);
    assert_eq!(h[0].content, "are you there");
    assert_eq!(h[0].sender_id, A);
}

#[test]
fn sender_offline_still_delivers_to_receiver() {
    let mut store = ConversationStore::new();
    let mut reg = PresenceRegistry::new();
    let (tb, mut rb) = unbounded_channel::<String>();
    reg.register(B, 5, tb);
    let d = handle_client_message(&mut store, &reg, A, &frame_to(B, "hey")).unwrap();
    assert_eq!(d.to_receiver, Some(5));
    assert_eq!(d.to_sender, None);
    assert_eq!(drain(&mut rb).len(), 1);
}

#[test]
fn two_messages_arrive_in_store_order() {
    let mut store = ConversationStore::new();
    let mut reg = PresenceRegistry::new();
    let (tb, mut rb) = unbounded_channel::<String>();
    reg.register(B, 2, tb);

    let d1 = handle_client_message(&mut store, &reg, A, &frame_to(B, "first")).unwrap();
    let d2 = handle_client_message(&mut store, &reg, A, &frame_to(B, "second")).unwrap();
    let got = drain(&mut rb);
    assert_eq!(got.len(), 2);
    assert_eq!(field(&got[0], "content"), "first");
    assert_eq!(field(&got[1], "content"), "second");
    assert_eq!(field(&got[0], "id"), format_id(d1.message.id).as_str());
    assert_eq!(field(&got[1], "id"), format_id(d2.message.id).as_str());
    assert!(d1.message.sent_at <= d2.message.sent_at);
    let h = store.history(d1.message.conv_id);
    assert_eq!(h.len(), 2);
    assert_eq!(h[0].id, d1.message.id);
    assert_eq!(h[1].id, d2.message.id);
}

fn refused(text: &str) -> (RouteError, ConversationStore) {
    let mut store = ConversationStore::new();
    let reg = PresenceRegistry::new();
    let e = match handle_client_message(&mut store, &reg, A, text) {
        Err(e) => e,
        Ok(_) => panic!("frame was accepted"),
    };
    (e, store)
}

#[test]
fn missing_receiver_is_refused() {
    let (e, store) = refused(r#"{"content":"hi"}"#);
    assert_eq!(e, RouteError::Frame(FrameError::MissingReceiver));
    assert_eq!(store.find_conversation(A, B), None);
    assert_eq!(
        render_error(&e),
        r#"{"message":"Bad request: Missing receiver_id","type":"error"}"#
    );
}

#[test]
fn non_uuid_receiver_is_refused() {
    let (e, _) = refused(r#"{"receiver_id":"not-a-uuid","content":"hi"}"#);
    assert_eq!(e, RouteError::Frame(FrameError::MissingReceiver));
    assert_eq!(
        render_error(&e),
        r#"{"message":"Bad request: Missing receiver_id","type":"error"}"#
    );
}

#[test]
fn empty_content_is_refused() {
    let (e, store) = refused(&frame_to(B, ""));
    assert_eq!(e, RouteError::Frame(FrameError::EmptyContent));
    assert_eq!(store.find_conversation(A, B), None);
}

#[test]
fn missing_content_is_refused() {
    let text = format!(r#"{{"receiver_id":"{}"}}"#, format_id(B));
    let (e, _) = refused(&text);
    assert_eq!(e, RouteError::Frame(FrameError::MissingContent));
}

#[test]
fn invalid_json_is_refused() {
    let (e, _) = refused("{receiver_id: nope");
    assert_eq!(e, RouteError::Frame(FrameError::InvalidFormat));
    assert_eq!(
        render_error(&e),
        r#"{"message":"Bad request: Invalid message format","type":"error"}"#
    );
}

#[test]
fn store_error_frame_text() {
    let e = RouteError::Store(StoreError::DuplicateId);
    assert_eq!(e.message(), "Database error: identifier already in use");
}

#[test]
fn inbound_frame_is_read() {
    let i = parse_inbound(&frame_to(C, "yo")).unwrap();
    assert_eq!(i.receiver_id, C);
    assert_eq!(i.content, "yo");
    assert!(matches!(parse_inbound(r#"{"receiver_id":5,"content":"x"}"#), Err(FrameError::MissingReceiver)));
    assert!(matches!(parse_inbound("[1,2]"), Err(FrameError::MissingReceiver)));
}

#[test]
fn message_frame_is_rendered_exactly() {
    let m = Message {
        id: 0x0123_4567_89ab_cdef_0123_4567_89ab_cdef,
        conv_id: 0xffff_ffff_0000_4000_8000_0000_0000_0001,
        sender_id: 0x0000_0000_0000_0000_0000_0000_0000_0000,
        content: "say \"hi\"\n".to_string(),
        sent_at: 1_500_000,
    };
    let r = render_message(&m, &Some("Al".to_string()));
    assert_eq!(
        r,
        [
            r#"{"content":"say \"hi\"\n","#,
            r#""conv_id":"ffffffff-0000-4000-8000-000000000001","#,
            r#""id":"01234567-89ab-cdef-0123-456789abcdef","#,
            r#""sender_id":"00000000-0000-0000-0000-000000000000","#,
            r#""sender_name":"Al","#,
            r#""sent_at":"1970-01-01T00:00:01.500Z","#,
            r#""type":"message"}"#,
        ]
        .join("")
    );
    let r = render_message(&m, &None);
    assert!(r.contains(r#""sender_name":null,"#));
}

#[test]
fn message_to_self_is_pushed_twice_to_the_same_connection() {
    let mut store = ConversationStore::new();
    let mut reg = PresenceRegistry::new();
    let (ta, mut ra) = unbounded_channel::<String>();
    reg.register(A, 1, ta);
    let d = handle_client_message(&mut store, &reg, A, &frame_to(A, "note to self")).unwrap();
    assert_eq!(d.to_receiver, Some(1));
    assert_eq!(d.to_sender, Some(1));
    let got = drain(&mut ra);
    assert_eq!(got.len(), 2);
    assert_eq!(got[0], got[1]);
    let conv = store.find_conversation(A, A).unwrap();
    assert_eq!(store.history(conv).len(), 1);
}

#[test]
fn failed_frame_leaves_other_connections_alone() {
    let mut store = ConversationStore::new();
    let mut reg = PresenceRegistry::new();
    let (tb, mut rb) = unbounded_channel::<String>();
    let (ta, mut ra) = unbounded_channel::<String>();
    reg.register(A, 1, ta);
    reg.register(B, 2, tb);
    let text = format!(r#"{{"receiver_id":"{}","content":""}}"#, format_id(B));
    assert!(handle_client_message(&mut store, &reg, A, &text).is_err());
    assert!(drain(&mut rb).is_empty());
    assert!(drain(&mut ra).is_empty());
    assert_eq!(store.find_conversation(A, B), None);
}

#[test]
fn inbound_decision_from_members() {
    let some = |s: &str| Some(Some(s.to_string()));
    let ok = check_inbound(some("x"), Some(B), some("hi")).unwrap();
    assert_eq!(ok.receiver_id, B);
    assert_eq!(ok.content, "hi");
    assert_eq!(check_inbound(None, None, None).err(), Some(FrameError::InvalidFormat));
    assert_eq!(check_inbound(Some(None), None, some("hi")).err(), Some(FrameError::MissingReceiver));
    assert_eq!(check_inbound(some("nope"), None, some("hi")).err(), Some(FrameError::MissingReceiver));
    assert_eq!(check_inbound(some("x"), Some(B), Some(None)).err(), Some(FrameError::MissingContent));
    assert_eq!(check_inbound(some("x"), Some(B), some("")).err(), Some(FrameError::EmptyContent));
}

#[test]
fn routing_with_given_draws_is_exact() {
    let mut store = ConversationStore::new();
    let mut reg = PresenceRegistry::new();
    let (tb, mut rb) = unbounded_channel::<String>();
    reg.register(B, 2, tb);
    let d = route_inbound(&mut store, &reg, A, &frame_to(B, "hi"), 77, 88, 1_000).unwrap();
    assert_eq!(d.message.id, 88);
    assert_eq!(d.message.conv_id, 77);
    assert_eq!(d.message.sent_at, 1_000);
    assert_eq!(store.find_conversation(B, A), Some(77));
    assert_eq!(drain(&mut rb), vec![d.frame.clone()]);
    assert!(d.frame.contains(r#""sent_at":"1970-01-01T00:00:00.001Z""#));

    // the pair exists: the conversation draw is not used; the clock never goes back
    let d2 = route_inbound(&mut store, &reg, B, &frame_to(A, "yo"), 5, 89, 500).unwrap();
    assert_eq!(d2.message.conv_id, 77);
    assert_eq!(d2.message.sent_at, 1_000);

    // a taken message id is refused and nothing is stored
    let e = route_inbound(&mut store, &reg, A, &frame_to(B, "again"), 6, 88, 2_000);
    assert!(matches!(e, Err(RouteError::Store(StoreError::DuplicateId))));
    assert_eq!(store.history(77).len(), 2);

    // a taken conversation id for a new pair is refused
    let e = route_inbound(&mut store, &reg, A, &frame_to(C, "new"), 77, 90, 2_000);
    assert!(matches!(e, Err(RouteError::Store(StoreError::DuplicateId))));
    assert_eq!(store.find_conversation(A, C), None);
}

#[test]
fn control_characters_are_escaped_in_frames() {
    let m = Message {
        id: 1,
        conv_id: 2,
        sender_id: 3,
        content: "a\tb\u{1}c\\".to_string(),
        sent_at: 0,
    };
    let r = render_message(&m, &Some("Q\"".to_string()));
    assert!(r.starts_with(r#"{"content":"a\tb\u0001c\\","#));
    assert!(r.contains(r#""sender_name":"Q\"","#));
    assert!(r.contains(r#""sent_at":"1970-01-01T00:00:00Z","#));
}
