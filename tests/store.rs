use chat_backend::errors::AppError;
use chat_backend::store::{get_conversations, get_messages, ConversationStore, StoreError};

const A: u128 = 0x1111_1111_1111_4111_8111_1111_1111_1111;
const B: u128 = 0x2222_2222_2222_4222_8222_2222_2222_2222;
const C: u128 = 0x3333_3333_3333_4333_8333_3333_3333_3333;

#[test]
fn conversation_is_created_once_per_pair() {
    let mut store = ConversationStore::new();
    let first = store.get_or_create_conversation(A, B).unwrap();
    let again = store.get_or_create_conversation(A, B).unwrap();
    let reversed = store.get_or_create_conversation(B, A).unwrap();
    assert_eq!(first, again);
    assert_eq!(first, reversed);
    assert_eq!(store.find_conversation(B, A), Some(first));
    let other = store.get_or_create_conversation(A, C).unwrap();
    assert_ne!(other, first);
    assert_eq!(store.find_conversation(B, C), None);
}

#[test]
fn conversation_survives_many_messages() {
    let mut store = ConversationStore::new();
    let conv = store.get_or_create_conversation(A, B).unwrap();
    for i in 0..5 {
        let sender = if i % 2 == 0 { A } else { B };
        let c = store.get_or_create_conversation(sender, if sender == A { B } else { A }).unwrap();
        assert_eq!(c, conv);
        store.save_message(c, sender, "ping").unwrap();
    }
    assert_eq!(store.find_conversation(A, B), Some(conv));
    assert_eq!(store.history(conv).len(), 5);
}

#[test]
fn history_keeps_creation_order() {
    let mut store = ConversationStore::new();
    let ab = store.get_or_create_conversation(A, B).unwrap();
    let ac = store.get_or_create_conversation(A, C).unwrap();
    let m1 = store.save_message(ab, A, "one").unwrap();
    let m2 = store.save_message(ac, A, "elsewhere").unwrap();
    let m3 = store.save_message(ab, B, "two").unwrap();
    let m4 = store.save_message(ab, A, "three").unwrap();
    let h = store.history(ab);
    let contents: Vec<&str> = h.iter().map(|m| m.content.as_str()).collect();
    assert_eq!(contents, vec!["one", "two", "three"]);
    let ids: Vec<u128> = h.iter().map(|m| m.id).collect();
    assert_eq!(ids, vec![m1.id, m3.id, m4.id]);
    assert_ne!(m1.id, m3.id);
    assert_ne!(m3.id, m4.id);
    assert_ne!(m1.id, m4.id);
    assert!(h[0].sent_at <= h[1].sent_at && h[1].sent_at <= h[2].sent_at);
    assert!(m2.sent_at >= m1.sent_at && m3.sent_at >= m2.sent_at);
    assert_eq!(h[1].sender_id, B);
    assert_eq!(h[1].conv_id, ab);
    assert_eq!(store.history(ac).len(), 1);
}

#[test]
fn history_reads_the_same_twice() {
    let mut store = ConversationStore::new();
    let ab = store.get_or_create_conversation(A, B).unwrap();
    store.save_message(ab, A, "x").unwrap();
    store.save_message(ab, B, "y").unwrap();
    let h1: Vec<(u128, i64)> = store.history(ab).iter().map(|m| (m.id, m.sent_at)).collect();
    let h2: Vec<(u128, i64)> = store.history(ab).iter().map(|m| (m.id, m.sent_at)).collect();
    assert_eq!(h1, h2);
}

#[test]
fn message_to_unknown_conversation_is_refused() {
    let mut store = ConversationStore::new();
    let r = store.save_message(12345, A, "lost");
    assert!(matches!(r, Err(StoreError::UnknownConversation)));
    assert_eq!(store.history(12345).len(), 0);
}

#[test]
fn participant_names_are_recorded() {
    let mut store = ConversationStore::new();
    assert_eq!(store.participant_name(A), None);
    store.set_participant_name(A, "Alice".to_string());
    assert_eq!(store.participant_name(A), Some("Alice".to_string()));
    assert_eq!(store.participant_name(B), None);
}

#[test]
fn store_error_messages() {
    assert_eq!(StoreError::UnknownConversation.message(), "conversation not found");
    assert_eq!(StoreError::DuplicateId.message(), "identifier already in use");
}

#[test]
fn messages_are_read_by_participants_only() {
    let mut store = ConversationStore::new();
    let ab = store.get_or_create_conversation(A, B).unwrap();
    store.save_message(ab, A, "one").unwrap();
    store.save_message(ab, B, "two").unwrap();
    let seen = get_messages(&store, B, ab).unwrap();
    let contents: Vec<&str> = seen.iter().map(|m| m.content.as_str()).collect();
    assert_eq!(contents, vec!["one", "two"]);
    assert!(matches!(get_messages(&store, C, ab), Err(AppError::Forbidden)));
    assert!(matches!(get_messages(&store, A, 999), Err(AppError::Forbidden)));
}

#[test]
fn conversation_list_shows_other_user_and_latest_message() {
    let mut store = ConversationStore::new();
    store.set_participant_name(B, "Bob".to_string());
    let ab = store.get_or_create_conversation(A, B).unwrap();
    let ca = store.get_or_create_conversation(C, A).unwrap();
    let _bc = store.get_or_create_conversation(B, C).unwrap();
    store.save_message(ab, A, "first").unwrap();
    let last = store.save_message(ab, B, "latest").unwrap();

    let list = get_conversations(&store, A);
    assert_eq!(list.len(), 2);
    assert_eq!(list[0].id, ab);
    assert_eq!(list[0].other_user_id, B);
    assert_eq!(list[0].other_user_name, Some("Bob".to_string()));
    assert_eq!(list[0].last_message, Some("latest".to_string()));
    assert_eq!(list[0].last_message_time, Some(last.sent_at));
    assert_eq!(list[0].last_updated, last.sent_at);
    assert_eq!(list[1].id, ca);
    assert_eq!(list[1].other_user_id, C);
    assert_eq!(list[1].other_user_name, None);
    assert_eq!(list[1].last_message, None);
    assert_eq!(list[1].last_message_time, None);
    assert_eq!(get_conversations(&store, 0x42).len(), 0);
}

#[test]
fn drawn_identifiers_are_used_or_refused() {
    let mut store = ConversationStore::new();
    assert_eq!(store.get_or_create_conversation_with(A, B, 10, 100), Ok(10));
    assert_eq!(store.get_or_create_conversation_with(B, A, 11, 100), Ok(10));
    assert_eq!(store.get_or_create_conversation_with(A, C, 10, 100), Err(StoreError::DuplicateId));
    assert_eq!(store.find_conversation(A, C), None);

    let m = store.append_message(20, 50, 10, A, "hello").unwrap();
    assert_eq!((m.id, m.conv_id, m.sender_id, m.sent_at), (20, 10, A, 100));
    assert_eq!(m.content, "hello");
    let m2 = store.append_message(21, 300, 10, B, "later").unwrap();
    assert_eq!(m2.sent_at, 300);
    assert!(matches!(store.append_message(20, 400, 10, A, "dup"), Err(StoreError::DuplicateId)));
    assert!(matches!(store.append_message(22, 400, 99, A, "lost"), Err(StoreError::UnknownConversation)));
    assert_eq!(store.history(10).len(), 2);
}
