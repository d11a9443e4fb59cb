use rapi_chat::compaction::should_compact;
use rapi_chat::transcript::{load_full_messages, load_last_messages, save_message, session_len, TranscriptStore};
use rapi_chat::turn::{ChatMessage, Role};

fn turn(session: &str, role: Role, content: &str, ts: i64) -> ChatMessage {
    ChatMessage::new(session.to_string(), role, content.to_string(), ts)
}

#[test]
fn unknown_session_loads_empty() {
    let store = TranscriptStore::new();
    assert!(load_full_messages(&store, "nobody").is_empty());
    assert!(load_last_messages(&store, "nobody", 15).is_empty());
    assert_eq!(session_len(&store, "nobody"), 0);
}

#[test]
fn load_all_is_time_ordered_whatever_the_write_order() {
    let mut store = TranscriptStore::new();
    save_message(&mut store, turn("s", Role::User, "c", 30));
    save_message(&mut store, turn("s", Role::User, "a", 10));
    save_message(&mut store, turn("s", Role::Assistant, "b", 20));
    save_message(&mut store, turn("s", Role::User, "d", 40));
    let all = load_full_messages(&store, "s");
    let stamps: Vec<i64> = all.iter().map(|m| m.timestamp).collect();
    assert_eq!(stamps, vec![10, 20, 30, 40]);
    let texts: Vec<&str> = all.iter().map(|m| m.content.as_str()).collect();
    assert_eq!(texts, vec!["a", "b", "c", "d"]);
}

#[test]
fn equal_timestamps_keep_insertion_order() {
    let mut store = TranscriptStore::new();
    save_message(&mut store, turn("s", Role::User, "first", 5));
    save_message(&mut store, turn("s", Role::Assistant, "second", 5));
    save_message(&mut store, turn("s", Role::User, "third", 5));
    let all = load_full_messages(&store, "s");
    let texts: Vec<&str> = all.iter().map(|m| m.content.as_str()).collect();
    assert_eq!(texts, vec!["first", "second", "third"]);
}

#[test]
fn append_then_load_round_trips() {
    let mut store = TranscriptStore::new();
    save_message(&mut store, turn("s", Role::User, "earlier", 1));
    save_message(&mut store, turn("s", Role::Assistant, "สวัสดีค่ะ", 7));
    let all = load_full_messages(&store, "s");
    assert_eq!(all.len(), 2);
    let last = &all[1];
    assert_eq!(last.session_id, "s");
    assert_eq!(last.role, Role::Assistant);
    assert_eq!(last.content, "สวัสดีค่ะ");
    assert_eq!(last.timestamp, 7);
}

#[test]
fn sessions_are_kept_apart() {
    let mut store = TranscriptStore::new();
    save_message(&mut store, turn("a", Role::User, "to a", 1));
    save_message(&mut store, turn("b", Role::User, "to b", 2));
    save_message(&mut store, turn("a", Role::Assistant, "from a", 3));
    assert_eq!(session_len(&store, "a"), 2);
    assert_eq!(session_len(&store, "b"), 1);
    assert_eq!(load_full_messages(&store, "b")[0].content, "to b");
}

#[test]
fn tail_returns_the_latest_turns_in_order() {
    let mut store = TranscriptStore::new();
    for i in 0..20 {
        save_message(&mut store, turn("s", Role::User, &format!("m{}", i), i));
    }
    let tail = load_last_messages(&store, "s", 15);
    assert_eq!(tail.len(), 15);
    assert_eq!(tail[0].content, "m5");
    assert_eq!(tail[14].content, "m19");
    let short = load_last_messages(&store, "s", 50);
    assert_eq!(short.len(), 20);
    assert!(load_last_messages(&store, "s", 0).is_empty());
}

#[test]
fn compaction_starts_above_fifty_turns() {
    let mut store = TranscriptStore::new();
    for i in 0..50 {
        save_message(&mut store, turn("s", Role::User, "x", i));
        assert!(!should_compact(&store, "s", 50));
    }
    save_message(&mut store, turn("s", Role::User, "x", 50));
    assert_eq!(session_len(&store, "s"), 51);
    assert!(should_compact(&store, "s", 50));
    assert!(!should_compact(&store, "other", 50));
}
