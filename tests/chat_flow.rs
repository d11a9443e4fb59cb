use rapi_chat::compaction::summary_from_reply;
use rapi_chat::completion::{interpret_completion, ProviderReply};
use rapi_chat::context::{ContentItem, MessageRequest, PERSONA};
use rapi_chat::flow::{next_action, ChatAction, ChatProgress, MemoryConfig};
use rapi_chat::recall::{recalled_turns, RecalledPoint};
use rapi_chat::transcript::{load_full_messages, load_last_messages, save_message, TranscriptStore};
use rapi_chat::turn::{ChatMessage, Role};
use rapi_chat::writeback::{WritebackJob, WritebackStep};

fn texts(m: &MessageRequest) -> Vec<String> {
    m.content
        .iter()
        .map(|c| match c {
            ContentItem::Text { text } => text.clone(),
            ContentItem::ImageUrl { image_url } => format!("image:{}", image_url.url),
        })
        .collect()
}

/// Runs a request against an in-memory store and a scripted provider; returns
/// the context sent for completion and the summarisation requests made.
fn run_request(
    store: &TranscriptStore,
    session: &str,
    text: &str,
    points: Vec<RecalledPoint>,
    image: Option<(String, Option<Vec<u8>>)>,
) -> (Vec<MessageRequest>, usize) {
    let config = MemoryConfig::standard();
    let mut progress = ChatProgress::new(
        session.to_string(),
        text.to_string(),
        image.as_ref().map(|(p, _)| p.clone()),
    );
    let mut summaries = 0;
    for _ in 0..10 {
        match next_action(&progress, &config) {
            ChatAction::EmbedQuery { text: t } => {
                assert_eq!(t, text);
                progress.embedded = true;
            }
            ChatAction::LoadTranscript { session_id } => {
                progress.transcript = Some(load_full_messages(store, &session_id));
            }
            ChatAction::Summarize { messages } => {
                assert_eq!(messages.len(), 2);
                summaries += 1;
                let summary = summary_from_reply(ProviderReply::Choices(vec!["a summary".to_string()]));
                progress.summary = Some(summary.unwrap());
            }
            ChatAction::LoadTail { session_id, limit } => {
                assert_eq!(limit, 15);
                progress.tail = Some(load_last_messages(store, &session_id, limit));
            }
            ChatAction::Recall { session_id, limit } => {
                assert_eq!(limit, 5);
                progress.recalled = Some(recalled_turns(&session_id, &points, limit));
            }
            ChatAction::ResolveAttachment { path } => {
                let (expected, bytes) = image.clone().unwrap();
                assert_eq!(path, expected);
                progress.attachment = Some(rapi_chat::flow::resolve_attachment(bytes));
            }
            ChatAction::Complete { messages } => return (messages, summaries),
        }
    }
    panic!("the request never became ready");
}

fn apply_writeback(store: &mut TranscriptStore, job: &mut WritebackJob, embed_ok: bool) -> usize {
    let mut indexed = 0;
    while let Some(step) = job.next_step() {
        let ok = match step {
            WritebackStep::PersistTurn(t) => {
                save_message(store, t);
                true
            }
            WritebackStep::IndexTurn(_) => {
                indexed += 1;
                true
            }
            WritebackStep::EmbedReply(_) => embed_ok,
        };
        job.record(ok);
    }
    indexed
}

#[test]
fn first_turn_of_a_new_session() {
    let mut store = TranscriptStore::new();
    let (messages, summaries) = run_request(&store, "s1", "hello", vec![], None);
    assert_eq!(summaries, 0);
    assert_eq!(messages.len(), 2);
    assert_eq!((messages[0].role, texts(&messages[0])), (Role::System, vec![PERSONA.to_string()]));
    assert_eq!((messages[1].role, texts(&messages[1])), (Role::User, vec!["hello".to_string()]));

    let response = interpret_completion(ProviderReply::Choices(vec!["hi there".to_string()])).unwrap();
    assert_eq!(response.reply, "hi there");
    let mut body = serde_json::Map::new();
    body.insert("reply".to_string(), serde_json::Value::String(response.reply.clone()));
    assert_eq!(serde_json::Value::Object(body).to_string(), "{\"reply\":\"hi there\"}");

    let mut job = WritebackJob::new("s1", "hello", &response.reply);
    let indexed = apply_writeback(&mut store, &mut job, true);
    assert_eq!(indexed, 2);
    assert_eq!(job.failures(), 0);
    let all = load_full_messages(&store, "s1");
    assert_eq!(all.len(), 2);
    assert_eq!((all[0].role, all[0].content.as_str()), (Role::User, "hello"));
    assert_eq!((all[1].role, all[1].content.as_str()), (Role::Assistant, "hi there"));
    assert!(all[0].timestamp <= all[1].timestamp);
}

#[test]
fn long_session_is_compacted() {
    let mut store = TranscriptStore::new();
    for i in 0..60 {
        let role = if i % 2 == 0 { Role::User } else { Role::Assistant };
        save_message(&mut store, ChatMessage::new("s2".to_string(), role, format!("m{}", i), i));
    }
    let points: Vec<RecalledPoint> = (0..8)
        .map(|i| RecalledPoint {
            role: Some("user".to_string()),
            content: Some(format!("p{}", i)),
            timestamp: Some(i),
        })
        .collect();
    let (messages, summaries) = run_request(&store, "s2", "again", points, None);
    assert_eq!(summaries, 1);
    assert!(messages.len() <= 23);
    assert_eq!(messages.len(), 1 + 1 + 15 + 5 + 1);
    assert_eq!(messages[1].role, Role::System);
    assert!(texts(&messages[1])[0].contains("a summary"));
    assert_eq!(texts(&messages[2]), vec!["m45".to_string()]);
    assert_eq!(texts(&messages[16]), vec!["m59".to_string()]);
    assert_eq!(texts(&messages[21]), vec!["p4".to_string()]);
    assert_eq!(texts(&messages[22]), vec!["again".to_string()]);
}

#[test]
fn fifty_turns_are_sent_in_full() {
    let mut store = TranscriptStore::new();
    for i in 0..50 {
        save_message(&mut store, ChatMessage::new("s3".to_string(), Role::User, format!("m{}", i), i));
    }
    let (messages, summaries) = run_request(&store, "s3", "x", vec![], None);
    assert_eq!(summaries, 0);
    assert_eq!(messages.len(), 52);
}

#[test]
fn vanished_image_is_dropped() {
    let store = TranscriptStore::new();
    let (messages, _) = run_request(
        &store,
        "s4",
        "see this",
        vec![],
        Some(("images/chat/chat-gone.png".to_string(), None)),
    );
    let last = messages.last().unwrap();
    assert_eq!(texts(last), vec!["see this".to_string()]);
}

#[test]
fn present_image_is_attached() {
    let store = TranscriptStore::new();
    let png = vec![0x89u8, 0x50, 0x4E, 0x47, 0x0D, 0x0A, 0x1A, 0x0A];
    let (messages, _) = run_request(
        &store,
        "s5",
        "see this",
        vec![],
        Some(("images/chat/chat-here.png".to_string(), Some(png))),
    );
    assert_eq!(
        texts(messages.last().unwrap()),
        vec!["see this".to_string(), "image:data:image/png;base64,iVBORw0KGgo=".to_string()]
    );
}

#[test]
fn writeback_steps_run_in_order() {
    let mut job = WritebackJob::at_times("s", "q", "a", 100, 90);
    let mut seen = Vec::new();
    while let Some(step) = job.next_step() {
        seen.push(match &step {
            WritebackStep::PersistTurn(t) => format!("persist {:?} {} {}", t.role, t.content, t.timestamp),
            WritebackStep::IndexTurn(t) => format!("index {:?} {}", t.role, t.content),
            WritebackStep::EmbedReply(s) => format!("embed {}", s),
        });
        job.record(false);
    }
    assert_eq!(
        seen,
        vec![
            "persist User q 100".to_string(),
            "index User q".to_string(),
            "persist Assistant a 100".to_string(),
            "embed a".to_string(),
        ]
    );
    assert_eq!(job.failures(), 4);
    assert!(job.is_done());
}

#[test]
fn failed_steps_do_not_stop_the_transcript() {
    let mut store = TranscriptStore::new();
    let mut job = WritebackJob::at_times("s", "q", "a", 1, 2);
    let indexed = apply_writeback(&mut store, &mut job, false);
    assert_eq!(indexed, 1);
    assert_eq!(job.failures(), 1);
    assert_eq!(load_full_messages(&store, "s").len(), 2);
}
