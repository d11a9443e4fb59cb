use vstd::prelude::*;
use crate::completion::{completion_result, first_choice_or, ProviderReply};
use crate::context::{message_views, text_message, text_request, MessageRequest, MessageView};
use crate::error::{result_view, AppError};
use crate::transcript::{
    append_all, insert_by_time, lemma_appends_sorted, lemma_insertion_point, session_len,
    TranscriptStore,
};
use crate::turn::{role_name, turn_views, ChatMessage, Role, TurnView};

verus! {

/// A session is compacted once its transcript holds more turns than this.
pub const COMPACTION_THRESHOLD: usize = 50;

/// The number of most recent turns kept beside a summary.
pub const TAIL_SIZE: usize = 15;

/// The number of turns recalled by semantic search.
pub const RECALL_LIMIT: usize = 5;

/// The directive given to the model to summarise a transcript.
pub const SUMMARY_DIRECTIVE: &'static str = "สรุปบทสนทนานี้ให้เป็นย่อหน้าเดียวแบบกระชับ โดยบอกบริบทหลักที่คุยกัน เช่น 'ผู้บัญชาการชวนราพีไปเที่ยวทะเล และกำลังเลือกชุด'";

/// The summary used when the model offered none.
pub const SUMMARY_FALLBACK: &'static str = "ไม่สามารถสรุปเนื้อหาได้";

/// Whether a transcript of `len` turns is compacted under `threshold`.
pub open spec fn compaction_due(len: nat, threshold: usize) -> bool {
    len > threshold
}

/// True exactly when session `session_id` holds more than `threshold` turns.
pub fn should_compact(store: &TranscriptStore, session_id: &str, threshold: usize) -> (r: bool)
    requires
        store.wf(),
    ensures
        r == compaction_due(store.turns_of(session_id@).len(), threshold),
{
    session_len(store, session_id) > threshold
}

/// Appending a turn grows its session by one, so the session becomes due for
/// compaction exactly when it held `threshold` turns or more before.
pub proof fn lemma_compaction_after_append(
    before: Seq<TurnView>,
    after: Seq<TurnView>,
    t: TurnView,
    threshold: usize,
)
    requires
        after == insert_by_time(before, t),
    ensures
        after.len() == before.len() + 1,
        compaction_due(after.len(), threshold) == (before.len() >= threshold),
{
    lemma_insertion_point(before, t);
}

/// For any sequence of writes to a new session, compaction is due exactly
/// when more than `threshold` turns were written.
pub proof fn lemma_compaction_after_appends(writes: Seq<TurnView>, threshold: usize)
    ensures
        compaction_due(append_all(Seq::empty(), writes).len(), threshold) == (writes.len()
            > threshold),
{
    lemma_appends_sorted(writes);
}

/// One line of a rendered transcript: `[role]: content` and a line break.
pub open spec fn history_line(t: TurnView) -> Seq<char> {
    "["@ + role_name(t.role) + "]: "@ + t.content + "\n"@
}

/// A transcript rendered line by line, oldest first.
pub open spec fn history_text(s: Seq<TurnView>) -> Seq<char>
    decreases s.len(),
{
    if s.len() == 0 {
        Seq::empty()
    } else {
        history_text(s.drop_last()) + history_line(s.last())
    }
}

/// The transcript rendered as one text, a line per turn.
pub fn render_history(turns: &Vec<ChatMessage>) -> (r: String)
    ensures
        r@ == history_text(turn_views(turns@)),
{
    let mut r = String::new();
    let mut i: usize = 0;
    while i < turns.len()
        invariant
            i <= turns@.len(),
            r@ == history_text(turn_views(turns@.subrange(0, i as int))),
        decreases turns@.len() - i,
    {
        let t = &turns[i];
        r.append("[");
        r.append(t.role.name());
        r.append("]: ");
        r.append(t.content.as_str());
        r.append("\n");
        proof {
            let s = turn_views(turns@.subrange(0, i + 1));
            assert(s.drop_last() =~= turn_views(turns@.subrange(0, i as int)));
            assert(s.last() == t@);
        }
        i = i + 1;
    }
    assert(turns@.subrange(0, turns@.len() as int) =~= turns@);
    r
}

/// The request that asks the model to summarise a whole transcript: the
/// summarisation directive, then the rendered transcript as the user's message.
pub open spec fn summary_messages(s: Seq<TurnView>) -> Seq<MessageView> {
    seq![
        text_message(Role::System, SUMMARY_DIRECTIVE@),
        text_message(Role::User, history_text(s)),
    ]
}

/// The summarisation request for a whole transcript.
pub fn summary_request(turns: &Vec<ChatMessage>) -> (r: Vec<MessageRequest>)
    ensures
        message_views(r@) == summary_messages(turn_views(turns@)),
{
    let history = render_history(turns);
    let mut r: Vec<MessageRequest> = Vec::new();
    r.push(text_request(Role::System, SUMMARY_DIRECTIVE));
    r.push(text_request(Role::User, history.as_str()));
    assert(message_views(r@) =~= summary_messages(turn_views(turns@)));
    r
}

/// The summary carried by the provider's answer to a summarisation request;
/// a fixed notice when the provider offered no candidate.
pub fn summary_from_reply(reply: ProviderReply) -> (r: Result<String, AppError>)
    ensures
        result_view(r) == completion_result(reply, SUMMARY_FALLBACK@),
{
    first_choice_or(reply, SUMMARY_FALLBACK)
}

} // verus!
