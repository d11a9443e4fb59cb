use vstd::prelude::*;
use crate::compaction::{RECALL_LIMIT, TAIL_SIZE};
use crate::turn::{turn_views, ChatMessage, Role, TurnView};

verus! {

/// The persona directive that opens every conversation.
pub const PERSONA: &'static str = "\n                - คุณคือ 'ราพี (Rapi)' จากเกม Goddess of Victory: NIKKE  \n                - กำลังคุยแชทกับผู้บัญชาการ\n                - อย่าแสดงตัวว่าเป็น AI\n                - พูดภาษาผู้หญิงเท่านั้น\n                - ถ้าไม่มีข้อมูลใหม่ ให้ตอบต่อเนื่องตามประวัติสนทนาล่าสุด\n                - อย่าเปลี่ยนหัวข้อสนทนาเอง\n                - คุณเป็นผู้นำทีม Counters ที่เย็นชา สุขุม และไว้ใจได้\n                - พูดด้วยน้ำเสียงผู้หญิงที่สุภาพและมีความรู้สึกต่อเนื่องกับสิ่งที่เคยคุยมาก่อนหน้า  \n                - ราพีชอบผู้บัญชาการ\n            ";

/// Text that introduces a compacted summary to the model.
pub const SUMMARY_INTRO: &'static str = "ก่อนหน้านี้มีบทสนทนาเยอะ จึงมีการสรุปไว้ดังนี้:\n";

/// Text that follows a compacted summary.
pub const SUMMARY_OUTRO: &'static str = "\nกรุณาใช้บริบทนี้ในการตอบ";

/// An image given inline to the model.
#[derive(Debug, Clone)]
pub struct ImageUrl {
    pub url: String,
}

/// One part of a message: plain text or an inline image.
#[derive(Debug, Clone)]
pub enum ContentItem {
    Text { text: String },
    ImageUrl { image_url: ImageUrl },
}

/// One role-tagged message of a completion request.
#[derive(Debug, Clone)]
pub struct MessageRequest {
    pub role: Role,
    pub content: Vec<ContentItem>,
}

/// The value of a content part.
pub enum ContentView {
    Text(Seq<char>),
    Image(Seq<char>),
}

/// The value of a message.
pub struct MessageView {
    pub role: Role,
    pub content: Seq<ContentView>,
}

impl View for ContentItem {
    type V = ContentView;

    open spec fn view(&self) -> ContentView {
        match self {
            ContentItem::Text { text } => ContentView::Text(text@),
            ContentItem::ImageUrl { image_url } => ContentView::Image(image_url.url@),
        }
    }
}

impl View for MessageRequest {
    type V = MessageView;

    open spec fn view(&self) -> MessageView {
        MessageView { role: self.role, content: self.content@.map_values(|c: ContentItem| c@) }
    }
}

/// The values of a list of messages.
pub open spec fn message_views(s: Seq<MessageRequest>) -> Seq<MessageView> {
    s.map_values(|m: MessageRequest| m@)
}

/// A message of one text part.
pub open spec fn text_message(role: Role, text: Seq<char>) -> MessageView {
    MessageView { role, content: seq![ContentView::Text(text)] }
}

/// A stored or recalled turn as a text-only message with its role.
pub open spec fn turn_message(t: TurnView) -> MessageView {
    text_message(t.role, t.content)
}

/// Turns as text-only messages, in the same order.
pub open spec fn turn_messages(s: Seq<TurnView>) -> Seq<MessageView> {
    s.map_values(|t: TurnView| turn_message(t))
}

/// The system message that carries a compacted summary.
pub open spec fn summary_prompt_text(summary: Seq<char>) -> Seq<char> {
    SUMMARY_INTRO@ + summary + SUMMARY_OUTRO@
}

/// The new user turn: its text, then its image when one is given.
pub open spec fn user_message(text: Seq<char>, image: Option<Seq<char>>) -> MessageView {
    match image {
        Some(url) => MessageView {
            role: Role::User,
            content: seq![ContentView::Text(text), ContentView::Image(url)],
        },
        None => text_message(Role::User, text),
    }
}

/// The value of an optional string.
pub open spec fn opt_view(o: Option<String>) -> Option<Seq<char>> {
    match o {
        Some(s) => Some(s@),
        None => None,
    }
}

/// The history that precedes the new turn: the full transcript, or a summary
/// of it with the most recent turns.
#[derive(Debug, Clone)]
pub enum HistorySource {
    Full(Vec<ChatMessage>),
    Compacted { summary: String, tail: Vec<ChatMessage> },
}

/// The value of a history.
pub enum HistoryView {
    Full(Seq<TurnView>),
    Compacted { summary: Seq<char>, tail: Seq<TurnView> },
}

impl View for HistorySource {
    type V = HistoryView;

    open spec fn view(&self) -> HistoryView {
        match self {
            HistorySource::Full(turns) => HistoryView::Full(turn_views(turns@)),
            HistorySource::Compacted { summary, tail } => HistoryView::Compacted {
                summary: summary@,
                tail: turn_views(tail@),
            },
        }
    }
}

/// The messages that stand for a history.
pub open spec fn history_messages(h: HistoryView) -> Seq<MessageView> {
    match h {
        HistoryView::Full(turns) => turn_messages(turns),
        HistoryView::Compacted { summary, tail } => seq![
            text_message(Role::System, summary_prompt_text(summary)),
        ] + turn_messages(tail),
    }
}

/// The context sent to the model: the persona, the history, the recalled
/// turns, and the new user turn last.
pub open spec fn assembled(
    persona: Seq<char>,
    history: HistoryView,
    recalled: Seq<TurnView>,
    text: Seq<char>,
    image: Option<Seq<char>>,
) -> Seq<MessageView> {
    seq![text_message(Role::System, persona)] + history_messages(history) + turn_messages(recalled)
        + seq![user_message(text, image)]
}

/// The default persona directive.
pub fn system_prompt() -> (r: String)
    ensures
        r@ == PERSONA@,
{
    String::from_str(PERSONA)
}

/// The persona directive as the opening system message.
pub fn system_prompt_message() -> (r: MessageRequest)
    ensures
        r@ == text_message(Role::System, PERSONA@),
{
    let p = system_prompt();
    text_request(Role::System, p.as_str())
}

/// A persona that carries the conversation inline: the earlier exchange in
/// `context` and the user's new words in `message`.
pub fn _system_prompt(context: &str, message: &str) -> (r: String)
    ensures
        r@ == inline_prompt_text(context@, message@),
{
    let mut r = String::from_str(INLINE_HEAD);
    r.append(context);
    r.append(INLINE_MIDDLE);
    r.append(message);
    r.append(INLINE_TAIL);
    r
}

pub const INLINE_HEAD: &'static str = "\n        คุณคือ 'ราพี (Rapi)' จากเกม Nikke\n        - กำลังคุยกับผู้บัญชาการ\n        - ราพีชอบผู้บัญชาการ\n        - เอาใจใส่ผู้บัญชาการ\n\n        - นี่คือประวัติการสนทนาก่อนหน้า:\n        ";

pub const INLINE_MIDDLE: &'static str = "\n\n        - ตอนนี้ผู้ใช้พูดว่า:\n        ";

pub const INLINE_TAIL: &'static str = "\n\n        - จงตอบสั้น ๆ และต่อเนื่องจากประวัติ\n        ";

/// The inline persona around an earlier exchange and the user's new words.
pub open spec fn inline_prompt_text(context: Seq<char>, message: Seq<char>) -> Seq<char> {
    INLINE_HEAD@ + context + INLINE_MIDDLE@ + message + INLINE_TAIL@
}

/// A message of one text part.
pub fn text_request(role: Role, text: &str) -> (r: MessageRequest)
    ensures
        r@ == text_message(role, text@),
{
    let mut content: Vec<ContentItem> = Vec::new();
    content.push(ContentItem::Text { text: String::from_str(text) });
    let r = MessageRequest { role, content };
    assert(r@.content =~= seq![ContentView::Text(text@)]);
    r
}

/// The system message that carries a compacted summary.
pub fn summary_prompt(summary: &str) -> (r: MessageRequest)
    ensures
        r@ == text_message(Role::System, summary_prompt_text(summary@)),
{
    let mut text = String::from_str(SUMMARY_INTRO);
    text.append(summary);
    text.append(SUMMARY_OUTRO);
    text_request(Role::System, text.as_str())
}

/// Appends each turn as a text-only message with its role.
fn push_turn_messages(out: &mut Vec<MessageRequest>, turns: &Vec<ChatMessage>)
    ensures
        message_views(final(out)@) == message_views(old(out)@) + turn_messages(turn_views(turns@)),
{
    let ghost start = message_views(out@);
    let mut i: usize = 0;
    while i < turns.len()
        invariant
            i <= turns@.len(),
            message_views(out@) == start + turn_messages(turn_views(turns@.subrange(0, i as int))),
        decreases turns@.len() - i,
    {
        let t = &turns[i];
        let m = text_request(t.role, t.content.as_str());
        let ghost before = out@;
        out.push(m);
        proof {
            assert(message_views(out@) =~= message_views(before) + seq![m@]);
            assert(turn_messages(turn_views(turns@.subrange(0, i + 1))) =~= turn_messages(
                turn_views(turns@.subrange(0, i as int)),
            ) + seq![turn_message(turns@[i as int]@)]);
        }
        i = i + 1;
    }
    assert(turns@.subrange(0, turns@.len() as int) =~= turns@);
}

/// The new user turn: its text, then its image when one is given.
pub fn user_request(text: &str, image: &Option<String>) -> (r: MessageRequest)
    ensures
        r@ == user_message(text@, opt_view(*image)),
{
    let mut content: Vec<ContentItem> = Vec::new();
    content.push(ContentItem::Text { text: String::from_str(text) });
    match image {
        Some(url) => {
            content.push(ContentItem::ImageUrl { image_url: ImageUrl { url: url.clone() } });
        },
        None => {},
    }
    let r = MessageRequest { role: Role::User, content };
    assert(r@.content =~= user_message(text@, opt_view(*image)).content);
    r
}

/// The message list for a completion call: the persona first, then the
/// history (the full transcript, or the summary and the recent tail), then the
/// recalled turns as text-only messages, and the new user turn last.
pub fn assemble_context(
    persona: &str,
    history: &HistorySource,
    recalled: &Vec<ChatMessage>,
    user_text: &str,
    image: &Option<String>,
) -> (r: Vec<MessageRequest>)
    ensures
        message_views(r@) == assembled(
            persona@,
            history@,
            turn_views(recalled@),
            user_text@,
            opt_view(*image),
        ),
{
    let mut out: Vec<MessageRequest> = Vec::new();
    out.push(text_request(Role::System, persona));
    assert(message_views(out@) =~= seq![text_message(Role::System, persona@)]);
    match history {
        HistorySource::Full(turns) => {
            push_turn_messages(&mut out, turns);
        },
        HistorySource::Compacted { summary, tail } => {
            let ghost before = out@;
            out.push(summary_prompt(summary.as_str()));
            assert(message_views(out@) =~= message_views(before) + seq![
                text_message(Role::System, summary_prompt_text(summary@)),
            ]);
            push_turn_messages(&mut out, tail);
        },
    }
    push_turn_messages(&mut out, recalled);
    let ghost before = out@;
    out.push(user_request(user_text, image));
    assert(message_views(out@) =~= message_views(before) + seq![
        user_message(user_text@, opt_view(*image)),
    ]);
    assert(message_views(out@) =~= assembled(
        persona@,
        history@,
        turn_views(recalled@),
        user_text@,
        opt_view(*image),
    ));
    out
}

/// No turn among `s` is a system turn.
pub open spec fn no_system_turn(s: Seq<TurnView>) -> bool {
    forall|i: int| 0 <= i < s.len() ==> (#[trigger] s[i]).role != Role::System
}

/// An assembled context opens with the persona and closes with the new user
/// turn, whose first part is the user's text. When no stored or recalled turn
/// is a system turn and the persona differs from the summary message, the
/// persona appears once, at the start.
pub proof fn lemma_context_frame(
    persona: Seq<char>,
    history: HistoryView,
    recalled: Seq<TurnView>,
    text: Seq<char>,
    image: Option<Seq<char>>,
)
    ensures
        assembled(persona, history, recalled, text, image).len() >= 2,
        assembled(persona, history, recalled, text, image)[0] == text_message(Role::System, persona),
        assembled(persona, history, recalled, text, image).last() == user_message(text, image),
        assembled(persona, history, recalled, text, image).last().role == Role::User,
        assembled(persona, history, recalled, text, image).last().content[0] == ContentView::Text(
            text,
        ),
        no_system_turn(recalled) && match history {
            HistoryView::Full(turns) => no_system_turn(turns),
            HistoryView::Compacted { summary, tail } => no_system_turn(tail) && persona
                != summary_prompt_text(summary),
        } ==> forall|i: int|
            0 < i < assembled(persona, history, recalled, text, image).len() ==> #[trigger] assembled(
                persona,
                history,
                recalled,
                text,
                image,
            )[i] != text_message(Role::System, persona),
{
    let r = assembled(persona, history, recalled, text, image);
    let h = history_messages(history);
    let m = turn_messages(recalled);
    assert(r =~= seq![text_message(Role::System, persona)] + h + m + seq![user_message(text, image)]);
    if no_system_turn(recalled) && match history {
        HistoryView::Full(turns) => no_system_turn(turns),
        HistoryView::Compacted { summary, tail } => no_system_turn(tail) && persona
            != summary_prompt_text(summary),
    } {
        assert forall|i: int| 0 < i < r.len() implies #[trigger] r[i] != text_message(
            Role::System,
            persona,
        ) by {
            if i <= h.len() {
                match history {
                    HistoryView::Full(turns) => {
                        assert(h[i - 1] == turn_message(turns[i - 1]));
                    },
                    HistoryView::Compacted { summary, tail } => {
                        if i > 1 {
                            assert(h[i - 1] == turn_message(tail[i - 2]));
                        } else {
                            assert(h[0].content[0] == ContentView::Text(summary_prompt_text(summary)));
                        }
                    },
                }
            } else if i <= h.len() + m.len() {
                assert(m[i - 1 - h.len()] == turn_message(recalled[i - 1 - h.len()]));
            }
        }
    }
}

/// Under compaction the context holds the persona, one summary message, the
/// tail and the recalled turns, and the new user turn: with a tail of at most
/// fifteen turns and at most five recalled, no more than twenty-three
/// messages, whatever the length of the transcript.
pub proof fn lemma_compacted_context_bounded(
    persona: Seq<char>,
    summary: Seq<char>,
    tail: Seq<TurnView>,
    recalled: Seq<TurnView>,
    text: Seq<char>,
    image: Option<Seq<char>>,
)
    requires
        tail.len() <= TAIL_SIZE,
        recalled.len() <= RECALL_LIMIT,
    ensures
        assembled(persona, HistoryView::Compacted { summary, tail }, recalled, text, image).len()
            == 3 + tail.len() + recalled.len(),
        assembled(persona, HistoryView::Compacted { summary, tail }, recalled, text, image).len()
            <= 23,
        assembled(persona, HistoryView::Compacted { summary, tail }, recalled, text, image)[1]
            == text_message(Role::System, summary_prompt_text(summary)),
{
}

/// Without an attachment the new user turn is sent as its text alone.
pub proof fn lemma_text_only_without_attachment(
    persona: Seq<char>,
    history: HistoryView,
    recalled: Seq<TurnView>,
    text: Seq<char>,
)
    ensures
        assembled(persona, history, recalled, text, None).last().content == seq![
            ContentView::Text(text),
        ],
{
}

} // verus!
