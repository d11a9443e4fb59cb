use vstd::prelude::*;
use crate::compaction::{
    compaction_due, summary_messages, summary_request, COMPACTION_THRESHOLD, RECALL_LIMIT,
    TAIL_SIZE,
};
use crate::context::{
    assemble_context, assembled, message_views, opt_view, HistorySource, HistoryView,
    MessageRequest, PERSONA,
};
use crate::error::{AppError, ErrorView};
use crate::turn::{duplicate_all, turn_views, ChatMessage};
use crate::upload::{encode_image_to_base64, image_url_outcome};

verus! {

/// The parameters of context assembly.
#[derive(Debug, Clone)]
pub struct MemoryConfig {
    /// The persona directive sent first.
    pub persona: String,
    /// A transcript longer than this is replaced by a summary and a tail.
    pub compaction_threshold: usize,
    /// The number of recent turns kept beside a summary.
    pub tail_size: usize,
    /// The number of turns recalled by semantic search.
    pub recall_limit: usize,
}

impl MemoryConfig {
    /// The default persona, a threshold of fifty turns, a tail of fifteen and
    /// five recalled turns.
    pub fn standard() -> (r: MemoryConfig)
        ensures
            r.persona@ == PERSONA@,
            r.compaction_threshold == COMPACTION_THRESHOLD,
            r.tail_size == TAIL_SIZE,
            r.recall_limit == RECALL_LIMIT,
    {
        MemoryConfig {
            persona: String::from_str(PERSONA),
            compaction_threshold: COMPACTION_THRESHOLD,
            tail_size: TAIL_SIZE,
            recall_limit: RECALL_LIMIT,
        }
    }
}

/// The session a request names; a request without one is refused before any
/// work is done.
pub fn require_session(session_id: Option<String>) -> (r: Result<String, AppError>)
    ensures
        match session_id {
            Some(s) => r matches Ok(x) && x == s,
            None => r matches Err(e) && e@ == ErrorView::BadRequest("Missing session_id"@),
        },
{
    match session_id {
        Some(s) => Ok(s),
        None => Err(AppError::BadRequest(String::from_str("Missing session_id"))),
    }
}

/// What is known so far about one chat request.
#[derive(Debug, Clone)]
pub struct ChatProgress {
    pub session_id: String,
    pub message: String,
    /// Where the request's uploaded image was stored, if it had one.
    pub image_path: Option<String>,
    /// Whether the message's embedding has been computed.
    pub embedded: bool,
    /// The session's full transcript, once loaded.
    pub transcript: Option<Vec<ChatMessage>>,
    /// The summary of the transcript, once produced.
    pub summary: Option<String>,
    /// The most recent turns, once loaded.
    pub tail: Option<Vec<ChatMessage>>,
    /// The turns recalled by semantic search, once known.
    pub recalled: Option<Vec<ChatMessage>>,
    /// The inline image, once resolved: `None` inside when it is dropped.
    pub attachment: Option<Option<String>>,
}

impl ChatProgress {
    /// A request of which nothing has been gathered yet.
    pub fn new(session_id: String, message: String, image_path: Option<String>) -> (r: ChatProgress)
        ensures
            r.session_id == session_id,
            r.message == message,
            r.image_path == image_path,
            !r.embedded,
            r.transcript is None,
            r.summary is None,
            r.tail is None,
            r.recalled is None,
            r.attachment is None,
    {
        ChatProgress {
            session_id,
            message,
            image_path,
            embedded: false,
            transcript: None,
            summary: None,
            tail: None,
            recalled: None,
            attachment: None,
        }
    }
}

/// The outside work that a chat request needs next.
#[derive(Debug, Clone)]
pub enum ChatAction {
    /// Compute the embedding of the user's message, once, for search and
    /// for the recall index.
    EmbedQuery { text: String },
    /// Load the session's full transcript.
    LoadTranscript { session_id: String },
    /// Ask the model to summarise the whole transcript with these messages.
    Summarize { messages: Vec<MessageRequest> },
    /// Load the most recent `limit` turns of the session.
    LoadTail { session_id: String, limit: usize },
    /// Recall up to `limit` turns of the session near the message.
    Recall { session_id: String, limit: usize },
    /// Read the uploaded image at `path`, if it still exists.
    ResolveAttachment { path: String },
    /// Send these messages to the model.
    Complete { messages: Vec<MessageRequest> },
}

/// What a chat request waits for.
pub enum Pending {
    Embedding,
    Transcript,
    Summary,
    Tail,
    Recall,
    Attachment,
    Ready,
}

/// Whether the request's transcript is due for compaction.
pub open spec fn compacting(p: ChatProgress, threshold: usize) -> bool {
    match p.transcript {
        Some(t) => compaction_due(t@.len(), threshold),
        None => false,
    }
}

/// What the request waits for: the embedding, then the transcript, then,
/// under compaction, the summary and the tail, then the recalled turns, then
/// the image when one was uploaded.
pub open spec fn pending(p: ChatProgress, threshold: usize) -> Pending {
    if !p.embedded {
        Pending::Embedding
    } else if p.transcript is None {
        Pending::Transcript
    } else if compacting(p, threshold) && p.summary is None {
        Pending::Summary
    } else if compacting(p, threshold) && p.tail is None {
        Pending::Tail
    } else if p.recalled is None {
        Pending::Recall
    } else if p.image_path is Some && p.attachment is None {
        Pending::Attachment
    } else {
        Pending::Ready
    }
}

/// The history a ready request sends: the summary and the tail under
/// compaction, the full transcript otherwise.
pub open spec fn progress_history(p: ChatProgress, threshold: usize) -> HistoryView {
    if compacting(p, threshold) {
        HistoryView::Compacted {
            summary: p.summary.unwrap()@,
            tail: turn_views(p.tail.unwrap()@),
        }
    } else {
        HistoryView::Full(turn_views(p.transcript.unwrap()@))
    }
}

/// The inline image a ready request sends, if any.
pub open spec fn progress_image(p: ChatProgress) -> Option<Seq<char>> {
    match p.attachment {
        Some(a) => opt_view(a),
        None => None,
    }
}

/// The next piece of outside work for a chat request, or, once everything is
/// known, the completion call with the assembled context.
pub fn next_action(p: &ChatProgress, config: &MemoryConfig) -> (r: ChatAction)
    ensures
        match pending(*p, config.compaction_threshold) {
            Pending::Embedding => r matches ChatAction::EmbedQuery { text } && text@ == p.message@,
            Pending::Transcript => r matches ChatAction::LoadTranscript { session_id }
                && session_id@ == p.session_id@,
            Pending::Summary => r matches ChatAction::Summarize { messages } && message_views(
                messages@,
            ) == summary_messages(turn_views(p.transcript.unwrap()@)),
            Pending::Tail => r matches ChatAction::LoadTail { session_id, limit }
                && session_id@ == p.session_id@ && limit == config.tail_size,
            Pending::Recall => r matches ChatAction::Recall { session_id, limit }
                && session_id@ == p.session_id@ && limit == config.recall_limit,
            Pending::Attachment => r matches ChatAction::ResolveAttachment { path }
                && path@ == p.image_path.unwrap()@,
            Pending::Ready => r matches ChatAction::Complete { messages } && message_views(
                messages@,
            ) == assembled(
                config.persona@,
                progress_history(*p, config.compaction_threshold),
                turn_views(p.recalled.unwrap()@),
                p.message@,
                progress_image(*p),
            ),
        },
{
    if !p.embedded {
        return ChatAction::EmbedQuery { text: p.message.clone() };
    }
    let transcript = match &p.transcript {
        None => {
            return ChatAction::LoadTranscript { session_id: p.session_id.clone() };
        },
        Some(t) => t,
    };
    let compact = transcript.len() > config.compaction_threshold;
    let history = if compact {
        let summary = match &p.summary {
            None => {
                return ChatAction::Summarize { messages: summary_request(transcript) };
            },
            Some(s) => s,
        };
        let tail = match &p.tail {
            None => {
                return ChatAction::LoadTail {
                    session_id: p.session_id.clone(),
                    limit: config.tail_size,
                };
            },
            Some(t) => t,
        };
        HistorySource::Compacted { summary: summary.clone(), tail: duplicate_all(tail) }
    } else {
        HistorySource::Full(duplicate_all(transcript))
    };
    let recalled = match &p.recalled {
        None => {
            return ChatAction::Recall {
                session_id: p.session_id.clone(),
                limit: config.recall_limit,
            };
        },
        Some(r) => r,
    };
    let image: Option<String> = match &p.image_path {
        Some(path) => match &p.attachment {
            None => {
                return ChatAction::ResolveAttachment { path: path.clone() };
            },
            Some(a) => a.clone(),
        },
        None => match &p.attachment {
            Some(a) => a.clone(),
            None => None,
        },
    };
    assert(history@ == progress_history(*p, config.compaction_threshold));
    ChatAction::Complete {
        messages: assemble_context(
            config.persona.as_str(),
            &history,
            recalled,
            p.message.as_str(),
            &image,
        ),
    }
}

/// The inline image for an uploaded file: its data URL when the file still
/// exists and holds an image, and nothing otherwise, so that the turn goes on
/// as text alone.
pub fn resolve_attachment(bytes: Option<Vec<u8>>) -> (r: Option<String>)
    ensures
        match bytes {
            Some(b) => if b@.len() <= usize::MAX / 2 {
                match image_url_outcome(b@) {
                    Ok(url) => r matches Some(s) && s@ == url,
                    Err(_) => r is None,
                }
            } else {
                r is None
            },
            None => r is None,
        },
{
    match bytes {
        Some(b) => {
            if b.len() > usize::MAX / 2 {
                return None;
            }
            match encode_image_to_base64(&b) {
                Ok(url) => Some(url),
                Err(_) => None,
            }
        },
        None => None,
    }
}

} // verus!
