use vstd::prelude::*;
use crate::turn::{ChatMessage, Role, TurnView};

verus! {

/// Relies on `chrono::Utc::now` and `DateTime::timestamp_millis`: the current
/// time in milliseconds since the Unix epoch.
#[verifier::external_body]
fn now_millis() -> (r: i64) {
    chrono::Utc::now().timestamp_millis()
}

/// One unit of the work that records a finished turn.
#[derive(Debug, Clone)]
pub enum WritebackStep {
    /// Append the turn to its session's transcript.
    PersistTurn(ChatMessage),
    /// Store the turn with its embedding in the recall index.
    IndexTurn(ChatMessage),
    /// Compute the embedding of the assistant's reply.
    EmbedReply(String),
}

/// The value of a writeback step.
pub enum StepView {
    Persist(TurnView),
    Index(TurnView),
    Embed(Seq<char>),
}

impl View for WritebackStep {
    type V = StepView;

    open spec fn view(&self) -> StepView {
        match self {
            WritebackStep::PersistTurn(t) => StepView::Persist(t@),
            WritebackStep::IndexTurn(t) => StepView::Index(t@),
            WritebackStep::EmbedReply(s) => StepView::Embed(s@),
        }
    }
}

/// The number of steps of a writeback.
pub const WRITEBACK_STEPS: usize = 5;

/// The stage at which the reply's embedding is computed.
pub const EMBED_STAGE: usize = 3;

/// The best-effort recording of a finished turn: the user turn to the
/// transcript, then to the recall index with the embedding already computed
/// for the request, the assistant turn to the transcript, the embedding of the
/// reply, and the assistant turn to the recall index. A failed step is counted
/// and the job goes on; only the last step needs the one before it.
#[derive(Debug, Clone)]
pub struct WritebackJob {
    user: ChatMessage,
    assistant: ChatMessage,
    stage: usize,
    failures: usize,
}

/// The value of a writeback job.
pub struct JobView {
    pub user: TurnView,
    pub assistant: TurnView,
    pub stage: nat,
    pub failures: nat,
}

impl View for WritebackJob {
    type V = JobView;

    closed spec fn view(&self) -> JobView {
        JobView {
            user: self.user@,
            assistant: self.assistant@,
            stage: self.stage as nat,
            failures: self.failures as nat,
        }
    }
}

/// The step a job at `stage` performs next, if any is left.
pub open spec fn step_at(j: JobView) -> Option<StepView> {
    if j.stage == 0 {
        Some(StepView::Persist(j.user))
    } else if j.stage == 1 {
        Some(StepView::Index(j.user))
    } else if j.stage == 2 {
        Some(StepView::Persist(j.assistant))
    } else if j.stage == 3 {
        Some(StepView::Embed(j.assistant.content))
    } else if j.stage == 4 {
        Some(StepView::Index(j.assistant))
    } else {
        None
    }
}

/// The stage after the current step ends, well or not.
pub open spec fn stage_after(stage: nat, succeeded: bool) -> nat {
    if stage >= WRITEBACK_STEPS {
        stage
    } else if stage == EMBED_STAGE && !succeeded {
        WRITEBACK_STEPS as nat
    } else {
        stage + 1
    }
}

/// The user and assistant turns of a finished exchange; the reply is stamped
/// no earlier than the user's words, so the transcript keeps them in order.
pub open spec fn exchange_turns(
    sid: Seq<char>,
    message: Seq<char>,
    reply: Seq<char>,
    user_at: i64,
    reply_at: i64,
) -> (TurnView, TurnView) {
    (
        TurnView { session_id: sid, role: Role::User, content: message, timestamp: user_at },
        TurnView {
            session_id: sid,
            role: Role::Assistant,
            content: reply,
            timestamp: if reply_at < user_at {
                user_at
            } else {
                reply_at
            },
        },
    )
}

impl WritebackJob {
    /// The job's internal consistency.
    pub closed spec fn wf(&self) -> bool {
        self.stage <= WRITEBACK_STEPS && self.failures <= self.stage
    }

    /// A job for the exchange of `message` and `reply` in session
    /// `session_id`, with the user's words stamped `user_at` and the reply
    /// `reply_at`, or `user_at` if that is later.
    pub fn at_times(session_id: &str, message: &str, reply: &str, user_at: i64, reply_at: i64) -> (r:
        WritebackJob)
        ensures
            r.wf(),
            (r@.user, r@.assistant) == exchange_turns(
                session_id@,
                message@,
                reply@,
                user_at,
                reply_at,
            ),
            r@.stage == 0,
            r@.failures == 0,
    {
        let reply_ts = if reply_at < user_at {
            user_at
        } else {
            reply_at
        };
        WritebackJob {
            user: ChatMessage {
                session_id: String::from_str(session_id),
                role: Role::User,
                content: String::from_str(message),
                timestamp: user_at,
            },
            assistant: ChatMessage {
                session_id: String::from_str(session_id),
                role: Role::Assistant,
                content: String::from_str(reply),
                timestamp: reply_ts,
            },
            stage: 0,
            failures: 0,
        }
    }

    /// A job for an exchange that has just ended, stamped with the clock.
    pub fn new(session_id: &str, message: &str, reply: &str) -> (r: WritebackJob)
        ensures
            r.wf(),
            r@.user.session_id == session_id@,
            r@.user.role == Role::User,
            r@.user.content == message@,
            r@.assistant.session_id == session_id@,
            r@.assistant.role == Role::Assistant,
            r@.assistant.content == reply@,
            r@.user.timestamp <= r@.assistant.timestamp,
            r@.stage == 0,
            r@.failures == 0,
    {
        let user_at = now_millis();
        let reply_at = now_millis();
        WritebackJob::at_times(session_id, message, reply, user_at, reply_at)
    }

    /// The step to perform next; `None` once the job is over.
    pub fn next_step(&self) -> (r: Option<WritebackStep>)
        requires
            self.wf(),
        ensures
            match r {
                Some(s) => step_at(self@) == Some(s@),
                None => step_at(self@) is None,
            },
    {
        if self.stage == 0 {
            Some(WritebackStep::PersistTurn(self.user.duplicate()))
        } else if self.stage == 1 {
            Some(WritebackStep::IndexTurn(self.user.duplicate()))
        } else if self.stage == 2 {
            Some(WritebackStep::PersistTurn(self.assistant.duplicate()))
        } else if self.stage == 3 {
            Some(WritebackStep::EmbedReply(self.assistant.content.clone()))
        } else if self.stage == 4 {
            Some(WritebackStep::IndexTurn(self.assistant.duplicate()))
        } else {
            None
        }
    }

    /// Records how the current step ended. A failure is counted and never
    /// stops the job, except that a reply without an embedding is not indexed.
    pub fn record(&mut self, succeeded: bool)
        requires
            old(self).wf(),
        ensures
            final(self).wf(),
            final(self)@.user == old(self)@.user,
            final(self)@.assistant == old(self)@.assistant,
            final(self)@.stage == stage_after(old(self)@.stage, succeeded),
            final(self)@.failures == if old(self)@.stage < WRITEBACK_STEPS && !succeeded {
                old(self)@.failures + 1
            } else {
                old(self)@.failures
            },
    {
        if self.stage >= WRITEBACK_STEPS {
            return;
        }
        if !succeeded {
            self.failures = self.failures + 1;
        }
        if self.stage == EMBED_STAGE && !succeeded {
            self.stage = WRITEBACK_STEPS;
        } else {
            self.stage = self.stage + 1;
        }
    }

    /// Whether every step has been performed or skipped.
    pub fn is_done(&self) -> (r: bool)
        ensures
            r == (self@.stage >= WRITEBACK_STEPS),
    {
        self.stage >= WRITEBACK_STEPS
    }

    /// The number of steps that failed so far.
    pub fn failures(&self) -> (r: usize)
        ensures
            r == self@.failures,
    {
        self.failures
    }
}

/// Whatever the outcome of each step, the first four steps run in their
/// order: persisting the user turn, indexing it, persisting the assistant
/// turn, embedding the reply; the assistant turn is indexed exactly when its
/// embedding succeeded.
pub proof fn lemma_writeback_best_effort(j: JobView, outcomes: Seq<bool>)
    requires
        j.stage == 0,
        outcomes.len() >= 4,
    ensures
        ({
            let s1 = stage_after(0, outcomes[0]);
            let s2 = stage_after(s1, outcomes[1]);
            let s3 = stage_after(s2, outcomes[2]);
            let s4 = stage_after(s3, outcomes[3]);
            &&& s1 == 1 && s2 == 2 && s3 == 3
            &&& step_at(j) == Some(StepView::Persist(j.user))
            &&& step_at(JobView { stage: s1, ..j }) == Some(StepView::Index(j.user))
            &&& step_at(JobView { stage: s2, ..j }) == Some(StepView::Persist(j.assistant))
            &&& step_at(JobView { stage: s3, ..j }) == Some(StepView::Embed(j.assistant.content))
            &&& (outcomes[3] ==> step_at(JobView { stage: s4, ..j }) == Some(
                StepView::Index(j.assistant),
            ))
            &&& (!outcomes[3] ==> step_at(JobView { stage: s4, ..j }) is None)
        }),
{
}

} // verus!
