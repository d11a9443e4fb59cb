use vstd::prelude::*;
use crate::error::{result_view, AppError, ErrorView};

verus! {

/// What a completion provider's response body held.
#[derive(Debug, Clone)]
pub enum ProviderReply {
    /// The texts of the candidate replies, in the provider's order.
    Choices(Vec<String>),
    /// The message of the provider's error envelope.
    ErrorEnvelope(String),
    /// Neither a reply nor an error envelope.
    Unparseable,
}

/// The body returned to the caller of a chat turn.
#[derive(Debug, Clone)]
pub struct ChatResponse {
    pub reply: String,
}

/// The reply used when the provider offered no candidate.
pub const NO_RESPONSE: &'static str = "No response";

/// The reply carried by a provider response, or the error it stands for.
pub open spec fn completion_result(reply: ProviderReply, fallback: Seq<char>) -> Result<
    Seq<char>,
    ErrorView,
> {
    match reply {
        ProviderReply::Choices(v) => if v@.len() > 0 {
            Ok(v@[0]@)
        } else {
            Ok(fallback)
        },
        ProviderReply::ErrorEnvelope(m) => Err(ErrorView::Provider(m@)),
        ProviderReply::Unparseable => Err(ErrorView::MalformedResponse),
    }
}

/// The first candidate of `reply`, `fallback` when there is none, or the
/// error that the response stands for.
pub fn first_choice_or(reply: ProviderReply, fallback: &str) -> (r: Result<String, AppError>)
    ensures
        result_view(r) == completion_result(reply, fallback@),
{
    match reply {
        ProviderReply::Choices(v) => {
            if v.len() > 0 {
                Ok(v[0].clone())
            } else {
                Ok(String::from_str(fallback))
            }
        },
        ProviderReply::ErrorEnvelope(m) => Err(AppError::ProviderError(m)),
        ProviderReply::Unparseable => Err(AppError::MalformedResponse),
    }
}

/// The reply to a chat turn: the first candidate, "No response" when the
/// provider offered none; the provider's error envelope and an unparseable
/// body are reported as distinct errors.
pub fn interpret_completion(reply: ProviderReply) -> (r: Result<ChatResponse, AppError>)
    ensures
        match r {
            Ok(c) => completion_result(reply, NO_RESPONSE@) == Ok::<Seq<char>, ErrorView>(c.reply@),
            Err(e) => completion_result(reply, NO_RESPONSE@) == Err::<Seq<char>, ErrorView>(e@),
        },
{
    match first_choice_or(reply, NO_RESPONSE) {
        Ok(text) => Ok(ChatResponse { reply: text }),
        Err(e) => Err(e),
    }
}

} // verus!
