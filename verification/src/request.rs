//! The inbound chat request and its translation into what the backend is
//! asked.

use vstd::prelude::*;

use crate::error::RelayError;

verus! {

/// The number of tokens every invocation asks the backend for at most.
pub const MAX_TOKENS: u64 = 4096;

/// One turn of a conversation.
#[derive(Clone, Debug, PartialEq, Eq)]
pub struct ChatMessage {
    pub content: String,
}

/// A chat-completion request: the turns of the conversation, oldest first.
#[derive(Clone, Debug, PartialEq, Eq)]
pub struct ChatRequest {
    pub messages: Vec<ChatMessage>,
}

/// What the backend is asked: a single prompt and a bound on the answer.
#[derive(Clone, Debug, PartialEq, Eq)]
pub struct InvocationPayload {
    pub prompt: String,
    pub max_tokens: u64,
}

/// A payload as a mathematical value.
pub struct PayloadView {
    pub prompt: Seq<char>,
    pub max_tokens: u64,
}

/// A message is its text.
impl View for ChatMessage {
    type V = Seq<char>;

    open spec fn view(&self) -> Seq<char> {
        self.content@
    }
}

impl DeepView for ChatMessage {
    type V = Seq<char>;

    open spec fn deep_view(&self) -> Seq<char> {
        self@
    }
}

/// A request is the texts of its messages, oldest first.
impl View for ChatRequest {
    type V = Seq<Seq<char>>;

    open spec fn view(&self) -> Seq<Seq<char>> {
        self.messages.deep_view()
    }
}

impl View for InvocationPayload {
    type V = PayloadView;

    open spec fn view(&self) -> PayloadView {
        PayloadView { prompt: self.prompt@, max_tokens: self.max_tokens }
    }
}

/// The payload that a conversation translates to. The prompt is the latest
/// message alone, whatever precedes it, and the token bound is fixed. A
/// conversation without messages has no translation.
pub open spec fn translation(messages: Seq<Seq<char>>) -> Result<PayloadView, RelayError> {
    if messages.len() == 0 {
        Err(RelayError::InvalidRequest)
    } else {
        Ok(PayloadView { prompt: messages.last(), max_tokens: MAX_TOKENS })
    }
}

/// Translates a request into the payload of its backend invocation.
///
/// The prompt is the content of the last message and the token bound is
/// [`MAX_TOKENS`]. A request without messages is invalid, and no other
/// request is.
pub fn translate(request: &ChatRequest) -> (result: Result<InvocationPayload, RelayError>)
    ensures
        match result {
            Ok(payload) => translation(request@) == Ok::<PayloadView, RelayError>(payload@),
            Err(error) => translation(request@) == Err::<PayloadView, RelayError>(error),
        },
{
    let count = request.messages.len();
    if count == 0 {
        return Err(RelayError::InvalidRequest);
    }
    let last = &request.messages[count - 1];
    Ok(InvocationPayload { prompt: last.content.clone(), max_tokens: MAX_TOKENS })
}

} // verus!
