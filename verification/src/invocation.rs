//! The backend invocation that a request gives rise to: which model is
//! called, and with what body.

use vstd::prelude::*;

use crate::error::RelayError;
use crate::request::{translate, translation, ChatRequest, PayloadView};

verus! {

/// The model that every invocation is addressed to.
pub const MODEL_ID: &'static str = "deepseek.v3.2";

/// One call of the backend's streaming invocation: the model to address and
/// the serialised payload to send.
#[derive(Clone, Debug, PartialEq, Eq)]
pub struct Invocation {
    pub model_id: String,
    pub body: Vec<u8>,
}

/// An invocation as a mathematical value.
pub struct InvocationView {
    pub model_id: Seq<char>,
    pub body: Seq<u8>,
}

impl View for Invocation {
    type V = InvocationView;

    open spec fn view(&self) -> InvocationView {
        InvocationView { model_id: self.model_id@, body: self.body@ }
    }
}

/// `serde_json::Error`, the serialiser's own error. It is carried as an
/// opaque value: nothing here looks inside it.
#[verifier::external_type_specification]
#[verifier::external_body]
pub struct ExJsonError(serde_json::Error);

/// The bytes that `serde_json` writes for a JSON object with one string
/// member and one unsigned integer member, or `None` where it reports an
/// error instead.
pub uninterp spec fn json_object_bytes(
    text_key: Seq<char>,
    text: Seq<char>,
    number_key: Seq<char>,
    number: u64,
) -> Option<Seq<u8>>;

/// Builds a `serde_json::Value` object holding `text` under `text_key` and
/// `number` under `number_key` (`Map::insert`, `Value::from`), and
/// serialises it with `serde_json::to_vec`.
///
/// Trusted: the outcome, bytes or error, depends on the four arguments
/// alone. Nothing is claimed about the bytes themselves, nor that the call
/// succeeds.
#[verifier::external_body]
fn json_object_to_vec(text_key: &str, text: &str, number_key: &str, number: u64) -> (encoded:
    Result<Vec<u8>, serde_json::Error>)
    ensures
        match encoded {
            Ok(bytes) => json_object_bytes(text_key@, text@, number_key@, number) == Some(bytes@),
            Err(_) => json_object_bytes(text_key@, text@, number_key@, number) is None,
        },
{
    let mut object = serde_json::Map::new();
    object.insert(text_key.to_owned(), serde_json::Value::from(text));
    object.insert(number_key.to_owned(), serde_json::Value::from(number));
    serde_json::to_vec(&serde_json::Value::Object(object))
}

/// The serialised form of a payload: a JSON object with the members
/// `prompt` and `max_tokens`.
pub open spec fn payload_json(payload: PayloadView) -> Option<Seq<u8>> {
    json_object_bytes("prompt"@, payload.prompt, "max_tokens"@, payload.max_tokens)
}

/// The invocation that carries a serialised payload, where there is one. A
/// payload without a serialised form makes its request invalid.
pub open spec fn framed(encoded: Option<Seq<u8>>) -> Result<InvocationView, RelayError> {
    match encoded {
        Some(body) => Ok(InvocationView { model_id: MODEL_ID@, body }),
        None => Err(RelayError::InvalidRequest),
    }
}

/// The invocation that a conversation gives rise to: its translation,
/// serialised and addressed to [`MODEL_ID`].
pub open spec fn planned(messages: Seq<Seq<char>>) -> Result<InvocationView, RelayError> {
    match translation(messages) {
        Ok(payload) => framed(payload_json(payload)),
        Err(error) => Err(error),
    }
}

/// Wraps the outcome of serialising a payload into the invocation that
/// carries it: the bytes become the body, addressed to [`MODEL_ID`], and a
/// serialiser error makes the request invalid.
pub fn frame_invocation(encoded: Result<Vec<u8>, serde_json::Error>) -> (result: Result<
    Invocation,
    RelayError,
>)
    ensures
        match result {
            Ok(invocation) => {
                &&& encoded matches Ok(bytes)
                &&& invocation@ == InvocationView { model_id: MODEL_ID@, body: bytes@ }
            },
            Err(error) => {
                &&& encoded is Err
                &&& error == RelayError::InvalidRequest
            },
        },
{
    match encoded {
        Ok(bytes) => Ok(Invocation { model_id: MODEL_ID.to_owned(), body: bytes }),
        Err(_) => Err(RelayError::InvalidRequest),
    }
}

/// Plans the single backend invocation of a request.
///
/// The request is translated, its payload serialised and addressed to
/// [`MODEL_ID`]. The request is rejected as invalid exactly when it has no
/// messages or its payload has no serialised form.
pub fn plan_invocation(request: &ChatRequest) -> (result: Result<Invocation, RelayError>)
    ensures
        match result {
            Ok(invocation) => planned(request@) == Ok::<InvocationView, RelayError>(invocation@),
            Err(error) => planned(request@) == Err::<InvocationView, RelayError>(error),
        },
{
    match translate(request) {
        Ok(payload) => {
            let encoded = json_object_to_vec(
                "prompt",
                payload.prompt.as_str(),
                "max_tokens",
                payload.max_tokens,
            );
            frame_invocation(encoded)
        },
        Err(error) => Err(error),
    }
}

} // verus!
