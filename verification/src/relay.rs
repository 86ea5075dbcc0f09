//! The stream relay: what is sent to the caller for each chunk that the
//! backend delivers, and when the relay stops.

use vstd::prelude::*;

use crate::error::RelayError;
use crate::text::{decode_text, decoded_text};

verus! {

/// The data of the event that marks the end of the meaningful content.
pub const END_MARKER: &'static str = "[END]";

/// One unit delivered by the backend's stream.
#[derive(Clone, Debug, PartialEq, Eq)]
pub enum StreamChunk {
    /// A piece of model output. The payload may be absent, or present and
    /// empty.
    Content(Option<Vec<u8>>),
    /// Any other variant: a terminal marker, metadata, or something the
    /// client does not recognise.
    Other,
}

/// A chunk as a mathematical value.
pub enum ChunkView {
    Content(Option<Seq<u8>>),
    Other,
}

/// One event of the outbound stream.
#[derive(Clone, Debug, PartialEq, Eq)]
pub struct OutboundEvent {
    pub data: String,
}

/// An emitted event together with where it came from: the text of a content
/// chunk, or the end marker that answers any other variant.
pub enum Emission {
    Text(Seq<char>),
    End,
}

impl View for StreamChunk {
    type V = ChunkView;

    open spec fn view(&self) -> ChunkView {
        match self {
            StreamChunk::Content(Some(bytes)) => ChunkView::Content(Some(bytes@)),
            StreamChunk::Content(None) => ChunkView::Content(None),
            StreamChunk::Other => ChunkView::Other,
        }
    }
}

impl DeepView for StreamChunk {
    type V = ChunkView;

    open spec fn deep_view(&self) -> ChunkView {
        self@
    }
}

/// An event is its data.
impl View for OutboundEvent {
    type V = Seq<char>;

    open spec fn view(&self) -> Seq<char> {
        self.data@
    }
}

impl DeepView for OutboundEvent {
    type V = Seq<char>;

    open spec fn deep_view(&self) -> Seq<char> {
        self@
    }
}

impl Emission {
    /// The data that the event carries on the wire.
    pub open spec fn data(self) -> Seq<char> {
        match self {
            Emission::Text(text) => text,
            Emission::End => END_MARKER@,
        }
    }
}

impl ChunkView {
    /// The bytes of a content chunk; empty where the payload is absent or
    /// the chunk is no content chunk.
    pub open spec fn payload(self) -> Seq<u8> {
        match self {
            ChunkView::Content(Some(bytes)) => bytes,
            _ => Seq::empty(),
        }
    }

    /// True of a content chunk that has something to say.
    pub open spec fn carries_text(self) -> bool {
        self is Content && self.payload().len() > 0
    }

    /// What the relay emits for this chunk: the decoded payload of a content
    /// chunk that has one, nothing for a content chunk without, and the end
    /// marker for everything else.
    pub open spec fn emission(self) -> Option<Emission> {
        if self.carries_text() {
            Some(Emission::Text(decoded_text(self.payload())))
        } else if self is Content {
            None
        } else {
            Some(Emission::End)
        }
    }

    /// The data of the event sent for this chunk, if one is sent.
    pub open spec fn event_data(self) -> Option<Seq<char>> {
        match self.emission() {
            Some(emitted) => Some(emitted.data()),
            None => None,
        }
    }
}

/// Everything the relay emits for a sequence of chunks, in the order in
/// which the chunks were received.
pub open spec fn emissions(chunks: Seq<ChunkView>) -> Seq<Emission>
    decreases chunks.len(),
{
    if chunks.len() == 0 {
        Seq::empty()
    } else {
        let earlier = emissions(chunks.drop_last());
        match chunks.last().emission() {
            Some(emitted) => earlier.push(emitted),
            None => earlier,
        }
    }
}

/// The data carried by a sequence of emissions.
pub open spec fn wire_data(emitted: Seq<Emission>) -> Seq<Seq<char>> {
    emitted.map_values(|e: Emission| e.data())
}

/// The data of the events that are sent for a sequence of chunks.
pub open spec fn relayed(chunks: Seq<ChunkView>) -> Seq<Seq<char>> {
    wire_data(emissions(chunks))
}

/// Translates one chunk into the event to send for it, if any.
///
/// A content chunk with a non-empty payload becomes one event whose data is
/// the payload decoded as text. A content chunk without payload, or with an
/// empty one, is skipped. Every other variant becomes one event whose data
/// is [`END_MARKER`].
pub fn event_for(chunk: &StreamChunk) -> (event: Option<OutboundEvent>)
    ensures
        event.deep_view() == chunk@.event_data(),
{
    match chunk {
        StreamChunk::Content(Some(bytes)) => {
            if bytes.len() == 0 {
                None
            } else {
                Some(OutboundEvent { data: decode_text(bytes.as_slice()) })
            }
        },
        StreamChunk::Content(None) => None,
        StreamChunk::Other => Some(OutboundEvent { data: END_MARKER.to_owned() }),
    }
}

/// Relays a whole sequence of chunks: the events to send, in order.
pub fn relay_chunks(chunks: &Vec<StreamChunk>) -> (events: Vec<OutboundEvent>)
    ensures
        events.deep_view() == relayed(chunks.deep_view()),
{
    let mut events: Vec<OutboundEvent> = Vec::new();
    let mut index: usize = 0;
    while index < chunks.len()
        invariant
            index <= chunks.len(),
            events.deep_view() == relayed(chunks.deep_view().take(index as int)),
        decreases chunks.len() - index,
    {
        let ghost before = chunks.deep_view().take(index as int);
        let ghost upto = chunks.deep_view().take(index as int + 1);
        proof {
            assert(upto.drop_last() == before);
        }
        if let Some(event) = event_for(&chunks[index]) {
            events.push(event);
            proof {
                let emitted = chunks@[index as int]@.emission().unwrap();
                assert(wire_data(emissions(before).push(emitted)) == wire_data(
                    emissions(before),
                ).push(emitted.data()));
            }
        }
        index += 1;
    }
    proof {
        assert(chunks.deep_view().take(chunks.len() as int) == chunks.deep_view());
    }
    events
}

/// Where the relay of one request stands.
#[derive(Clone, Copy, Debug, PartialEq, Eq, Structural)]
pub enum RelayState {
    /// Chunks are being pulled and relayed.
    Streaming,
    /// The backend closed its stream.
    Completed,
    /// Receiving from the backend failed after the stream had started.
    Interrupted,
    /// The caller went away before the stream ended.
    Disconnected,
}

/// What happened since the relay last acted.
#[derive(Clone, Debug, PartialEq, Eq)]
pub enum RelayInput {
    /// The backend delivered a chunk.
    Chunk(StreamChunk),
    /// The backend's stream is exhausted.
    EndOfStream,
    /// Receiving the next chunk failed.
    ReceiveError,
    /// Writing to the caller failed: the caller is gone.
    ClientGone,
}

/// An input as a mathematical value.
pub enum RelayInputView {
    Chunk(ChunkView),
    EndOfStream,
    ReceiveError,
    ClientGone,
}

/// What the relay's driver is to do next.
#[derive(Clone, Debug, PartialEq, Eq)]
pub enum RelayAction {
    /// Send this event, then pull the next chunk.
    Emit(OutboundEvent),
    /// Send nothing, and pull the next chunk.
    Skip,
    /// Pull no further chunk and release the backend connection.
    Stop,
}

/// An action as a mathematical value.
pub enum RelayActionView {
    Emit(Seq<char>),
    Skip,
    Stop,
}

impl View for RelayInput {
    type V = RelayInputView;

    open spec fn view(&self) -> RelayInputView {
        match self {
            RelayInput::Chunk(chunk) => RelayInputView::Chunk(chunk@),
            RelayInput::EndOfStream => RelayInputView::EndOfStream,
            RelayInput::ReceiveError => RelayInputView::ReceiveError,
            RelayInput::ClientGone => RelayInputView::ClientGone,
        }
    }
}

impl DeepView for RelayInput {
    type V = RelayInputView;

    open spec fn deep_view(&self) -> RelayInputView {
        self@
    }
}

impl View for RelayAction {
    type V = RelayActionView;

    open spec fn view(&self) -> RelayActionView {
        match self {
            RelayAction::Emit(event) => RelayActionView::Emit(event@),
            RelayAction::Skip => RelayActionView::Skip,
            RelayAction::Stop => RelayActionView::Stop,
        }
    }
}

impl RelayState {
    /// True while the relay still wants chunks.
    pub open spec fn open(self) -> bool {
        self is Streaming
    }

    /// The state that follows `self` on `input`. A streaming relay keeps
    /// streaming on every chunk, an end marker included, and stops on
    /// anything else; a stopped relay stays as it is.
    pub open spec fn after(self, input: RelayInputView) -> RelayState {
        match self {
            RelayState::Streaming => match input {
                RelayInputView::Chunk(_) => RelayState::Streaming,
                RelayInputView::EndOfStream => RelayState::Completed,
                RelayInputView::ReceiveError => RelayState::Interrupted,
                RelayInputView::ClientGone => RelayState::Disconnected,
            },
            _ => self,
        }
    }

    /// What is emitted in state `self` on `input`: what the chunk calls for
    /// while streaming, and nothing otherwise.
    pub open spec fn emission_on(self, input: RelayInputView) -> Option<Emission> {
        match (self, input) {
            (RelayState::Streaming, RelayInputView::Chunk(chunk)) => chunk.emission(),
            _ => None,
        }
    }

    /// What the driver is told in state `self` on `input`: to send what is
    /// emitted, to go on without sending where a chunk calls for nothing,
    /// and to stop in every other case.
    pub open spec fn action_on(self, input: RelayInputView) -> RelayActionView {
        match self.emission_on(input) {
            Some(emitted) => RelayActionView::Emit(emitted.data()),
            None => if self.open() && input is Chunk {
                RelayActionView::Skip
            } else {
                RelayActionView::Stop
            },
        }
    }

    /// How a relay in this state has ended: cleanly, or with the failure
    /// that cut it short. A relay that still streams has not failed.
    pub open spec fn ending(self) -> Result<(), RelayError> {
        match self {
            RelayState::Streaming => Ok(()),
            RelayState::Completed => Ok(()),
            RelayState::Interrupted => Err(RelayError::BackendStreamInterrupted),
            RelayState::Disconnected => Err(RelayError::ClientDisconnected),
        }
    }

    /// Whether the driver should pull another chunk.
    pub fn is_open(self) -> (open: bool)
        ensures
            open == self.open(),
    {
        match self {
            RelayState::Streaming => true,
            _ => false,
        }
    }

    /// How the stream ended, once it has: a source that ran dry is a clean
    /// end, a receive error and a vanished caller are failures of their own
    /// kind.
    pub fn outcome(self) -> (outcome: Result<(), RelayError>)
        ensures
            outcome == self.ending(),
    {
        match self {
            RelayState::Streaming => Ok(()),
            RelayState::Completed => Ok(()),
            RelayState::Interrupted => Err(RelayError::BackendStreamInterrupted),
            RelayState::Disconnected => Err(RelayError::ClientDisconnected),
        }
    }
}

/// One step of the relay: from the current state and what just happened to
/// the next state and what to do.
///
/// While streaming, a chunk is answered as [`event_for`] says and the relay
/// goes on; the end of the stream, a receive error and a vanished caller
/// each stop it, without any event of their own. Once stopped, the relay
/// answers everything with [`RelayAction::Stop`] and emits nothing more.
pub fn step(state: RelayState, input: &RelayInput) -> (result: (RelayState, RelayAction))
    ensures
        result.0 == state.after(input@),
        result.1@ == state.action_on(input@),
{
    match state {
        RelayState::Streaming => match input {
            RelayInput::Chunk(chunk) => match event_for(chunk) {
                Some(event) => (RelayState::Streaming, RelayAction::Emit(event)),
                None => (RelayState::Streaming, RelayAction::Skip),
            },
            RelayInput::EndOfStream => (RelayState::Completed, RelayAction::Stop),
            RelayInput::ReceiveError => (RelayState::Interrupted, RelayAction::Stop),
            RelayInput::ClientGone => (RelayState::Disconnected, RelayAction::Stop),
        },
        _ => (state, RelayAction::Stop),
    }
}

/// The state reached from `state` after a sequence of inputs.
pub open spec fn state_after(state: RelayState, inputs: Seq<RelayInputView>) -> RelayState
    decreases inputs.len(),
{
    if inputs.len() == 0 {
        state
    } else {
        state_after(state, inputs.drop_last()).after(inputs.last())
    }
}

/// Everything emitted from `state` over a sequence of inputs, in order.
pub open spec fn emitted_over(state: RelayState, inputs: Seq<RelayInputView>) -> Seq<Emission>
    decreases inputs.len(),
{
    if inputs.len() == 0 {
        Seq::empty()
    } else {
        let earlier = emitted_over(state, inputs.drop_last());
        match state_after(state, inputs.drop_last()).emission_on(inputs.last()) {
            Some(emitted) => earlier.push(emitted),
            None => earlier,
        }
    }
}

/// Runs the relay over a recorded sequence of inputs, starting in `state`:
/// the state it ends in and the events it sends on the way.
pub fn run(state: RelayState, inputs: &Vec<RelayInput>) -> (result: (RelayState, Vec<OutboundEvent>))
    ensures
        result.0 == state_after(state, inputs.deep_view()),
        result.1.deep_view() == wire_data(emitted_over(state, inputs.deep_view())),
{
    let mut current = state;
    let mut events: Vec<OutboundEvent> = Vec::new();
    let mut index: usize = 0;
    while index < inputs.len()
        invariant
            index <= inputs.len(),
            current == state_after(state, inputs.deep_view().take(index as int)),
            events.deep_view() == wire_data(
                emitted_over(state, inputs.deep_view().take(index as int)),
            ),
        decreases inputs.len() - index,
    {
        let ghost before = inputs.deep_view().take(index as int);
        let ghost upto = inputs.deep_view().take(index as int + 1);
        proof {
            assert(upto.drop_last() == before);
        }
        let (next, action) = step(current, &inputs[index]);
        if let RelayAction::Emit(event) = action {
            events.push(event);
            proof {
                let emitted = current.emission_on(inputs@[index as int]@).unwrap();
                assert(wire_data(emitted_over(state, before).push(emitted)) == wire_data(
                    emitted_over(state, before),
                ).push(emitted.data()));
            }
        }
        current = next;
        index += 1;
    }
    proof {
        assert(inputs.deep_view().take(inputs.len() as int) == inputs.deep_view());
    }
    (current, events)
}

} // verus!
