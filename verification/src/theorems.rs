//! What holds of the relay and of the endpoint whatever they are fed.

use vstd::prelude::*;
use vstd::utf8::{
    decode_utf8, decode_utf8_encode_utf8, encode_utf8, encode_utf8_decode_utf8,
    encode_utf8_valid_utf8, valid_utf8,
};

use crate::endpoint::{invocations, reached, EndpointEventView, EndpointState};
use crate::error::RelayError;
use crate::invocation::planned;
use crate::relay::{
    emissions, emitted_over, relayed, state_after, ChunkView, Emission, RelayInputView, RelayState,
};
use crate::request::{translation, PayloadView, MAX_TOKENS};

verus! {

/// Only the latest message counts: whatever precedes it, and however much,
/// the prompt is the latest message, the token bound is the fixed one, and
/// the invocation is the one that the latest message alone would have.
pub proof fn theorem_history_is_ignored(earlier: Seq<Seq<char>>, latest: Seq<char>)
    ensures
        translation(earlier.push(latest)) == Ok::<PayloadView, RelayError>(
            PayloadView { prompt: latest, max_tokens: MAX_TOKENS },
        ),
        translation(earlier.push(latest)) == translation(seq![latest]),
        planned(earlier.push(latest)) == planned(seq![latest]),
{
}

/// The number of emissions that carry the text of a content chunk.
pub open spec fn text_count(emitted: Seq<Emission>) -> nat {
    emitted.filter(|e: Emission| e is Text).len()
}

/// The number of emissions that are end markers.
pub open spec fn end_count(emitted: Seq<Emission>) -> nat {
    emitted.filter(|e: Emission| e is End).len()
}

/// The number of content chunks with a non-empty payload.
pub open spec fn text_chunks(chunks: Seq<ChunkView>) -> nat {
    chunks.filter(|c: ChunkView| c.carries_text()).len()
}

/// The number of chunks that are no content chunks.
pub open spec fn other_chunks(chunks: Seq<ChunkView>) -> nat {
    chunks.filter(|c: ChunkView| !(c is Content)).len()
}

/// The inputs of a relay that receives exactly these chunks.
pub open spec fn chunk_inputs(chunks: Seq<ChunkView>) -> Seq<RelayInputView> {
    chunks.map_values(|c: ChunkView| RelayInputView::Chunk(c))
}

/// Whatever the relay is fed, it emits one text event for each content chunk
/// with a non-empty payload, one end marker for each chunk that is no
/// content chunk, and nothing else.
pub proof fn theorem_one_event_per_chunk(chunks: Seq<ChunkView>)
    ensures
        text_count(emissions(chunks)) == text_chunks(chunks),
        end_count(emissions(chunks)) == other_chunks(chunks),
        emissions(chunks).len() == text_chunks(chunks) + other_chunks(chunks),
        relayed(chunks).len() == text_chunks(chunks) + other_chunks(chunks),
    decreases chunks.len(),
{
    let is_text = |e: Emission| e is Text;
    let is_end = |e: Emission| e is End;
    let has_text = |c: ChunkView| c.carries_text();
    let is_other = |c: ChunkView| !(c is Content);
    if chunks.len() == 0 {
        reveal(Seq::filter);
    } else {
        let earlier = chunks.drop_last();
        let last = chunks.last();
        theorem_one_event_per_chunk(earlier);
        assert(chunks == earlier.push(last));
        earlier.lemma_filter_len_push(has_text, last);
        earlier.lemma_filter_len_push(is_other, last);
        if let Some(emitted) = last.emission() {
            emissions(earlier).lemma_filter_len_push(is_text, emitted);
            emissions(earlier).lemma_filter_len_push(is_end, emitted);
        }
    }
}

/// Events leave in the order in which their chunks arrived: what is emitted
/// for one run of chunks followed by another is what is emitted for the
/// first, followed by what is emitted for the second.
pub proof fn theorem_order_is_kept(first: Seq<ChunkView>, second: Seq<ChunkView>)
    ensures
        emissions(first + second) == emissions(first) + emissions(second),
        relayed(first + second) == relayed(first) + relayed(second),
    decreases second.len(),
{
    if second.len() == 0 {
        assert(first + second == first);
    } else {
        theorem_order_is_kept(first, second.drop_last());
        assert((first + second).drop_last() == first + second.drop_last());
    }
}

/// The first chunk that is no content chunk is answered by exactly one end
/// marker: none is emitted before it, and the one emitted for it is the
/// last event up to there.
pub proof fn theorem_first_marker_ends_once(chunks: Seq<ChunkView>, position: int)
    requires
        0 <= position < chunks.len(),
        !(chunks[position] is Content),
        forall|i: int| 0 <= i < position ==> (#[trigger] chunks[i]) is Content,
    ensures
        end_count(emissions(chunks.take(position))) == 0,
        end_count(emissions(chunks.take(position + 1))) == 1,
        emissions(chunks.take(position + 1)).last() == Emission::End,
        emissions(chunks.take(position + 1)) == emissions(chunks.take(position)).push(
            Emission::End,
        ),
{
    let before = chunks.take(position);
    let upto = chunks.take(position + 1);
    let is_other = |c: ChunkView| !(c is Content);
    theorem_one_event_per_chunk(before);
    theorem_one_event_per_chunk(upto);
    assert(upto.drop_last() == before);
    assert(upto == before.push(chunks[position]));
    before.lemma_filter_len_push(is_other, chunks[position]);
    lemma_filter_without_match(before, is_other);
}

/// Filtering a sequence in which nothing matches leaves nothing.
proof fn lemma_filter_without_match<A>(items: Seq<A>, pred: spec_fn(A) -> bool)
    requires
        forall|i: int| 0 <= i < items.len() ==> !pred(#[trigger] items[i]),
    ensures
        items.filter(pred).len() == 0,
    decreases items.len(),
{
    reveal(Seq::filter);
    if items.len() > 0 {
        lemma_filter_without_match(items.drop_last(), pred);
    }
}

/// The content chunks that carry the pieces of a text, each piece as its
/// UTF-8 encoding.
pub open spec fn chunks_of(pieces: Seq<Seq<char>>) -> Seq<ChunkView> {
    pieces.map_values(|piece: Seq<char>| ChunkView::Content(Some(encode_utf8(piece))))
}

/// A text cut into pieces, each piece sent as one content chunk holding its
/// UTF-8 encoding, arrives whole: the data of the relayed events, joined in
/// order, is the pieces joined in order. Nothing is lost and nothing comes
/// twice.
pub proof fn theorem_text_survives_relay(pieces: Seq<Seq<char>>)
    ensures
        relayed(chunks_of(pieces)).flatten() == pieces.flatten(),
    decreases pieces.len(),
{
    let chunks = chunks_of(pieces);
    if pieces.len() > 0 {
        let piece = pieces.last();
        let earlier = pieces.drop_last();
        theorem_text_survives_relay(earlier);
        assert(chunks.drop_last() == chunks_of(earlier));
        assert(pieces == earlier.push(piece));
        earlier.lemma_flatten_push(piece);
        // The encoding of the piece is well formed and decodes to the piece.
        encode_utf8_valid_utf8(piece);
        encode_utf8_decode_utf8(piece);
        if chunks.last().carries_text() {
            assert(relayed(chunks) == relayed(chunks_of(earlier)).push(piece));
            relayed(chunks_of(earlier)).lemma_flatten_push(piece);
        } else {
            // Only the empty piece has an empty encoding, and joining it
            // adds nothing.
            assert(decode_utf8(encode_utf8(piece)).len() == 0);
            assert(earlier.flatten() + piece == earlier.flatten());
        }
    }
}

/// The payloads of a sequence of chunks, in order.
pub open spec fn payloads(chunks: Seq<ChunkView>) -> Seq<Seq<u8>> {
    chunks.map_values(|c: ChunkView| c.payload())
}

/// A byte stream of well-formed UTF-8, delivered in content chunks that are
/// each well formed by themselves, arrives as the text it encodes: the data
/// of the relayed events, joined in order, is the decoding of the payloads
/// joined in order.
pub proof fn theorem_valid_stream_is_decoded(chunks: Seq<ChunkView>)
    requires
        forall|i: int|
            0 <= i < chunks.len() ==> (#[trigger] chunks[i]) is Content && valid_utf8(
                chunks[i].payload(),
            ),
    ensures
        valid_utf8(payloads(chunks).flatten()),
        relayed(chunks).flatten() == decode_utf8(payloads(chunks).flatten()),
    decreases chunks.len(),
{
    if chunks.len() > 0 {
        let earlier = chunks.drop_last();
        let bytes = chunks.last().payload();
        theorem_valid_stream_is_decoded(earlier);
        assert(payloads(chunks) == payloads(earlier).push(bytes));
        payloads(earlier).lemma_flatten_push(bytes);
        lemma_decode_concat(payloads(earlier).flatten(), bytes);
        if chunks.last().carries_text() {
            assert(relayed(chunks) == relayed(earlier).push(decode_utf8(bytes)));
            relayed(earlier).lemma_flatten_push(decode_utf8(bytes));
        } else {
            assert(relayed(earlier).flatten() + decode_utf8(bytes) == relayed(earlier).flatten());
        }
    }
}

/// Encoding a text piece by piece gives the encoding of the whole.
proof fn lemma_encode_concat(first: Seq<char>, second: Seq<char>)
    ensures
        encode_utf8(first + second) == encode_utf8(first) + encode_utf8(second),
    decreases first.len(),
{
    if first.len() == 0 {
        assert(first + second == second);
    } else {
        lemma_encode_concat(first.drop_first(), second);
        assert((first + second).drop_first() == first.drop_first() + second);
    }
}

/// Decoding two well-formed byte sequences one after the other gives the
/// decoding of both together.
proof fn lemma_decode_concat(first: Seq<u8>, second: Seq<u8>)
    requires
        valid_utf8(first),
        valid_utf8(second),
    ensures
        valid_utf8(first + second),
        decode_utf8(first + second) == decode_utf8(first) + decode_utf8(second),
{
    let text = decode_utf8(first) + decode_utf8(second);
    decode_utf8_encode_utf8(first);
    decode_utf8_encode_utf8(second);
    lemma_encode_concat(decode_utf8(first), decode_utf8(second));
    encode_utf8_valid_utf8(text);
    encode_utf8_decode_utf8(text);
}

/// A relay that receives nothing but chunks keeps streaming, and emits what
/// the chunks call for.
pub proof fn theorem_chunks_keep_streaming(chunks: Seq<ChunkView>)
    ensures
        state_after(RelayState::Streaming, chunk_inputs(chunks)) == RelayState::Streaming,
        emitted_over(RelayState::Streaming, chunk_inputs(chunks)) == emissions(chunks),
    decreases chunks.len(),
{
    if chunks.len() > 0 {
        theorem_chunks_keep_streaming(chunks.drop_last());
        assert(chunk_inputs(chunks).drop_last() == chunk_inputs(chunks.drop_last()));
    }
}

/// A relay that has stopped stays stopped and stays silent, whatever it is
/// fed afterwards.
pub proof fn theorem_stopped_relay_is_silent(state: RelayState, inputs: Seq<RelayInputView>)
    requires
        !state.open(),
    ensures
        state_after(state, inputs) == state,
        emitted_over(state, inputs) == Seq::<Emission>::empty(),
    decreases inputs.len(),
{
    if inputs.len() > 0 {
        theorem_stopped_relay_is_silent(state, inputs.drop_last());
    }
}

/// Once the source ends, receiving fails or the caller goes away, nothing
/// that follows reaches the caller: the events emitted over the whole input
/// are those emitted before that point.
pub proof fn theorem_nothing_follows_a_stop(
    state: RelayState,
    before: Seq<RelayInputView>,
    stop: RelayInputView,
    after: Seq<RelayInputView>,
)
    requires
        !(stop is Chunk),
    ensures
        !state_after(state, before.push(stop) + after).open(),
        state_after(state, before.push(stop) + after) == state_after(state, before.push(stop)),
        emitted_over(state, before.push(stop) + after) == emitted_over(state, before),
    decreases after.len(),
{
    let upto = before.push(stop);
    assert(upto.drop_last() == before);
    if after.len() == 0 {
        assert(upto + after == upto);
    } else {
        theorem_nothing_follows_a_stop(state, before, stop, after.drop_last());
        assert((upto + after).drop_last() == upto + after.drop_last());
    }
}

/// A request leads to at most one call of the backend, whatever events
/// reach its endpoint and in whatever order. An endpoint that streams has
/// made exactly one.
pub proof fn theorem_at_most_one_invocation(events: Seq<EndpointEventView>)
    ensures
        invocations(EndpointState::Received, events) <= 1,
        reached(EndpointState::Received, events) is Streaming ==> invocations(
            EndpointState::Received,
            events,
        ) == 1,
{
    lemma_invocations_by_state(EndpointState::Received, events);
}

/// An endpoint that streams or has rejected stays as it is and calls the
/// backend no more.
pub proof fn theorem_settled_endpoint_stays(state: EndpointState, events: Seq<EndpointEventView>)
    requires
        state.settled(),
    ensures
        reached(state, events) == state,
        invocations(state, events) == 0,
    decreases events.len(),
{
    if events.len() > 0 {
        theorem_settled_endpoint_stays(state, events.drop_last());
    }
}

/// How many calls of the backend an endpoint can have made, by where it
/// started and where it stands.
proof fn lemma_invocations_by_state(state: EndpointState, events: Seq<EndpointEventView>)
    ensures
        invocations(state, events) <= 1,
        !(state is Received) ==> invocations(state, events) == 0,
        reached(state, events) is Received ==> state is Received && invocations(state, events)
            == 0,
        state is Received && reached(state, events) is Invoking ==> invocations(state, events)
            == 1,
        state is Received && reached(state, events) is Streaming ==> invocations(state, events)
            == 1,
    decreases events.len(),
{
    if events.len() > 0 {
        lemma_invocations_by_state(state, events.drop_last());
    }
}

} // verus!
