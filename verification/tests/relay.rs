use slipstream::error::RelayError;
use slipstream::relay::{
    event_for, relay_chunks, run, step, OutboundEvent, RelayAction, RelayInput, RelayState,
    StreamChunk, END_MARKER,
};
use slipstream::text::decode_text;

fn content(text: &str) -> StreamChunk {
    StreamChunk::Content(Some(text.as_bytes().to_vec()))
}

fn bytes(payload: &[u8]) -> StreamChunk {
    StreamChunk::Content(Some(payload.to_vec()))
}

fn event(data: &str) -> OutboundEvent {
    OutboundEvent { data: data.to_string() }
}

fn data_of(events: &[OutboundEvent]) -> Vec<String> {
    events.iter().map(|e| e.data.clone()).collect()
}

#[test]
fn end_marker_is_literal() {
    assert_eq!(END_MARKER, "[END]");
}

#[test]
fn content_chunk_becomes_its_text() {
    assert_eq!(event_for(&content("Hello")), Some(event("Hello")));
}

#[test]
fn other_variant_becomes_end_marker() {
    assert_eq!(event_for(&StreamChunk::Other), Some(event("[END]")));
}

#[test]
fn absent_payload_is_skipped() {
    assert_eq!(event_for(&StreamChunk::Content(None)), None);
}

#[test]
fn empty_payload_is_skipped() {
    assert_eq!(event_for(&StreamChunk::Content(Some(Vec::new()))), None);
}

#[test]
fn multibyte_text_is_decoded() {
    let text = "caf\u{e9} \u{65e5}\u{672c}\u{8a9e} \u{1F600}";
    assert_eq!(event_for(&content(text)), Some(event(text)));
}

#[test]
fn invalid_bytes_are_replaced_not_rejected() {
    let sent = event_for(&bytes(&[b'a', 0xff, b'b'])).unwrap();
    assert_eq!(sent.data, "a\u{fffd}b");
    assert_ne!(sent.data.as_bytes(), &[b'a', 0xff, b'b'][..]);
}

#[test]
fn truncated_sequence_is_replaced() {
    let sent = event_for(&bytes(&[0xe6, 0x97])).unwrap();
    assert_eq!(sent.data, "\u{fffd}");
}

#[test]
fn lone_invalid_byte_still_emits() {
    let sent = event_for(&bytes(&[0x80])).unwrap();
    assert_eq!(sent.data, "\u{fffd}");
}

#[test]
fn decoding_valid_utf8_is_exact() {
    assert_eq!(decode_text("gr\u{fc}\u{df}e".as_bytes()), "gr\u{fc}\u{df}e");
    assert_eq!(decode_text(b""), "");
}

#[test]
fn decoding_matches_the_lossy_conversion() {
    let samples: Vec<Vec<u8>> = vec![
        vec![0xc3, 0x28],
        vec![0xf0, 0x9f, 0x98],
        vec![b'o', b'k', 0xed, 0xa0, 0x80],
        vec![0xc0, 0xaf],
        vec![0xf8, 0x88, 0x80, 0x80, 0x80],
    ];
    for sample in samples {
        assert_eq!(decode_text(&sample), String::from_utf8_lossy(&sample).into_owned());
        assert!(decode_text(&sample).contains('\u{fffd}'));
    }
}

#[test]
fn three_chunks_then_terminal_marker() {
    let chunks = vec![content("Hel"), content("lo"), content("!"), StreamChunk::Other];
    let events = relay_chunks(&chunks);
    assert_eq!(data_of(&events), vec!["Hel", "lo", "!", "[END]"]);
}

#[test]
fn empty_chunk_mid_stream_emits_nothing() {
    let chunks = vec![
        content("a"),
        StreamChunk::Content(Some(Vec::new())),
        content("b"),
        StreamChunk::Content(None),
        content("c"),
        StreamChunk::Other,
    ];
    let events = relay_chunks(&chunks);
    assert_eq!(data_of(&events), vec!["a", "b", "c", "[END]"]);
}

#[test]
fn no_chunks_no_events() {
    assert_eq!(relay_chunks(&Vec::new()), Vec::new());
}

#[test]
fn only_empty_chunks_no_events() {
    let chunks = vec![StreamChunk::Content(None), StreamChunk::Content(Some(Vec::new()))];
    assert!(relay_chunks(&chunks).is_empty());
}

#[test]
fn every_other_variant_gets_its_own_marker() {
    let chunks = vec![content("x"), StreamChunk::Other, content("y"), StreamChunk::Other];
    assert_eq!(data_of(&relay_chunks(&chunks)), vec!["x", "[END]", "y", "[END]"]);
}

#[test]
fn event_count_is_payload_chunks_plus_markers() {
    let chunks = vec![
        StreamChunk::Content(None),
        content("one"),
        content("two"),
        StreamChunk::Content(Some(Vec::new())),
        StreamChunk::Other,
        content("three"),
    ];
    let with_payload = chunks
        .iter()
        .filter(|c| matches!(c, StreamChunk::Content(Some(b)) if !b.is_empty()))
        .count();
    let markers = chunks.iter().filter(|c| matches!(c, StreamChunk::Other)).count();
    let events = relay_chunks(&chunks);
    assert_eq!(with_payload, 3);
    assert_eq!(markers, 1);
    assert_eq!(events.len(), 4);
    assert_eq!(events.iter().filter(|e| e.data == "[END]").count(), 1);
    assert_eq!(data_of(&events), vec!["one", "two", "[END]", "three"]);
}

#[test]
fn relaying_in_two_parts_is_relaying_at_once() {
    let first = vec![content("a"), StreamChunk::Content(None), content("b")];
    let second = vec![StreamChunk::Other, content("c")];
    let mut whole = first.clone();
    whole.extend(second.clone());
    let mut joined = relay_chunks(&first);
    joined.extend(relay_chunks(&second));
    assert_eq!(relay_chunks(&whole), joined);
}

#[test]
fn text_split_into_chunks_comes_back_whole() {
    let text = "The na\u{ef}ve caf\u{e9} served \u{1F375} to \u{65e5}\u{672c} at no cost.";
    let pieces: Vec<String> = vec![
        text.chars().take(7).collect(),
        String::new(),
        text.chars().skip(7).take(1).collect(),
        text.chars().skip(8).take(20).collect(),
        text.chars().skip(28).collect(),
    ];
    let chunks: Vec<StreamChunk> = pieces.iter().map(|p| content(p)).collect();
    let events = relay_chunks(&chunks);
    let reassembled: String = events.iter().map(|e| e.data.as_str()).collect();
    assert_eq!(reassembled, text);
    assert_eq!(events.len(), 4);
}

#[test]
fn one_character_per_chunk_comes_back_whole() {
    let text = "\u{e9}\u{65e5}a\u{1F600}";
    let chunks: Vec<StreamChunk> = text.chars().map(|c| content(&c.to_string())).collect();
    let reassembled: String = relay_chunks(&chunks).iter().map(|e| e.data.clone()).collect();
    assert_eq!(reassembled, text);
}

#[test]
fn step_emits_for_content() {
    let (state, action) = step(RelayState::Streaming, &RelayInput::Chunk(content("hi")));
    assert_eq!(state, RelayState::Streaming);
    assert_eq!(action, RelayAction::Emit(event("hi")));
}

#[test]
fn step_skips_empty_content() {
    let (state, action) = step(RelayState::Streaming, &RelayInput::Chunk(StreamChunk::Content(None)));
    assert_eq!(state, RelayState::Streaming);
    assert_eq!(action, RelayAction::Skip);
}

#[test]
fn step_keeps_streaming_after_a_marker() {
    let (state, action) = step(RelayState::Streaming, &RelayInput::Chunk(StreamChunk::Other));
    assert_eq!(state, RelayState::Streaming);
    assert_eq!(action, RelayAction::Emit(event("[END]")));
}

#[test]
fn end_of_stream_completes_silently() {
    let (state, action) = step(RelayState::Streaming, &RelayInput::EndOfStream);
    assert_eq!(state, RelayState::Completed);
    assert_eq!(action, RelayAction::Stop);
    assert_eq!(state.outcome(), Ok(()));
}

#[test]
fn receive_error_interrupts_silently() {
    let (state, action) = step(RelayState::Streaming, &RelayInput::ReceiveError);
    assert_eq!(state, RelayState::Interrupted);
    assert_eq!(action, RelayAction::Stop);
    assert_eq!(state.outcome(), Err(RelayError::BackendStreamInterrupted));
}

#[test]
fn client_gone_disconnects() {
    let (state, action) = step(RelayState::Streaming, &RelayInput::ClientGone);
    assert_eq!(state, RelayState::Disconnected);
    assert_eq!(action, RelayAction::Stop);
    assert_eq!(state.outcome(), Err(RelayError::ClientDisconnected));
}

#[test]
fn streaming_relay_has_not_failed() {
    assert_eq!(RelayState::Streaming.outcome(), Ok(()));
    assert!(RelayState::Streaming.is_open());
}

#[test]
fn stopped_relay_is_closed() {
    assert!(!RelayState::Completed.is_open());
    assert!(!RelayState::Interrupted.is_open());
    assert!(!RelayState::Disconnected.is_open());
}

#[test]
fn stopped_relay_answers_everything_with_stop() {
    let stopped = [RelayState::Completed, RelayState::Interrupted, RelayState::Disconnected];
    let inputs = [
        RelayInput::Chunk(content("late")),
        RelayInput::Chunk(StreamChunk::Other),
        RelayInput::EndOfStream,
        RelayInput::ReceiveError,
        RelayInput::ClientGone,
    ];
    for state in stopped {
        for input in &inputs {
            assert_eq!(step(state, input), (state, RelayAction::Stop));
        }
    }
}

#[test]
fn disconnect_after_second_event_stops_consumption() {
    let mut state = RelayState::Streaming;
    let mut sent = Vec::new();
    let source = vec![content("one"), content("two"), content("three"), StreamChunk::Other];
    let mut pulled = 0;
    let mut supply = source.into_iter();
    while state.is_open() {
        let input = if sent.len() == 2 {
            RelayInput::ClientGone
        } else {
            match supply.next() {
                Some(chunk) => {
                    pulled += 1;
                    RelayInput::Chunk(chunk)
                }
                None => RelayInput::EndOfStream,
            }
        };
        let (next, action) = step(state, &input);
        state = next;
        if let RelayAction::Emit(event) = action {
            sent.push(event);
        }
    }
    assert_eq!(state, RelayState::Disconnected);
    assert_eq!(data_of(&sent), vec!["one", "two"]);
    assert_eq!(pulled, 2);
    assert_eq!(step(state, &RelayInput::Chunk(content("three"))), (state, RelayAction::Stop));
}

#[test]
fn run_over_a_whole_stream() {
    let inputs = vec![
        RelayInput::Chunk(content("Hel")),
        RelayInput::Chunk(content("lo")),
        RelayInput::Chunk(content("!")),
        RelayInput::Chunk(StreamChunk::Other),
        RelayInput::EndOfStream,
    ];
    let (state, events) = run(RelayState::Streaming, &inputs);
    assert_eq!(state, RelayState::Completed);
    assert_eq!(data_of(&events), vec!["Hel", "lo", "!", "[END]"]);
}

#[test]
fn run_drops_what_follows_a_disconnect() {
    let inputs = vec![
        RelayInput::Chunk(content("one")),
        RelayInput::Chunk(content("two")),
        RelayInput::ClientGone,
        RelayInput::Chunk(content("three")),
        RelayInput::Chunk(StreamChunk::Other),
        RelayInput::EndOfStream,
    ];
    let (state, events) = run(RelayState::Streaming, &inputs);
    assert_eq!(state, RelayState::Disconnected);
    assert_eq!(data_of(&events), vec!["one", "two"]);
}

#[test]
fn run_drops_what_follows_a_receive_error() {
    let inputs = vec![
        RelayInput::Chunk(content("partial")),
        RelayInput::ReceiveError,
        RelayInput::Chunk(content("never")),
    ];
    let (state, events) = run(RelayState::Streaming, &inputs);
    assert_eq!(state, RelayState::Interrupted);
    assert_eq!(data_of(&events), vec!["partial"]);
}

#[test]
fn run_from_a_stopped_relay_sends_nothing() {
    let inputs = vec![RelayInput::Chunk(content("x")), RelayInput::Chunk(StreamChunk::Other)];
    for state in [RelayState::Completed, RelayState::Interrupted, RelayState::Disconnected] {
        let (end, events) = run(state, &inputs);
        assert_eq!(end, state);
        assert!(events.is_empty());
    }
}

#[test]
fn run_over_chunks_agrees_with_relay_chunks() {
    let chunks = vec![content("a"), StreamChunk::Content(None), StreamChunk::Other, content("b")];
    let inputs: Vec<RelayInput> = chunks.iter().cloned().map(RelayInput::Chunk).collect();
    let (state, events) = run(RelayState::Streaming, &inputs);
    assert_eq!(state, RelayState::Streaming);
    assert_eq!(events, relay_chunks(&chunks));
}

#[test]
fn run_over_nothing_changes_nothing() {
    let (state, events) = run(RelayState::Streaming, &Vec::new());
    assert_eq!(state, RelayState::Streaming);
    assert!(events.is_empty());
}
