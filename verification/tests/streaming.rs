use ai_chat::sse::StreamAccumulator;

#[test]
fn streamed_deltas_concatenate_in_order() {
    let mut acc = StreamAccumulator::new();
    acc.feed(b"data: {\"choices\":[{\"index\":0,\"delta\":{\"content\":\"Hel\"}}]}\n\n");
    acc.feed(b"data: {\"choices\":[{\"index\":0,\"delta\":{\"content\":\"lo\"}}]}\n\ndata: [DONE]\n\n");
    assert_eq!(acc.finish(), "Hello");
}

#[test]
fn the_exact_two_delta_body_accumulates_hello() {
    let mut acc = StreamAccumulator::new();
    let body = b"data: {\"choices\":[{\"index\":0,\"delta\":{\"content\":\"Hel\"}}]}\n\ndata: {\"choices\":[{\"index\":0,\"delta\":{\"content\":\"lo\"}}]}\n\ndata: [DONE]\n\n";
    acc.feed(body);
    assert_eq!(acc.finish(), "Hello");
}

#[test]
fn a_line_split_across_chunks_is_decoded_whole() {
    let mut acc = StreamAccumulator::new();
    acc.feed(b"data: {\"choices\":[{\"index\":0,\"del");
    acc.feed(b"ta\":{\"content\":\"Hi\"}}]}\ndata: [DONE]\n");
    assert_eq!(acc.finish(), "Hi");
}

#[test]
fn a_malformed_event_is_skipped_not_fatal() {
    let mut acc = StreamAccumulator::new();
    acc.feed(b"data: {\"choices\":[{\"index\":0,\"delta\":{\"content\":\"a\"}}]}\n");
    acc.feed(b"data: this is not json\n");
    acc.feed(b"data: {\"choices\":[{\"index\":0,\"delta\":{\"content\":\"b\"}}]}\n");
    acc.feed(b"data: [DONE]\n");
    assert_eq!(acc.finish(), "ab");
}

#[test]
fn nothing_counts_after_the_sentinel() {
    let mut acc = StreamAccumulator::new();
    acc.feed(b"data: {\"choices\":[{\"index\":0,\"delta\":{\"content\":\"x\"}}]}\ndata: [DONE]\n");
    acc.feed(b"data: {\"choices\":[{\"index\":0,\"delta\":{\"content\":\"y\"}}]}\n");
    assert_eq!(acc.finish(), "x");
}

#[test]
fn a_final_unterminated_line_is_still_decoded() {
    let mut acc = StreamAccumulator::new();
    acc.feed(b"data: {\"choices\":[{\"index\":0,\"delta\":{\"content\":\"tail\"}}]}");
    assert_eq!(acc.finish(), "tail");
}

#[test]
fn carriage_returns_are_stripped() {
    let mut acc = StreamAccumulator::new();
    acc.feed(b"data: {\"choices\":[{\"index\":0,\"delta\":{\"content\":\"ok\"}}]}\r\ndata: [DONE]\r\n");
    assert_eq!(acc.finish(), "ok");
}

#[test]
fn non_event_lines_are_ignored() {
    let mut acc = StreamAccumulator::new();
    acc.feed(b"event: ping\n\ndata: {\"choices\":[{\"index\":0,\"delta\":{\"content\":\"z\"}}]}\ndata: [DONE]\n");
    assert_eq!(acc.finish(), "z");
}

#[test]
fn a_delta_without_content_adds_nothing() {
    let mut acc = StreamAccumulator::new();
    acc.feed(b"data: {\"choices\":[{\"index\":0,\"delta\":{\"role\":\"assistant\"}}]}\n");
    acc.feed(b"data: {\"choices\":[{\"index\":0,\"delta\":{\"content\":\"w\"}}]}\ndata: [DONE]\n");
    assert_eq!(acc.finish(), "w");
}

#[test]
fn feed_reports_the_deltas_it_completed_in_order() {
    let mut acc = StreamAccumulator::new();
    let emitted = acc.feed(
        b"data: {\"choices\":[{\"index\":0,\"delta\":{\"content\":\"one\"}}]}\ndata: {\"choices\":[{\"index\":0,\"delta\":{\"content\":\"two\"}}]}\n",
    );
    assert_eq!(emitted, vec!["one".to_string(), "two".to_string()]);
    let later = acc.feed(b"data: [DONE]\n");
    assert!(later.is_empty());
    assert_eq!(acc.finish(), "onetwo");
}

#[test]
fn an_empty_stream_accumulates_nothing() {
    let acc = StreamAccumulator::new();
    assert_eq!(acc.finish(), "");
}
