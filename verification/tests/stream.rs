use gemini_rs::error::Error;
use gemini_rs::stream::{classify_chunk, start_stream, PopNext, StreamHandle};

fn chunk(text: &str, finish: Option<&str>) -> String {
    match finish {
        Some(reason) => format!(
            r#"{{"candidates": [{{"content": {{"role": "model", "parts": [{{"text": "{}"}}]}}, "finishReason": "{}"}}]}}"#,
            text, reason
        ),
        None => format!(
            r#"{{"candidates": [{{"content": {{"role": "model", "parts": [{{"text": "{}"}}]}}}}]}}"#,
            text
        ),
    }
}

fn drain(handle: &mut StreamHandle) -> Vec<PopNext> {
    let mut out = Vec::new();
    loop {
        let next = handle.pop_next_ready();
        match next {
            PopNext::EndOfStream => {
                out.push(next);
                return out;
            }
            PopNext::Pending => panic!("the producer finished, nothing may be pending"),
            PopNext::Item(_) => out.push(next),
        }
    }
}

#[test]
fn finished_stream_yields_all_chunks_then_one_sentinel() {
    let (mut producer, mut handle) = start_stream();
    let chunks = vec![
        chunk("a", None),
        chunk("b", None),
        chunk("c", Some("STOP")),
    ];
    producer.feed_all(&chunks);
    let items = drain(&mut handle);
    // Exactly three outcomes and one end-of-stream, never four outcomes.
    assert_eq!(items.len(), 4);
    for (i, expected) in ["a", "b", "c"].iter().enumerate() {
        match &items[i] {
            PopNext::Item(Ok(res)) => {
                assert_eq!(res.candidates[0].get_text().as_deref(), Some(*expected));
            }
            other => panic!("expected a success outcome, got {:?}", other),
        }
    }
    assert!(matches!(items[3], PopNext::EndOfStream));
}

#[test]
fn malformed_chunk_stops_the_stream() {
    let (mut producer, mut handle) = start_stream();
    let chunks = vec![
        chunk("a", None),
        chunk("b", None),
        String::from("{ this is not json"),
        chunk("d", None),
        chunk("e", Some("STOP")),
    ];
    producer.feed_all(&chunks);
    let items = drain(&mut handle);
    // Two successes, one error, end of stream: chunks four and five are
    // never delivered.
    assert_eq!(items.len(), 4);
    assert!(matches!(&items[0], PopNext::Item(Ok(_))));
    assert!(matches!(&items[1], PopNext::Item(Ok(_))));
    match &items[2] {
        PopNext::Item(Err(Error::Serde(raw))) => assert_eq!(raw, "{ this is not json"),
        other => panic!("expected the decode error, got {:?}", other),
    }
    assert!(matches!(items[3], PopNext::EndOfStream));
}

#[test]
fn error_envelope_chunk_stops_the_stream() {
    let (mut producer, mut handle) = start_stream();
    let chunks = vec![
        chunk("a", None),
        String::from(
            r#"{"error": {"code": 429, "message": "rate limited", "status": "RESOURCE_EXHAUSTED"}}"#,
        ),
        chunk("c", Some("STOP")),
    ];
    producer.feed_all(&chunks);
    let items = drain(&mut handle);
    assert_eq!(items.len(), 3);
    match &items[1] {
        PopNext::Item(Err(Error::VertexError(e))) => {
            assert_eq!(e.code, 429);
            assert_eq!(e.message, "rate limited");
        }
        other => panic!("expected the service error, got {:?}", other),
    }
    assert!(matches!(items[2], PopNext::EndOfStream));
}

#[test]
fn popping_after_end_of_stream_stays_end_of_stream() {
    let (mut producer, mut handle) = start_stream();
    producer.feed_all(&Vec::new());
    assert!(matches!(handle.pop_next_ready(), PopNext::EndOfStream));
    // Idempotent: every later call answers the same, at once.
    assert!(matches!(handle.pop_next_ready(), PopNext::EndOfStream));
    assert!(matches!(handle.pop_next_ready(), PopNext::EndOfStream));
}

#[test]
fn pop_before_any_push_is_pending() {
    let (_producer, mut handle) = start_stream();
    assert!(matches!(handle.pop_next_ready(), PopNext::Pending));
}

#[test]
fn producer_reports_terminal_chunks() {
    let (mut producer, _handle) = start_stream();
    assert!(!producer.on_message(&chunk("a", None)));
    assert!(producer.on_message(&chunk("b", Some("STOP"))));
    producer.finish();
}

#[test]
fn auth_failure_is_one_error_then_the_sentinel() {
    let (mut producer, mut handle) = start_stream();
    producer.fail(Error::Token(String::from("no credentials")));
    producer.finish();
    let items = drain(&mut handle);
    assert_eq!(items.len(), 2);
    match &items[0] {
        PopNext::Item(Err(Error::Token(msg))) => assert_eq!(msg, "no credentials"),
        other => panic!("expected the token error, got {:?}", other),
    }
    assert!(matches!(items[1], PopNext::EndOfStream));
}

#[test]
fn classify_chunk_flattens_the_envelope() {
    match classify_chunk(&chunk("hello", None)) {
        Ok(res) => assert_eq!(res.candidates[0].get_text().as_deref(), Some("hello")),
        other => panic!("expected the payload, got {:?}", other),
    }
    match classify_chunk("nonsense") {
        Err(Error::Serde(raw)) => assert_eq!(raw, "nonsense"),
        other => panic!("expected the decode error, got {:?}", other),
    }
}

#[test]
fn accept_folds_awaited_items() {
    let (mut producer, mut handle) = start_stream();
    producer.feed_all(&vec![chunk("a", Some("STOP"))]);
    // Take the items as the blocking consumer does — awaiting the queue
    // directly — and fold each into the handle.
    let rt = tokio::runtime::Builder::new_current_thread().build().unwrap();
    let first = rt.block_on(handle.queue().pop());
    match handle.accept(first) {
        PopNext::Item(Ok(res)) => {
            assert_eq!(res.candidates[0].get_text().as_deref(), Some("a"));
        }
        other => panic!("expected the first outcome, got {:?}", other),
    }
    let second = rt.block_on(handle.queue().pop());
    assert!(matches!(handle.accept(second), PopNext::EndOfStream));
    assert!(matches!(handle.pop_next_ready(), PopNext::EndOfStream));
}
