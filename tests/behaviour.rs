use bloop_client::{
    sign, BatchBuffer, BatchKind, BloopClient, Event, FlushBatches, IngestEvent,
    Span, SpanStatus, SpanType, Trace, TraceStatus, DEFAULT_MAX_BUFFER_SIZE,
};

fn client(endpoint: &str) -> BloopClient {
    BloopClient::builder()
        .endpoint(endpoint)
        .project_key("test-key")
        .build()
        .unwrap()
}

#[test]
fn every_kth_push_hands_out_one_full_batch() {
    let mut buf = BatchBuffer::new(3);
    let mut batches: Vec<Vec<u32>> = Vec::new();
    for i in 0..8u32 {
        if let Some(b) = buf.push(i) {
            assert_eq!(buf.len(), 0);
            batches.push(b);
        }
    }
    assert_eq!(batches, vec![vec![0, 1, 2], vec![3, 4, 5]]);
    assert_eq!(buf.drain(), vec![6, 7]);
}

#[test]
fn zero_max_size_hands_out_every_item() {
    let mut buf = BatchBuffer::new(0);
    assert_eq!(buf.push('a'), Some(vec!['a']));
    assert_eq!(buf.push('b'), Some(vec!['b']));
    assert_eq!(buf.len(), 0);
}

#[test]
fn second_drain_is_empty() {
    let mut buf = BatchBuffer::new(10);
    buf.push(1u8);
    buf.push(2u8);
    assert_eq!(buf.drain(), vec![1, 2]);
    assert!(buf.drain().is_empty());
}

#[test]
fn interleaved_producers_lose_and_repeat_nothing() {
    let threads: u32 = 4;
    let per_thread: u32 = 250;
    let mut buf = BatchBuffer::new(7);
    let mut next = vec![0u32; threads as usize];
    let mut batches: Vec<Vec<u32>> = Vec::new();
    let mut seed: u32 = 12345;
    let mut remaining = threads * per_thread;
    while remaining > 0 {
        seed = seed.wrapping_mul(1103515245).wrapping_add(12345);
        let mut t = (seed >> 16) % threads;
        while next[t as usize] == per_thread {
            t = (t + 1) % threads;
        }
        let item = t * per_thread + next[t as usize];
        next[t as usize] += 1;
        remaining -= 1;
        if let Some(b) = buf.push(item) {
            batches.push(b);
        }
    }
    let mut all: Vec<u32> = Vec::new();
    for b in &batches {
        assert_eq!(b.len(), 7);
        all.extend_from_slice(b);
    }
    all.extend(buf.drain());
    assert_eq!(all.len(), (threads * per_thread) as usize);
    all.sort();
    let expected: Vec<u32> = (0..threads * per_thread).collect();
    assert_eq!(all, expected);
}

#[test]
fn span_end_at_sets_latency_and_overwrites() {
    let mut span = Span::new(SpanType::Custom, "step");
    span.started_at = 1_000;
    span.end_at(SpanStatus::Success, 1_250);
    assert_eq!(span.latency_ms, Some(250));
    assert_eq!(span.status, Some(SpanStatus::Success));
    span.end_at(SpanStatus::Error, 1_400);
    assert_eq!(span.latency_ms, Some(400));
    assert_eq!(span.status, Some(SpanStatus::Error));
}

#[test]
fn span_end_by_clock_is_not_negative() {
    let mut span = Span::new(SpanType::Generation, "call");
    span.end(SpanStatus::Success);
    assert!(span.latency_ms.unwrap() >= 0);
    assert_eq!(span.id.len(), 36);
}

#[test]
fn start_span_keeps_call_order() {
    let mut trace = Trace::new("pipeline");
    let names = ["first", "second", "third", "fourth"];
    for n in names.iter() {
        trace.start_span(SpanType::Tool, n);
    }
    let got: Vec<&str> = trace.spans.iter().map(|s| s.name.as_str()).collect();
    assert_eq!(got, names.to_vec());
}

#[test]
fn start_span_hands_back_the_span_in_the_trace() {
    let mut trace = Trace::new("t");
    let span = trace.start_span(SpanType::Generation, "g");
    span.set_error("boom");
    assert_eq!(trace.spans[0].error_message.as_deref(), Some("boom"));
    assert_eq!(trace.spans[0].status, Some(SpanStatus::Error));
}

#[test]
fn trace_end_at_sets_status_and_time() {
    let mut trace = Trace::new("t");
    assert_eq!(trace.status, TraceStatus::Running);
    assert!(trace.ended_at.is_none());
    trace.end_at(TraceStatus::Error, 77);
    assert_eq!(trace.status, TraceStatus::Error);
    assert_eq!(trace.ended_at, Some(77));
    trace.end_at(TraceStatus::Completed, 99);
    assert_eq!(trace.status, TraceStatus::Completed);
    assert_eq!(trace.ended_at, Some(99));
}

#[test]
fn sign_is_deterministic_and_byte_sensitive() {
    assert_eq!(sign("k", b"hello"), sign("k", b"hello"));
    assert_ne!(sign("k", b"hello"), sign("k", b"hellp"));
    assert_ne!(sign("k", b"{\"a\":1}"), sign("k", b"{\"a\": 1}"));
}

#[test]
fn sign_matches_hmac_sha256_reference_vector() {
    assert_eq!(
        sign("Jefe", b"what do ya want for nothing?"),
        "5bdcc146bf60754e6a042426089575c75a003f089d2739839dec58b964ec3843"
    );
}

#[test]
fn builder_reports_endpoint_before_key() {
    let err = BloopClient::builder().build().err().unwrap();
    assert_eq!(err, "endpoint is required");
    let err = BloopClient::builder().endpoint("http://x").build().err().unwrap();
    assert_eq!(err, "project_key is required");
}

#[test]
fn request_goes_to_stripped_endpoint_with_signature() {
    let c = client("http://localhost:3000//");
    let req = c.request_for(BatchKind::Errors, b"{\"events\":[]}".to_vec());
    assert_eq!(req.url, "http://localhost:3000/v1/ingest/batch");
    assert_eq!(req.body, b"{\"events\":[]}".to_vec());
    assert_eq!(req.headers.len(), 3);
    assert_eq!(req.headers[0], ("Content-Type".to_string(), "application/json".to_string()));
    assert_eq!(req.headers[1].0, "X-Signature");
    assert_eq!(req.headers[1].1, sign("test-key", b"{\"events\":[]}"));
    assert_eq!(req.headers[2], ("X-Project-Key".to_string(), "test-key".to_string()));

    let req = c.request_for(BatchKind::Traces, Vec::new());
    assert_eq!(req.url, "http://localhost:3000/v1/traces/batch");
}

#[test]
fn flush_of_empty_client_sends_nothing() {
    let mut c = client("http://localhost:9999");
    let pending = c.flush();
    assert!(pending.errors.is_none());
    assert!(pending.traces.is_none());
    assert_eq!(pending.request_count(), 0);
    assert_eq!(FlushBatches::from_drained(Vec::new(), Vec::new()).request_count(), 0);
}

#[test]
fn twentieth_capture_hands_out_one_batch_of_twenty() {
    let mut c = client("http://localhost:9999");
    let mut batches: Vec<Vec<IngestEvent>> = Vec::new();
    for i in 0..DEFAULT_MAX_BUFFER_SIZE {
        if let Some(b) = c.capture_error("E", &format!("m{i}")) {
            batches.push(b);
        }
    }
    assert_eq!(batches.len(), 1);
    assert_eq!(batches[0].len(), 20);
    assert_eq!(batches[0][19].message, "m19");
    assert!(c.flush().errors.is_none());
}

#[test]
fn capture_fills_in_client_settings() {
    let mut c = BloopClient::builder()
        .endpoint("http://h")
        .project_key("k")
        .environment("staging")
        .release("1.0.0")
        .source("my-app")
        .build()
        .unwrap();
    assert!(c
        .capture_at(
            Event {
                error_type: "A".into(),
                message: "a".into(),
                source: Some("worker".into()),
                http_status: Some(503),
                ..Default::default()
            },
            42,
        )
        .is_none());
    assert!(c.capture_error("B", "b").is_none());
    let events = c.flush().errors.unwrap();
    assert_eq!(events[0].timestamp, 42);
    assert_eq!(events[0].source, "worker");
    assert_eq!(events[0].environment, "staging");
    assert_eq!(events[0].release, "1.0.0");
    assert_eq!(events[0].http_status, Some(503));
    assert_eq!(events[1].source, "my-app");
    assert!(events[1].timestamp > 0);
}

#[test]
fn default_settings_apply() {
    let mut c = client("http://h");
    assert!(c.capture_error("B", "b").is_none());
    let events = c.flush().errors.unwrap();
    assert_eq!(events[0].environment, "production");
    assert_eq!(events[0].release, "");
    assert_eq!(events[0].source, "rust");
}
