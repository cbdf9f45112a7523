use bloop_client::{BloopClient, Event, Span, SpanStatus, SpanType, Trace, TraceStatus};

#[test]
fn test_event_creation() {
    let event = Event {
        error_type: "TypeError".into(),
        message: "something broke".into(),
        ..Default::default()
    };
    assert_eq!(event.error_type, "TypeError");
    assert_eq!(event.message, "something broke");
    assert!(event.source.is_none());
    assert!(event.metadata.is_none());
}

#[test]
fn test_event_with_all_fields() {
    let mut meta = serde_json::Map::new();
    meta.insert("key".to_string(), serde_json::Value::String("value".to_string()));
    let event = Event {
        error_type: "NetworkError".into(),
        message: "timeout".into(),
        source: Some("api-server".into()),
        route_or_procedure: Some("/api/users".into()),
        screen: Some("dashboard".into()),
        stack: Some("at main.rs:42".into()),
        http_status: Some(500),
        request_id: Some("req-123".into()),
        user_id_hash: Some("abc123".into()),
        metadata: Some(serde_json::Value::Object(meta)),
    };
    assert_eq!(event.http_status, Some(500));
    assert_eq!(event.source.as_deref(), Some("api-server"));
}

#[test]
fn test_trace_creation() {
    let trace = Trace::new("chat-completion")
        .session_id("session-1")
        .user_id("user-1")
        .input_text("Hello");
    assert_eq!(trace.name, "chat-completion");
    assert_eq!(trace.session_id.as_deref(), Some("session-1"));
    assert_eq!(trace.user_id.as_deref(), Some("user-1"));
    assert_eq!(trace.input.as_deref(), Some("Hello"));
    assert!(trace.spans.is_empty());
    assert!(!trace.id.is_empty());
    assert!(trace.started_at > 0);
}

#[test]
fn test_trace_prompt_fields() {
    let trace = Trace::new("test")
        .prompt_name("my-prompt")
        .prompt_version("v2");
    assert_eq!(trace.prompt_name.as_deref(), Some("my-prompt"));
    assert_eq!(trace.prompt_version.as_deref(), Some("v2"));
}

#[test]
fn test_span_creation() {
    let span = Span::new(SpanType::Generation, "gpt-4o call")
        .model("gpt-4o")
        .provider("openai")
        .input_text("hello world");
    assert_eq!(span.name, "gpt-4o call");
    assert_eq!(span.model.as_deref(), Some("gpt-4o"));
    assert_eq!(span.provider.as_deref(), Some("openai"));
    assert_eq!(span.input.as_deref(), Some("hello world"));
    assert!(!span.id.is_empty());
    assert!(span.started_at > 0);
}

#[test]
fn test_span_parent() {
    let span = Span::new(SpanType::Tool, "search")
        .parent("parent-span-123");
    assert_eq!(span.parent_span_id.as_deref(), Some("parent-span-123"));
}

#[test]
fn test_span_end() {
    let mut span = Span::new(SpanType::Generation, "call");
    span.end(SpanStatus::Success);
    assert!(span.latency_ms.is_some());
    assert!(matches!(span.status, Some(SpanStatus::Success)));
}

#[test]
fn test_span_set_usage() {
    let mut span = Span::new(SpanType::Generation, "call");
    span.set_usage(100, 50, 0.0025f64.to_bits());
    assert_eq!(span.input_tokens, Some(100));
    assert_eq!(span.output_tokens, Some(50));
    assert!((f64::from_bits(span.cost.unwrap()) - 0.0025).abs() < f64::EPSILON);
}

#[test]
fn test_span_set_output() {
    let mut span = Span::new(SpanType::Generation, "call");
    span.set_output("Hello, world!");
    assert_eq!(span.output.as_deref(), Some("Hello, world!"));
}

#[test]
fn test_span_set_error() {
    let mut span = Span::new(SpanType::Generation, "call");
    span.set_error("rate limit exceeded");
    assert!(matches!(span.status, Some(SpanStatus::Error)));
    assert_eq!(span.error_message.as_deref(), Some("rate limit exceeded"));
}

#[test]
fn test_trace_with_spans() {
    let mut trace = Trace::new("chat-completion");
    {
        let span = trace.start_span(SpanType::Generation, "gpt-4o call");
        span.set_usage(100, 50, 0.0025f64.to_bits());
        span.set_output("response text");
        span.end(SpanStatus::Success);
    }
    trace.set_output("final output");
    trace.end(TraceStatus::Completed);
    assert_eq!(trace.spans.len(), 1);
    assert!(trace.ended_at.is_some());
    assert_eq!(trace.output.as_deref(), Some("final output"));
}

#[test]
fn test_trace_multiple_spans() {
    let mut trace = Trace::new("agent-pipeline");
    trace.start_span(SpanType::Retrieval, "vector search");
    trace.start_span(SpanType::Generation, "llm call");
    trace.start_span(SpanType::Tool, "api call");
    assert_eq!(trace.spans.len(), 3);
}

#[test]
fn test_builder_requires_endpoint() {
    let result = BloopClient::builder()
        .project_key("key")
        .build();
    assert!(result.is_err());
    assert!(result.err().unwrap().contains("endpoint"));
}

#[test]
fn test_builder_requires_key() {
    let result = BloopClient::builder()
        .endpoint("http://localhost")
        .build();
    assert!(result.is_err());
    assert!(result.err().unwrap().contains("project_key"));
}

#[test]
fn test_builder_success() {
    let result = BloopClient::builder()
        .endpoint("http://localhost:3000")
        .project_key("test-key")
        .environment("staging")
        .release("1.0.0")
        .source("my-app")
        .build();
    assert!(result.is_ok());
}

#[test]
fn test_builder_strips_trailing_slash() {
    let mut client = BloopClient::builder()
        .endpoint("http://localhost:3000/")
        .project_key("key")
        .build()
        .unwrap();
    assert!(client.capture_error("Test", "msg").is_none());
}

#[test]
fn test_capture_and_flush() {
    let mut client = BloopClient::builder()
        .endpoint("http://localhost:9999")
        .project_key("test-key")
        .build()
        .unwrap();

    assert!(client.capture_error("Error1", "message1").is_none());
    assert!(client.capture_error("Error2", "message2").is_none());

    let pending = client.flush();
    let errors = pending.errors.unwrap();
    assert_eq!(errors.len(), 2);
    assert_eq!(errors[0].error_type, "Error1");
    assert_eq!(errors[1].message, "message2");
    assert!(pending.traces.is_none());
}

#[test]
fn test_send_trace_and_flush() {
    let mut client = BloopClient::builder()
        .endpoint("http://localhost:9999")
        .project_key("test-key")
        .build()
        .unwrap();

    let mut trace = client.start_trace("test-trace");
    trace.end(TraceStatus::Completed);
    assert!(client.send_trace(trace).is_none());

    let pending = client.flush();
    assert!(pending.errors.is_none());
    let traces = pending.traces.unwrap();
    assert_eq!(traces.len(), 1);
    assert_eq!(traces[0].name, "test-trace");
}

#[test]
fn test_shutdown() {
    let mut client = BloopClient::builder()
        .endpoint("http://localhost:9999")
        .project_key("test-key")
        .build()
        .unwrap();

    assert!(client.capture_error("Err", "msg").is_none());
    let pending = client.shutdown();
    assert_eq!(pending.request_count(), 1);
    assert!(client.flush().errors.is_none());
}
