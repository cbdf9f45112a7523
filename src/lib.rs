//! Telemetry client: buffers error events and traces, signs each batch and
//! hands it to the transport.

mod buffer;
mod client;
mod event;
mod signing;
mod tracing;
mod tracing_types;

pub use buffer::{
    batch_view, drain_step, lemma_drain_twice, lemma_interleaved_producers, lemma_push_all,
    push_all, push_step, BatchBuffer,
};
pub use client::{
    batch_path, default_settings, error_pushed, flushed, lemma_flush_of_empty_buffers,
    plain_error, sent_if_any, strip_trailing_slashes, text_view, with_errors, with_traces,
    BatchKind, BloopClient, BloopClientBuilder, BuilderSettings, ClientState, FlushBatches,
    OutboundRequest, DEFAULT_MAX_BUFFER_SIZE,
};
pub use event::{ingested_from, Event, IngestEvent};
pub use signing::{
    hex_digit, hex_lower, hmac_sha256, lemma_hex_injective, lemma_sign_laws, sign, signature,
};
pub use tracing::{
    holds_text, is_new_span, is_new_trace, lemma_spans_in_call_order, lifecycle_holds, Span, Trace,
};
pub use tracing_types::{SpanStatus, SpanType, TraceStatus};
