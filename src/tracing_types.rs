use vstd::prelude::*;

verus! {

/// What kind of work a span measures.
#[derive(Debug, Clone, Copy, PartialEq, Eq, Structural)]
pub enum SpanType {
    Generation,
    Tool,
    Retrieval,
    Custom,
}

/// How a span ended.
#[derive(Debug, Clone, Copy, PartialEq, Eq, Structural)]
pub enum SpanStatus {
    Success,
    Error,
}

/// Where a trace stands: running until it is ended as completed or failed.
#[derive(Debug, Clone, Copy, PartialEq, Eq, Structural)]
pub enum TraceStatus {
    Running,
    Completed,
    Error,
}

} // verus!
