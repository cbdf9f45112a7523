use crate::tracing_types::{SpanStatus, SpanType, TraceStatus};
use vstd::prelude::*;
use vstd::string::to_string_from_display_ensures_for_str;

verus! {

broadcast use to_string_from_display_ensures_for_str;

/// A random identifier.
#[verifier::external_type_specification]
#[verifier::external_body]
pub struct ExUuid(uuid::Uuid);

/// Relies on uuid's Uuid::new_v4 for a random version-4 identifier. It panics
/// only where the system's random source fails.
pub assume_specification[ uuid::Uuid::new_v4 ]() -> uuid::Uuid;

/// Relies on uuid's `Display` for `Uuid`, which writes the hyphenated form:
/// 36 characters.
#[verifier::external_body]
fn uuid_text(id: &uuid::Uuid) -> (r: String)
    ensures
        r@.len() == 36,
{
    id.to_string()
}

/// Relies on std's SystemTime::elapsed, read on UNIX_EPOCH: the wall clock in
/// milliseconds; a clock set before the epoch reads 0, and one past the range
/// of `i64` reads `i64::MAX`.
#[verifier::external_body]
pub(crate) fn chrono_millis() -> (r: i64)
    ensures
        r >= 0,
{
    match std::time::UNIX_EPOCH.elapsed() {
        Ok(d) => i64::try_from(d.as_millis()).unwrap_or(i64::MAX),
        Err(_) => 0,
    }
}

fn fresh_id() -> (r: String)
    ensures
        r@.len() == 36,
{
    let id = uuid::Uuid::new_v4();
    uuid_text(&id)
}

/// `o` holds a string whose characters are `s`.
pub open spec fn holds_text(o: Option<String>, s: Seq<char>) -> bool {
    o matches Some(v) && v@ == s
}

/// One timed unit of work inside a trace, such as one model call.
#[derive(Debug, Clone)]
pub struct Span {
    pub id: String,
    pub parent_span_id: Option<String>,
    pub span_type: SpanType,
    pub name: String,
    pub model: Option<String>,
    pub provider: Option<String>,
    pub started_at: i64,
    pub input_tokens: Option<i64>,
    pub output_tokens: Option<i64>,
    /// The cost, as the bit pattern of an IEEE-754 double.
    pub cost: Option<u64>,
    pub latency_ms: Option<i64>,
    pub time_to_first_token_ms: Option<i64>,
    pub status: Option<SpanStatus>,
    pub error_message: Option<String>,
    pub input: Option<String>,
    pub output: Option<String>,
    pub metadata: Option<serde_json::Value>,
}

/// `s` is a span just opened: the given type and name, a fresh 36-character
/// id, a start time read from the clock, and nothing else set.
pub open spec fn is_new_span(s: Span, span_type: SpanType, name: Seq<char>) -> bool {
    &&& s.id@.len() == 36
    &&& s.parent_span_id is None
    &&& s.span_type == span_type
    &&& s.name@ == name
    &&& s.model is None
    &&& s.provider is None
    &&& s.started_at >= 0
    &&& s.input_tokens is None
    &&& s.output_tokens is None
    &&& s.cost is None
    &&& s.latency_ms is None
    &&& s.time_to_first_token_ms is None
    &&& s.status is None
    &&& s.error_message is None
    &&& s.input is None
    &&& s.output is None
    &&& s.metadata is None
}

impl Span {
    pub fn new(span_type: SpanType, name: &str) -> (r: Span)
        ensures
            is_new_span(r, span_type, name@),
    {
        Span {
            id: fresh_id(),
            parent_span_id: None,
            span_type,
            name: name.to_string(),
            model: None,
            provider: None,
            started_at: chrono_millis(),
            input_tokens: None,
            output_tokens: None,
            cost: None,
            latency_ms: None,
            time_to_first_token_ms: None,
            status: None,
            error_message: None,
            input: None,
            output: None,
            metadata: None,
        }
    }

    pub fn model(self, model: &str) -> (r: Span)
        ensures
            holds_text(r.model, model@),
            r == (Span { model: r.model, ..self }),
    {
        Span { model: Some(model.to_string()), ..self }
    }

    pub fn provider(self, provider: &str) -> (r: Span)
        ensures
            holds_text(r.provider, provider@),
            r == (Span { provider: r.provider, ..self }),
    {
        Span { provider: Some(provider.to_string()), ..self }
    }

    pub fn input_text(self, input: &str) -> (r: Span)
        ensures
            holds_text(r.input, input@),
            r == (Span { input: r.input, ..self }),
    {
        Span { input: Some(input.to_string()), ..self }
    }

    /// Names the parent span by id; nothing checks that it exists.
    pub fn parent(self, parent_id: &str) -> (r: Span)
        ensures
            holds_text(r.parent_span_id, parent_id@),
            r == (Span { parent_span_id: r.parent_span_id, ..self }),
    {
        Span { parent_span_id: Some(parent_id.to_string()), ..self }
    }

    /// Ends the span at time `now`: the latency is `now - started_at` and the
    /// status is `status`. Ending again overwrites both.
    pub fn end_at(&mut self, status: SpanStatus, now: i64)
        requires
            i64::MIN <= now - old(self).started_at <= i64::MAX,
        ensures
            final(self).latency_ms == Some((now - old(self).started_at) as i64),
            final(self).status == Some(status),
            now >= old(self).started_at ==> final(self).latency_ms->0 >= 0,
            *final(self) == (Span {
                latency_ms: final(self).latency_ms,
                status: final(self).status,
                ..*old(self)
            }),
    {
        self.latency_ms = Some(now - self.started_at);
        self.status = Some(status);
    }

    /// Ends the span now, by the clock: the latency is the time since it
    /// started, and the status is `status`.
    pub fn end(&mut self, status: SpanStatus)
        requires
            old(self).started_at >= 0,
        ensures
            final(self).latency_ms matches Some(l) && l + old(self).started_at >= 0,
            final(self).status == Some(status),
            *final(self) == (Span {
                latency_ms: final(self).latency_ms,
                status: final(self).status,
                ..*old(self)
            }),
    {
        let now = chrono_millis();
        self.end_at(status, now);
    }

    /// Records token counts and the cost (as the bit pattern of a double).
    pub fn set_usage(&mut self, input_tokens: i64, output_tokens: i64, cost: u64)
        ensures
            *final(self) == (Span {
                input_tokens: Some(input_tokens),
                output_tokens: Some(output_tokens),
                cost: Some(cost),
                ..*old(self)
            }),
    {
        self.input_tokens = Some(input_tokens);
        self.output_tokens = Some(output_tokens);
        self.cost = Some(cost);
    }

    pub fn set_output(&mut self, output: &str)
        ensures
            holds_text(final(self).output, output@),
            *final(self) == (Span { output: final(self).output, ..*old(self) }),
    {
        self.output = Some(output.to_string());
    }

    /// Marks the span failed with `message`.
    pub fn set_error(&mut self, message: &str)
        ensures
            final(self).status == Some(SpanStatus::Error),
            holds_text(final(self).error_message, message@),
            *final(self) == (Span {
                status: final(self).status,
                error_message: final(self).error_message,
                ..*old(self)
            }),
    {
        self.status = Some(SpanStatus::Error);
        self.error_message = Some(message.to_string());
    }
}

/// A named, timed operation and the spans it is made of, in the order they
/// were started.
#[derive(Debug, Clone)]
pub struct Trace {
    pub id: String,
    pub name: String,
    pub session_id: Option<String>,
    pub user_id: Option<String>,
    pub status: TraceStatus,
    pub input: Option<String>,
    pub output: Option<String>,
    pub metadata: Option<serde_json::Value>,
    pub prompt_name: Option<String>,
    pub prompt_version: Option<String>,
    pub started_at: i64,
    pub ended_at: Option<i64>,
    pub spans: Vec<Span>,
}

/// A trace has an end time exactly when it is no longer running.
pub open spec fn lifecycle_holds(t: Trace) -> bool {
    (t.status == TraceStatus::Running) <==> (t.ended_at is None)
}

/// `t` is a trace just begun: the given name, a fresh 36-character id, a start
/// time read from the clock, running, with no spans and nothing else set.
pub open spec fn is_new_trace(t: Trace, name: Seq<char>) -> bool {
    &&& t.id@.len() == 36
    &&& t.name@ == name
    &&& t.session_id is None
    &&& t.user_id is None
    &&& t.status == TraceStatus::Running
    &&& t.input is None
    &&& t.output is None
    &&& t.metadata is None
    &&& t.prompt_name is None
    &&& t.prompt_version is None
    &&& t.started_at >= 0
    &&& t.ended_at is None
    &&& t.spans@.len() == 0
    &&& lifecycle_holds(t)
}

impl Trace {
    pub fn new(name: &str) -> (r: Trace)
        ensures
            is_new_trace(r, name@),
    {
        Trace {
            id: fresh_id(),
            name: name.to_string(),
            session_id: None,
            user_id: None,
            status: TraceStatus::Running,
            input: None,
            output: None,
            metadata: None,
            prompt_name: None,
            prompt_version: None,
            started_at: chrono_millis(),
            ended_at: None,
            spans: Vec::new(),
        }
    }

    pub fn session_id(self, id: &str) -> (r: Trace)
        ensures
            holds_text(r.session_id, id@),
            r == (Trace { session_id: r.session_id, ..self }),
    {
        Trace { session_id: Some(id.to_string()), ..self }
    }

    pub fn user_id(self, id: &str) -> (r: Trace)
        ensures
            holds_text(r.user_id, id@),
            r == (Trace { user_id: r.user_id, ..self }),
    {
        Trace { user_id: Some(id.to_string()), ..self }
    }

    pub fn input_text(self, input: &str) -> (r: Trace)
        ensures
            holds_text(r.input, input@),
            r == (Trace { input: r.input, ..self }),
    {
        Trace { input: Some(input.to_string()), ..self }
    }

    pub fn prompt_name(self, name: &str) -> (r: Trace)
        ensures
            holds_text(r.prompt_name, name@),
            r == (Trace { prompt_name: r.prompt_name, ..self }),
    {
        Trace { prompt_name: Some(name.to_string()), ..self }
    }

    pub fn prompt_version(self, version: &str) -> (r: Trace)
        ensures
            holds_text(r.prompt_version, version@),
            r == (Trace { prompt_version: r.prompt_version, ..self }),
    {
        Trace { prompt_version: Some(version.to_string()), ..self }
    }

    /// Opens a new span as the last of the trace's spans and hands back that
    /// span itself, so that what the caller sets on it lands in the trace.
    pub fn start_span(&mut self, span_type: SpanType, name: &str) -> (r: &mut Span)
        ensures
            is_new_span(*r, span_type, name@),
            final(self).spans@ == old(self).spans@.push(*final(r)),
            *final(self) == (Trace { spans: final(self).spans, ..*old(self) }),
    {
        let span = Span::new(span_type, name);
        self.spans.push(span);
        let last = self.spans.len() - 1;
        &mut self.spans[last]
    }

    /// Ends the trace at time `now` with `status`, completed or failed; a
    /// trace never goes back to running. Ending again overwrites both.
    pub fn end_at(&mut self, status: TraceStatus, now: i64)
        requires
            status != TraceStatus::Running,
        ensures
            *final(self) == (Trace { status, ended_at: Some(now), ..*old(self) }),
            lifecycle_holds(*final(self)),
    {
        self.ended_at = Some(now);
        self.status = status;
    }

    /// Ends the trace now, by the clock, with `status`.
    pub fn end(&mut self, status: TraceStatus)
        requires
            status != TraceStatus::Running,
        ensures
            final(self).ended_at matches Some(t) && t >= 0,
            *final(self) == (Trace { status, ended_at: final(self).ended_at, ..*old(self) }),
            lifecycle_holds(*final(self)),
    {
        let now = chrono_millis();
        self.end_at(status, now);
    }

    pub fn set_output(&mut self, output: &str)
        ensures
            holds_text(final(self).output, output@),
            *final(self) == (Trace { output: final(self).output, ..*old(self) }),
    {
        self.output = Some(output.to_string());
    }
}

/// Spans started one after another land in the trace in call order: when each
/// of `opened.len()` calls of [`Trace::start_span`] appends its span, the
/// spans at the end are those at the start followed by the opened ones, in
/// the order they were opened.
pub proof fn lemma_spans_in_call_order(states: Seq<Seq<Span>>, opened: Seq<Span>)
    requires
        states.len() == opened.len() + 1,
        forall|i: int| 0 <= i < opened.len() ==> #[trigger] states[i + 1] == states[i].push(opened[i]),
    ensures
        states.last() == states[0] + opened,
        states.last().len() == states[0].len() + opened.len(),
    decreases opened.len(),
{
    if opened.len() == 0 {
        assert(states[0] + opened =~= states[0]);
    } else {
        let n = opened.len() - 1;
        let front = states.drop_last();
        let first = opened.drop_last();
        assert forall|i: int| 0 <= i < first.len() implies #[trigger] front[i + 1] == front[i].push(first[i]) by {
            assert(states[i + 1] == states[i].push(opened[i]));
        }
        lemma_spans_in_call_order(front, first);
        assert(states[n + 1] == states[n].push(opened[n]));
        assert(states[0] + opened =~= (states[0] + first).push(opened[n]));
    }
}

} // verus!
