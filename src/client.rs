use crate::buffer::{batch_view, drain_step, push_step, BatchBuffer};
use crate::event::{ingested_from, Event, IngestEvent};
use crate::signing::{sign, signature};
use crate::tracing::{is_new_trace, chrono_millis, Trace};
use vstd::prelude::*;
use vstd::utf8::encode_utf8;
use vstd::string::{to_string_from_display_ensures_for_str, StrSliceExecFns, StringExecFns};

verus! {

broadcast use to_string_from_display_ensures_for_str;

/// How many records a buffer holds before it hands them out as a batch.
pub const DEFAULT_MAX_BUFFER_SIZE: usize = 20;

/// The transport's pooled HTTP client, shared by all requests.
#[verifier::external_type_specification]
#[verifier::external_body]
pub struct ExHttpClient(reqwest::Client);

/// Relies on reqwest's Client::new for a client with default settings. It
/// panics only where the platform's resolver configuration cannot be loaded.
pub assume_specification[ reqwest::Client::new ]() -> reqwest::Client;

/// `s` with every trailing `/` removed.
pub open spec fn strip_trailing_slashes(s: Seq<char>) -> Seq<char>
    decreases s.len(),
{
    if s.len() > 0 && s.last() == '/' {
        strip_trailing_slashes(s.drop_last())
    } else {
        s
    }
}

/// The settings a builder has collected.
pub ghost struct BuilderSettings {
    pub endpoint: Option<Seq<char>>,
    pub project_key: Option<Seq<char>>,
    pub environment: Seq<char>,
    pub release: Seq<char>,
    pub source: Seq<char>,
    pub max_buffer_size: nat,
}

/// A client: the settings it runs with, and the records waiting in its two
/// buffers, oldest first.
pub ghost struct ClientState {
    pub endpoint: Seq<char>,
    pub project_key: Seq<char>,
    pub environment: Seq<char>,
    pub release: Seq<char>,
    pub source: Seq<char>,
    pub max_buffer_size: nat,
    pub errors: Seq<IngestEvent>,
    pub traces: Seq<Trace>,
}

/// A new builder's settings: no endpoint or key yet, environment
/// "production", empty release, source "rust", and batches of 20.
pub open spec fn default_settings() -> BuilderSettings {
    BuilderSettings {
        endpoint: None,
        project_key: None,
        environment: "production"@,
        release: Seq::empty(),
        source: "rust"@,
        max_buffer_size: DEFAULT_MAX_BUFFER_SIZE as nat,
    }
}

/// Collects a client's settings; `endpoint` and `project_key` must be given.
#[derive(Debug, Clone)]
pub struct BloopClientBuilder {
    endpoint: Option<String>,
    project_key: Option<String>,
    environment: String,
    release: String,
    source: String,
    max_buffer_size: usize,
}

pub open spec fn text_view(o: Option<String>) -> Option<Seq<char>> {
    match o {
        Some(s) => Some(s@),
        None => None,
    }
}

impl View for BloopClientBuilder {
    type V = BuilderSettings;

    closed spec fn view(&self) -> BuilderSettings {
        BuilderSettings {
            endpoint: text_view(self.endpoint),
            project_key: text_view(self.project_key),
            environment: self.environment@,
            release: self.release@,
            source: self.source@,
            max_buffer_size: self.max_buffer_size as nat,
        }
    }
}

fn strip_slashes(s: &str) -> (r: String)
    ensures
        r@ == strip_trailing_slashes(s@),
{
    let mut n = s.unicode_len();
    assert(s@.subrange(0, s@.len() as int) =~= s@);
    while n > 0 && s.get_char(n - 1) == '/'
        invariant
            n <= s@.len(),
            strip_trailing_slashes(s@.subrange(0, n as int)) == strip_trailing_slashes(s@),
        decreases n,
    {
        assert(s@.subrange(0, n as int).drop_last() =~= s@.subrange(0, n - 1));
        n = n - 1;
    }
    s.substring_char(0, n).to_string()
}

impl BloopClientBuilder {
    pub fn new() -> (r: Self)
        ensures
            r@ == default_settings(),
    {
        let r = BloopClientBuilder {
            endpoint: None,
            project_key: None,
            environment: "production".to_string(),
            release: String::new(),
            source: "rust".to_string(),
            max_buffer_size: DEFAULT_MAX_BUFFER_SIZE,
        };
        assert(r@.release =~= Seq::<char>::empty());
        r
    }

    pub fn endpoint(self, endpoint: &str) -> (r: Self)
        ensures
            r@ == (BuilderSettings { endpoint: Some(endpoint@), ..self@ }),
    {
        BloopClientBuilder { endpoint: Some(endpoint.to_string()), ..self }
    }

    pub fn project_key(self, key: &str) -> (r: Self)
        ensures
            r@ == (BuilderSettings { project_key: Some(key@), ..self@ }),
    {
        BloopClientBuilder { project_key: Some(key.to_string()), ..self }
    }

    pub fn environment(self, env: &str) -> (r: Self)
        ensures
            r@ == (BuilderSettings { environment: env@, ..self@ }),
    {
        BloopClientBuilder { environment: env.to_string(), ..self }
    }

    pub fn release(self, release: &str) -> (r: Self)
        ensures
            r@ == (BuilderSettings { release: release@, ..self@ }),
    {
        BloopClientBuilder { release: release.to_string(), ..self }
    }

    pub fn source(self, source: &str) -> (r: Self)
        ensures
            r@ == (BuilderSettings { source: source@, ..self@ }),
    {
        BloopClientBuilder { source: source.to_string(), ..self }
    }

    /// Builds the client. Fails, naming the field, when the endpoint or else
    /// the project key is missing; otherwise the client has the collected
    /// settings, the endpoint without trailing slashes, and both buffers empty.
    pub fn build(self) -> (r: Result<BloopClient, String>)
        ensures
            match (self@.endpoint, self@.project_key) {
                (None, _) => (r matches Err(e) && e@ == "endpoint is required"@),
                (Some(_), None) => (r matches Err(e) && e@ == "project_key is required"@),
                (Some(ep), Some(key)) => (r matches Ok(c) && c.well_formed() && c@ == (ClientState {
                    endpoint: strip_trailing_slashes(ep),
                    project_key: key,
                    environment: self@.environment,
                    release: self@.release,
                    source: self@.source,
                    max_buffer_size: self@.max_buffer_size,
                    errors: Seq::empty(),
                    traces: Seq::empty(),
                })),
            },
    {
        let endpoint = match self.endpoint {
            Some(e) => e,
            None => {
                return Err("endpoint is required".to_string());
            },
        };
        let project_key = match self.project_key {
            Some(k) => k,
            None => {
                return Err("project_key is required".to_string());
            },
        };
        let http = reqwest::Client::new();
        Ok(
            BloopClient {
                endpoint: strip_slashes(endpoint.as_str()),
                project_key,
                environment: self.environment,
                release: self.release,
                source: self.source,
                max_buffer_size: self.max_buffer_size,
                http,
                error_buffer: BatchBuffer::new(self.max_buffer_size),
                trace_buffer: BatchBuffer::new(self.max_buffer_size),
            },
        )
    }
}

/// Where a batch goes on the ingestion service.
#[derive(Debug, Clone, Copy, PartialEq, Eq, Structural)]
pub enum BatchKind {
    Errors,
    Traces,
}

/// The path under the endpoint that takes batches of `kind`.
pub open spec fn batch_path(kind: BatchKind) -> Seq<char> {
    match kind {
        BatchKind::Errors => "/v1/ingest/batch"@,
        BatchKind::Traces => "/v1/traces/batch"@,
    }
}

/// A signed POST, ready for the transport.
pub struct OutboundRequest {
    pub url: String,
    /// Header names and values, in order.
    pub headers: Vec<(String, String)>,
    pub body: Vec<u8>,
}

/// What a flush sends: each buffer's drained contents, where there were any.
pub struct FlushBatches {
    pub errors: Option<Vec<IngestEvent>>,
    pub traces: Option<Vec<Trace>>,
}

/// A batch is sent only where it holds something.
pub open spec fn sent_if_any<T>(drained: Seq<T>, out: Option<Vec<T>>) -> bool {
    if drained.len() == 0 {
        out is None
    } else {
        out matches Some(b) && b@ == drained
    }
}

fn non_empty<T>(batch: Vec<T>) -> (r: Option<Vec<T>>)
    ensures
        sent_if_any(batch@, r),
{
    if batch.len() == 0 {
        None
    } else {
        Some(batch)
    }
}

impl FlushBatches {
    /// What a flush sends for the drained `errors` and `traces`: one request
    /// for each that is not empty, none for an empty one.
    pub fn from_drained(errors: Vec<IngestEvent>, traces: Vec<Trace>) -> (r: FlushBatches)
        ensures
            sent_if_any(errors@, r.errors),
            sent_if_any(traces@, r.traces),
    {
        FlushBatches { errors: non_empty(errors), traces: non_empty(traces) }
    }

    /// How many requests this flush makes.
    pub fn request_count(&self) -> (n: usize)
        ensures
            n == (if self.errors is Some { 1nat } else { 0nat }) + (if self.traces is Some {
                1nat
            } else {
                0nat
            }),
    {
        let mut n: usize = 0;
        if self.errors.is_some() {
            n = n + 1;
        }
        if self.traces.is_some() {
            n = n + 1;
        }
        n
    }
}

/// A flush of two empty buffers makes no request.
pub proof fn lemma_flush_of_empty_buffers(before: ClientState, after: ClientState, r: FlushBatches)
    requires
        flushed(before, after, r),
        before.errors.len() == 0,
        before.traces.len() == 0,
    ensures
        r.errors is None,
        r.traces is None,
{
}

/// `rec` is the record sent for an error with only a type and a message,
/// captured by a client with settings `c`.
pub open spec fn plain_error(rec: IngestEvent, error_type: Seq<char>, message: Seq<char>, c: ClientState) -> bool {
    &&& rec.timestamp >= 0
    &&& rec.source@ == c.source
    &&& rec.environment@ == c.environment
    &&& rec.release@ == c.release
    &&& rec.error_type@ == error_type
    &&& rec.message@ == message
    &&& rec.route_or_procedure is None
    &&& rec.screen is None
    &&& rec.stack is None
    &&& rec.http_status is None
    &&& rec.request_id is None
    &&& rec.user_id_hash is None
    &&& rec.metadata is None
}

/// `after` is `before` with its error buffer changed to `errors`.
pub open spec fn with_errors(before: ClientState, errors: Seq<IngestEvent>) -> ClientState {
    ClientState { errors, ..before }
}

/// `after` is `before` with its trace buffer changed to `traces`.
pub open spec fn with_traces(before: ClientState, traces: Seq<Trace>) -> ClientState {
    ClientState { traces, ..before }
}

/// `rec` went into the error buffer of `before`, giving `after` and handing out
/// `batch`: one buffer push.
pub open spec fn error_pushed(before: ClientState, after: ClientState, rec: IngestEvent, batch: Option<Vec<IngestEvent>>) -> bool {
    let (errors, out) = push_step(before.errors, rec, before.max_buffer_size);
    &&& after == with_errors(before, errors)
    &&& batch_view(batch) == out
}

/// A flush of `before`: both buffers drained, errors first, into `r`, which
/// holds a batch for each buffer that held something, and nothing else.
pub open spec fn flushed(before: ClientState, after: ClientState, r: FlushBatches) -> bool {
    &&& after == with_traces(with_errors(before, drain_step(before.errors).0), drain_step(before.traces).0)
    &&& sent_if_any(drain_step(before.errors).1, r.errors)
    &&& sent_if_any(drain_step(before.traces).1, r.traces)
}

/// Reports error events and traces: records go into one buffer per kind and
/// leave as a batch when a buffer fills, or when the client is flushed. The
/// client has one owner; to share it between threads, put it behind one lock,
/// which then admits captures, sends and flushes one at a time.
pub struct BloopClient {
    endpoint: String,
    project_key: String,
    environment: String,
    release: String,
    source: String,
    max_buffer_size: usize,
    http: reqwest::Client,
    error_buffer: BatchBuffer<IngestEvent>,
    trace_buffer: BatchBuffer<Trace>,
}

impl View for BloopClient {
    type V = ClientState;

    closed spec fn view(&self) -> ClientState {
        ClientState {
            endpoint: self.endpoint@,
            project_key: self.project_key@,
            environment: self.environment@,
            release: self.release@,
            source: self.source@,
            max_buffer_size: self.max_buffer_size as nat,
            errors: self.error_buffer@,
            traces: self.trace_buffer@,
        }
    }
}

impl BloopClient {
    /// Both buffers use the client's buffer size.
    pub closed spec fn well_formed(&self) -> bool {
        &&& self.error_buffer.max_size() == self.max_buffer_size
        &&& self.trace_buffer.max_size() == self.max_buffer_size
    }

    pub fn builder() -> (r: BloopClientBuilder)
        ensures
            r@ == default_settings(),
    {
        BloopClientBuilder::new()
    }

    /// The transport shared by this client's requests.
    pub fn http(&self) -> &reqwest::Client {
        &self.http
    }

    /// Records `event` as captured at `timestamp`: its record is appended to
    /// the error buffer, and when that brings the buffer to the buffer size
    /// the whole buffer, this record last, comes back as the batch to send and
    /// the buffer is empty again.
    pub fn capture_at(&mut self, event: Event, timestamp: i64) -> (batch: Option<Vec<IngestEvent>>)
        requires
            old(self).well_formed(),
        ensures
            final(self).well_formed(),
            exists|rec: IngestEvent|
                #[trigger] ingested_from(
                    rec,
                    event,
                    timestamp,
                    old(self)@.source,
                    old(self)@.environment,
                    old(self)@.release,
                ) && error_pushed(old(self)@, final(self)@, rec, batch),
    {
        let ingest = IngestEvent::from_event(
            event,
            timestamp,
            &self.source,
            &self.environment,
            &self.release,
        );
        let ghost rec = ingest;
        let batch = self.error_buffer.push(ingest);
        assert(ingested_from(rec, event, timestamp, old(self)@.source, old(self)@.environment, old(self)@.release));
        batch
    }

    /// Records `event`, stamped with the current time; see
    /// [`BloopClient::capture_at`].
    pub fn capture(&mut self, event: Event) -> (batch: Option<Vec<IngestEvent>>)
        requires
            old(self).well_formed(),
        ensures
            final(self).well_formed(),
            exists|rec: IngestEvent|
                #[trigger] ingested_from(
                    rec,
                    event,
                    rec.timestamp,
                    old(self)@.source,
                    old(self)@.environment,
                    old(self)@.release,
                ) && rec.timestamp >= 0 && error_pushed(old(self)@, final(self)@, rec, batch),
    {
        let now = chrono_millis();
        self.capture_at(event, now)
    }

    /// Records an event with only a type and a message, stamped with the
    /// current time; see [`BloopClient::capture_at`].
    pub fn capture_error(&mut self, error_type: &str, message: &str) -> (batch: Option<
        Vec<IngestEvent>,
    >)
        requires
            old(self).well_formed(),
        ensures
            final(self).well_formed(),
            exists|rec: IngestEvent|
                #[trigger] plain_error(rec, error_type@, message@, old(self)@) && error_pushed(
                    old(self)@,
                    final(self)@,
                    rec,
                    batch,
                ),
    {
        let event = Event {
            error_type: error_type.to_string(),
            message: message.to_string(),
            source: None,
            route_or_procedure: None,
            screen: None,
            stack: None,
            http_status: None,
            request_id: None,
            user_id_hash: None,
            metadata: None,
        };
        let ghost ev = event;
        let batch = self.capture(event);
        proof {
            let rec = choose|rec: IngestEvent|
                #[trigger] ingested_from(
                    rec,
                    ev,
                    rec.timestamp,
                    old(self)@.source,
                    old(self)@.environment,
                    old(self)@.release,
                ) && rec.timestamp >= 0 && error_pushed(old(self)@, final(self)@, rec, batch);
            assert(plain_error(rec, error_type@, message@, old(self)@));
        }
        batch
    }

    pub fn start_trace(&self, name: &str) -> (r: Trace)
        ensures
            is_new_trace(r, name@),
    {
        Trace::new(name)
    }

    /// Queues a finished trace: it is appended to the trace buffer, and when
    /// that brings the buffer to the buffer size the whole buffer, this trace
    /// last, comes back as the batch to send and the buffer is empty again.
    pub fn send_trace(&mut self, trace: Trace) -> (batch: Option<Vec<Trace>>)
        requires
            old(self).well_formed(),
        ensures
            final(self).well_formed(),
            ({
                let (traces, out) = push_step(old(self)@.traces, trace, old(self)@.max_buffer_size);
                &&& final(self)@ == with_traces(old(self)@, traces)
                &&& batch_view(batch) == out
            }),
    {
        self.trace_buffer.push(trace)
    }

    /// Drains both buffers, errors first, whatever they hold, and returns
    /// what must be sent: a batch for each buffer that held something.
    pub fn flush(&mut self) -> (r: FlushBatches)
        requires
            old(self).well_formed(),
        ensures
            final(self).well_formed(),
            flushed(old(self)@, final(self)@, r),
    {
        let errors = self.error_buffer.drain();
        let traces = self.trace_buffer.drain();
        FlushBatches::from_drained(errors, traces)
    }

    /// The same as [`BloopClient::flush`]: nothing else is held.
    pub fn shutdown(&mut self) -> (r: FlushBatches)
        requires
            old(self).well_formed(),
        ensures
            final(self).well_formed(),
            flushed(old(self)@, final(self)@, r),
    {
        self.flush()
    }

    /// The signed POST that carries `body`, the serialized batch of `kind`:
    /// to the endpoint's path for that kind, with the JSON content type, the
    /// HMAC-SHA256 signature of exactly these bytes under the project key,
    /// and the project key itself.
    pub fn request_for(&self, kind: BatchKind, body: Vec<u8>) -> (r: OutboundRequest)
        ensures
            r.url@ == self@.endpoint + batch_path(kind),
            r.body@ == body@,
            r.headers@.len() == 3,
            r.headers@[0].0@ == "Content-Type"@,
            r.headers@[0].1@ == "application/json"@,
            r.headers@[1].0@ == "X-Signature"@,
            r.headers@[1].1@ == signature(encode_utf8(self@.project_key), body@),
            r.headers@[2].0@ == "X-Project-Key"@,
            r.headers@[2].1@ == self@.project_key,
    {
        let mut url = self.endpoint.clone();
        match kind {
            BatchKind::Errors => url.append("/v1/ingest/batch"),
            BatchKind::Traces => url.append("/v1/traces/batch"),
        }
        let sig = sign(self.project_key.as_str(), body.as_slice());
        let mut headers: Vec<(String, String)> = Vec::new();
        headers.push(("Content-Type".to_string(), "application/json".to_string()));
        headers.push(("X-Signature".to_string(), sig));
        headers.push(("X-Project-Key".to_string(), self.project_key.clone()));
        OutboundRequest { url, headers, body }
    }
}

} // verus!
