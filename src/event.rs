use vstd::prelude::*;

verus! {

/// Free-form JSON metadata, carried through unread.
#[verifier::external_type_specification]
#[verifier::external_body]
pub struct ExValue(serde_json::Value);

/// An error event as the application reports it.
#[derive(Debug, Clone, Default)]
pub struct Event {
    pub error_type: String,
    pub message: String,
    pub source: Option<String>,
    pub route_or_procedure: Option<String>,
    pub screen: Option<String>,
    pub stack: Option<String>,
    pub http_status: Option<u16>,
    pub request_id: Option<String>,
    pub user_id_hash: Option<String>,
    pub metadata: Option<serde_json::Value>,
}

/// An event as it is sent: the reported fields with the capture time and the
/// client's environment, release and, unless the event named one, source.
#[derive(Debug)]
pub struct IngestEvent {
    pub timestamp: i64,
    pub source: String,
    pub environment: String,
    pub release: String,
    pub error_type: String,
    pub message: String,
    pub route_or_procedure: Option<String>,
    pub screen: Option<String>,
    pub stack: Option<String>,
    pub http_status: Option<u16>,
    pub request_id: Option<String>,
    pub user_id_hash: Option<String>,
    pub metadata: Option<serde_json::Value>,
}

/// `ingest` is `event` as sent at `timestamp` by a client configured with
/// `source`, `environment` and `release`.
pub open spec fn ingested_from(
    ingest: IngestEvent,
    event: Event,
    timestamp: i64,
    source: Seq<char>,
    environment: Seq<char>,
    release: Seq<char>,
) -> bool {
    &&& ingest.timestamp == timestamp
    &&& ingest.source@ == match event.source {
        Some(s) => s@,
        None => source,
    }
    &&& ingest.environment@ == environment
    &&& ingest.release@ == release
    &&& ingest.error_type == event.error_type
    &&& ingest.message == event.message
    &&& ingest.route_or_procedure == event.route_or_procedure
    &&& ingest.screen == event.screen
    &&& ingest.stack == event.stack
    &&& ingest.http_status == event.http_status
    &&& ingest.request_id == event.request_id
    &&& ingest.user_id_hash == event.user_id_hash
    &&& ingest.metadata == event.metadata
}

impl IngestEvent {
    /// Builds the record sent for `event`, captured at `timestamp`; the
    /// client's `source` stands in where the event names none.
    pub fn from_event(
        event: Event,
        timestamp: i64,
        source: &String,
        environment: &String,
        release: &String,
    ) -> (r: IngestEvent)
        ensures
            ingested_from(r, event, timestamp, source@, environment@, release@),
    {
        let Event {
            error_type,
            message,
            source: event_source,
            route_or_procedure,
            screen,
            stack,
            http_status,
            request_id,
            user_id_hash,
            metadata,
        } = event;
        let source = match event_source {
            Some(s) => s,
            None => source.clone(),
        };
        IngestEvent {
            timestamp,
            source,
            environment: environment.clone(),
            release: release.clone(),
            error_type,
            message,
            route_or_procedure,
            screen,
            stack,
            http_status,
            request_id,
            user_id_hash,
            metadata,
        }
    }
}

} // verus!
