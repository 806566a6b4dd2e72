use vstd::prelude::*;

use crate::sources::wall_clock_nanos;

verus! {

/// An instant, as nanoseconds after the Unix epoch.
#[derive(Clone, Copy, Debug, PartialEq, Eq, Structural)]
pub struct Timestamp {
    pub nanos: u128,
}

impl Timestamp {
    pub fn from_nanos(nanos: u128) -> (r: Timestamp)
        ensures
            r.nanos == nanos,
    {
        Timestamp { nanos }
    }

    /// The wall clock now; a clock set before the Unix epoch reads as the epoch.
    pub fn now() -> (r: Timestamp) {
        match wall_clock_nanos() {
            Some(n) => Timestamp { nanos: n },
            None => Timestamp { nanos: 0 },
        }
    }
}

/// What went wrong while a stage handled an envelope.
#[derive(Debug, PartialEq, Eq)]
pub enum PipelineError {
    /// An I/O failure, described by its message.
    Io(String),
    /// An I/O failure at a named place.
    IoAt { place: &'static str, message: String },
    /// Any other failure, described by a short message.
    Other(&'static str),
    /// A failure whose description was given up on.
    Discard,
    /// The ingress stage was handed something other than a raw request.
    InvalidInput,
    /// A stage was handed an envelope of a kind it does not take.
    WrongInputType,
    /// A stage did not answer in time.
    Timeout,
}

/// The envelope that the stages exchange: one variant per phase of a request.
#[derive(Debug, PartialEq, Eq)]
pub enum Msg {
    /// The raw text of a request.
    Request(String),
    /// The text and the instant the request was taken in.
    TimestampedRequest(String, Timestamp),
    /// The text, the instant it was taken in, and the identifier it was given.
    IndexedRequest(String, Timestamp, u32),
    /// The identifier under which the request was stored.
    StoredAck(u32),
    /// The identifier and the instant the response was made.
    Response(u32, Timestamp),
    /// A stage could not advance the request.
    Failure(PipelineError),
}

impl Clone for PipelineError {
    fn clone(&self) -> (r: PipelineError)
        ensures
            r == *self,
    {
        match self {
            PipelineError::Io(m) => PipelineError::Io(m.clone()),
            PipelineError::IoAt { place, message } => PipelineError::IoAt {
                place: *place,
                message: message.clone(),
            },
            PipelineError::Other(m) => PipelineError::Other(*m),
            PipelineError::Discard => PipelineError::Discard,
            PipelineError::InvalidInput => PipelineError::InvalidInput,
            PipelineError::WrongInputType => PipelineError::WrongInputType,
            PipelineError::Timeout => PipelineError::Timeout,
        }
    }
}

/// A plain message becomes an I/O failure at an unnamed place.
impl From<String> for PipelineError {
    fn from(message: String) -> (r: PipelineError) {
        PipelineError::IoAt { place: "some string", message }
    }
}

impl vstd::std_specs::convert::FromSpecImpl<String> for PipelineError {
    open spec fn obeys_from_spec() -> bool {
        true
    }

    open spec fn from_spec(message: String) -> PipelineError {
        PipelineError::IoAt { place: "some string", message }
    }
}

/// A static description is dropped.
impl From<&'static str> for PipelineError {
    fn from(_description: &'static str) -> (r: PipelineError) {
        PipelineError::Discard
    }
}

impl vstd::std_specs::convert::FromSpecImpl<&'static str> for PipelineError {
    open spec fn obeys_from_spec() -> bool {
        true
    }

    open spec fn from_spec(_description: &'static str) -> PipelineError {
        PipelineError::Discard
    }
}

impl Clone for Msg {
    fn clone(&self) -> (r: Msg)
        ensures
            r == *self,
    {
        match self {
            Msg::Request(text) => Msg::Request(text.clone()),
            Msg::TimestampedRequest(text, t) => Msg::TimestampedRequest(text.clone(), *t),
            Msg::IndexedRequest(text, t, id) => Msg::IndexedRequest(text.clone(), *t, *id),
            Msg::StoredAck(id) => Msg::StoredAck(*id),
            Msg::Response(id, t) => Msg::Response(*id, *t),
            Msg::Failure(e) => Msg::Failure(e.clone()),
        }
    }
}

impl Msg {
    /// Whether this envelope is a failure.
    pub fn failed(&self) -> (r: bool)
        ensures
            r == (*self is Failure),
    {
        match self {
            Msg::Failure(_) => true,
            _ => false,
        }
    }
}

} // verus!
