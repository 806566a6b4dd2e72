//! The four stages. Each reads one envelope and answers with the next one, or
//! with a failure where the envelope is not of the kind it takes.
use std::collections::HashMap;
use vstd::prelude::*;

use crate::envelope::{Msg, PipelineError, Timestamp};
use crate::sources::random_u32;

verus! {

broadcast use vstd::std_specs::hash::group_hash_axioms;

/// The ingress stage's answer to `m` when the clock reads `now`.
pub open spec fn ingress_reply(m: Msg, now: Timestamp) -> Msg {
    match m {
        Msg::Request(text) => Msg::TimestampedRequest(text, now),
        _ => Msg::Failure(PipelineError::InvalidInput),
    }
}

/// The filter stage's answer to `m` when it draws the identifier `id`.
pub open spec fn filter_reply(m: Msg, id: u32) -> Msg {
    match m {
        Msg::TimestampedRequest(text, t) => Msg::IndexedRequest(text, t, id),
        _ => Msg::Failure(PipelineError::WrongInputType),
    }
}

/// The storage stage's answer to `m`.
pub open spec fn storage_reply(m: Msg) -> Msg {
    match m {
        Msg::IndexedRequest(_, _, id) => Msg::StoredAck(id),
        _ => Msg::Failure(PipelineError::WrongInputType),
    }
}

/// What the storage stage holds after handling `m`, having held `store`.
pub open spec fn storage_after(store: Map<u32, (String, Timestamp)>, m: Msg) -> Map<
    u32,
    (String, Timestamp),
> {
    match m {
        Msg::IndexedRequest(text, t, id) => store.insert(id, (text, t)),
        _ => store,
    }
}

/// The response stage's answer to `m` when the clock reads `now`.
pub open spec fn response_reply(m: Msg, now: Timestamp) -> Msg {
    match m {
        Msg::StoredAck(id) => Msg::Response(id, now),
        _ => Msg::Failure(PipelineError::WrongInputType),
    }
}

/// A stage handed an envelope of a kind it does not take answers with a
/// failure, and the storage stage then stores nothing.
pub proof fn lemma_unexpected_envelope_fails(
    m: Msg,
    now: Timestamp,
    id: u32,
    store: Map<u32, (String, Timestamp)>,
)
    ensures
        !(m is Request) ==> ingress_reply(m, now) == Msg::Failure(PipelineError::InvalidInput),
        !(m is TimestampedRequest) ==> filter_reply(m, id) == Msg::Failure(
            PipelineError::WrongInputType,
        ),
        !(m is IndexedRequest) ==> storage_reply(m) == Msg::Failure(PipelineError::WrongInputType)
            && storage_after(store, m) == store,
        !(m is StoredAck) ==> response_reply(m, now) == Msg::Failure(
            PipelineError::WrongInputType,
        ),
{
}

/// Stamps a raw request with the instant it was taken in.
pub struct HttpHandler {}

impl HttpHandler {
    pub fn new() -> (r: HttpHandler) {
        HttpHandler {}
    }

    /// Answers `msg` as if the clock read `now`.
    pub fn handle_at(&self, msg: Msg, now: Timestamp) -> (r: Msg)
        ensures
            r == ingress_reply(msg, now),
    {
        match msg {
            Msg::Request(text) => Msg::TimestampedRequest(text, now),
            _ => Msg::Failure(PipelineError::InvalidInput),
        }
    }

    /// Answers `msg`, stamping a request with the wall clock.
    pub fn handle(&self, msg: Msg) -> (r: Msg)
        ensures
            exists|now: Timestamp| r == #[trigger] ingress_reply(msg, now),
    {
        let now = Timestamp::now();
        self.handle_at(msg, now)
    }
}

/// Gives each timestamped request a random identifier.
pub struct Filter {}

impl Filter {
    pub fn new() -> (r: Filter) {
        Filter {}
    }

    /// Answers `msg` as if `id` had been drawn.
    pub fn handle_with(&self, msg: Msg, id: u32) -> (r: Msg)
        ensures
            r == filter_reply(msg, id),
    {
        match msg {
            Msg::TimestampedRequest(text, t) => Msg::IndexedRequest(text, t, id),
            _ => Msg::Failure(PipelineError::WrongInputType),
        }
    }

    /// Answers `msg`, drawing a fresh identifier for a timestamped request.
    pub fn handle(&self, msg: Msg) -> (r: Msg)
        ensures
            exists|id: u32| r == #[trigger] filter_reply(msg, id),
    {
        let id = random_u32();
        self.handle_with(msg, id)
    }
}

/// Records each indexed request under its identifier.
pub struct Storage {
    store: HashMap<u32, (String, Timestamp)>,
}

impl View for Storage {
    type V = Map<u32, (String, Timestamp)>;

    closed spec fn view(&self) -> Map<u32, (String, Timestamp)> {
        self.store@
    }
}

impl Storage {
    /// A storage stage that holds nothing.
    pub fn new() -> (r: Storage)
        ensures
            r@ == Map::<u32, (String, Timestamp)>::empty(),
    {
        let store = HashMap::<u32, (String, Timestamp)>::new();
        Storage { store }
    }

    /// Stores an indexed request under its identifier, replacing whatever was
    /// stored under it, and acknowledges it; any other envelope changes nothing.
    pub fn handle(&mut self, msg: Msg) -> (r: Msg)
        ensures
            r == storage_reply(msg),
            final(self)@ == storage_after(old(self)@, msg),
    {
        match msg {
            Msg::IndexedRequest(text, t, id) => {
                self.store.insert(id, (text, t));
                Msg::StoredAck(id)
            },
            _ => Msg::Failure(PipelineError::WrongInputType),
        }
    }

    /// What the storage stage holds is finite.
    pub proof fn lemma_view_finite(&self)
        ensures
            self@.dom().finite(),
    {
    }

    /// The entry stored under `id`, if any.
    pub fn get(&self, id: u32) -> (r: Option<&(String, Timestamp)>)
        ensures
            r == (if self@.contains_key(id) { Some(&self@[id]) } else { None }),
    {
        self.store.get(&id)
    }

    /// The number of identifiers that hold an entry.
    pub fn len(&self) -> (r: usize)
        ensures
            r == self@.len(),
    {
        self.store.len()
    }
}

/// Turns an acknowledged identifier into the outward response.
pub struct ResponseCreator {}

impl ResponseCreator {
    pub fn new() -> (r: ResponseCreator) {
        ResponseCreator {}
    }

    /// Answers `msg` as if the clock read `now`.
    pub fn handle_at(&self, msg: Msg, now: Timestamp) -> (r: Msg)
        ensures
            r == response_reply(msg, now),
    {
        match msg {
            Msg::StoredAck(id) => Msg::Response(id, now),
            _ => Msg::Failure(PipelineError::WrongInputType),
        }
    }

    /// Answers `msg`, stamping a response with the wall clock.
    pub fn handle(&self, msg: Msg) -> (r: Msg)
        ensures
            exists|now: Timestamp| r == #[trigger] response_reply(msg, now),
    {
        let now = Timestamp::now();
        self.handle_at(msg, now)
    }
}

} // verus!
