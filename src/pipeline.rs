//! The four stages and one orchestrator composed in one place: a run on a text
//! relays the envelopes from stage to stage and keeps each reply.
use vstd::prelude::*;

use crate::envelope::{Msg, Timestamp};
use crate::orchestrator::{Action, Orchestrator, Phase, StageId};
use crate::stages::{
    filter_reply, ingress_reply, response_reply, Filter, HttpHandler, ResponseCreator, Storage,
};

verus! {

/// The replies of the four stages, in order, to a request on `text` that was
/// taken in at `t1`, given the identifier `id`, and answered at `t2`.
pub open spec fn run_trace(text: String, t1: Timestamp, id: u32, t2: Timestamp) -> Seq<Msg> {
    seq![
        Msg::TimestampedRequest(text, t1),
        Msg::IndexedRequest(text, t1, id),
        Msg::StoredAck(id),
        Msg::Response(id, t2),
    ]
}

/// Whether `trace` records a complete run on `text` that took the storage
/// stage from `before` to `after`: the request's text and intake instant are
/// stored under the identifier that the final response carries.
pub open spec fn is_complete_run(
    text: String,
    trace: Seq<Msg>,
    before: Map<u32, (String, Timestamp)>,
    after: Map<u32, (String, Timestamp)>,
) -> bool {
    let t1 = trace[0]->TimestampedRequest_1;
    let id = trace[3]->Response_0;
    let t2 = trace[3]->Response_1;
    &&& trace == run_trace(text, t1, id, t2)
    &&& after == before.insert(id, (text, t1))
}

/// A complete run ends in a response, never in a failure, and the response
/// carries the identifier that the filter stage drew and the storage stage
/// acknowledged.
pub proof fn lemma_run_ends_in_response(
    text: String,
    trace: Seq<Msg>,
    before: Map<u32, (String, Timestamp)>,
    after: Map<u32, (String, Timestamp)>,
)
    requires
        is_complete_run(text, trace, before, after),
    ensures
        trace.len() == 4,
        forall|j: int| 0 <= j < 4 ==> !(#[trigger] trace[j] is Failure),
        trace[0] == Msg::TimestampedRequest(text, trace[0]->TimestampedRequest_1),
        trace[3] is Response,
        trace[3]->Response_0 == trace[1]->IndexedRequest_2,
        trace[2] == Msg::StoredAck(trace[3]->Response_0),
{
}

/// After a complete run the storage stage holds the request's text and intake
/// instant under the identifier of the final response, and every other entry
/// as it was; where that identifier was free, exactly one entry was added.
pub proof fn lemma_run_stores_request(
    text: String,
    trace: Seq<Msg>,
    before: Map<u32, (String, Timestamp)>,
    after: Map<u32, (String, Timestamp)>,
)
    requires
        is_complete_run(text, trace, before, after),
        before.dom().finite(),
    ensures
        after.contains_key(trace[3]->Response_0),
        after[trace[3]->Response_0] == (text, trace[0]->TimestampedRequest_1),
        forall|k: u32|
            k != trace[3]->Response_0 ==> (#[trigger] after.contains_key(k) == before.contains_key(
                k,
            ) && (before.contains_key(k) ==> after[k] == before[k])),
        !before.contains_key(trace[3]->Response_0) ==> after.len() == before.len() + 1,
{
}

/// The same text run twice is stored twice, once under each identifier drawn,
/// with nothing that merges the two; where the two identifiers differ, both
/// entries are kept.
pub proof fn lemma_two_runs_store_twice(
    text: String,
    trace1: Seq<Msg>,
    trace2: Seq<Msg>,
    s0: Map<u32, (String, Timestamp)>,
    s1: Map<u32, (String, Timestamp)>,
    s2: Map<u32, (String, Timestamp)>,
)
    requires
        is_complete_run(text, trace1, s0, s1),
        is_complete_run(text, trace2, s1, s2),
        trace1[3]->Response_0 != trace2[3]->Response_0,
        s0.dom().finite(),
    ensures
        s2.contains_key(trace1[3]->Response_0),
        s2.contains_key(trace2[3]->Response_0),
        s2[trace1[3]->Response_0] == (text, trace1[0]->TimestampedRequest_1),
        s2[trace2[3]->Response_0] == (text, trace2[0]->TimestampedRequest_1),
        !s0.contains_key(trace1[3]->Response_0) && !s0.contains_key(trace2[3]->Response_0) ==> s2.len()
            == s0.len() + 2,
{
    lemma_run_stores_request(text, trace1, s0, s1);
    lemma_run_stores_request(text, trace2, s1, s2);
}

/// A run whose identifier is already taken still succeeds: the entry under it
/// is replaced by the new request, and no entry is added.
pub proof fn lemma_run_overwrites_taken_id(
    text: String,
    trace: Seq<Msg>,
    before: Map<u32, (String, Timestamp)>,
    after: Map<u32, (String, Timestamp)>,
)
    requires
        is_complete_run(text, trace, before, after),
        before.contains_key(trace[3]->Response_0),
        before.dom().finite(),
    ensures
        trace[2] == Msg::StoredAck(trace[3]->Response_0),
        after[trace[3]->Response_0] == (text, trace[0]->TimestampedRequest_1),
        after.dom() == before.dom(),
        after.len() == before.len(),
{
    assert(after.dom() =~= before.dom());
}

/// The phase of the orchestrator once `n` replies have come in.
pub open spec fn phase_after(n: int) -> Phase {
    if n == 0 {
        Phase::AwaitingIngress
    } else if n == 1 {
        Phase::AwaitingFilter
    } else if n == 2 {
        Phase::AwaitingStorage
    } else if n == 3 {
        Phase::AwaitingResponse
    } else {
        Phase::Done
    }
}

/// The orchestrator's pending action once the replies `trace` have come in.
pub open spec fn action_after(text: String, trace: Seq<Msg>) -> Action {
    if trace.len() == 0 {
        Action::Send(StageId::Ingress, Msg::Request(text))
    } else if trace.len() == 1 {
        Action::Send(StageId::Filter, trace[0])
    } else if trace.len() == 2 {
        Action::Send(StageId::Storage, trace[1])
    } else if trace.len() == 3 {
        Action::Send(StageId::Response, trace[2])
    } else {
        Action::Finish(trace[3])
    }
}

/// The four stages of the pipeline.
pub struct Pipeline {
    pub ingress: HttpHandler,
    pub filter: Filter,
    pub storage: Storage,
    pub response: ResponseCreator,
}

impl Pipeline {
    /// A pipeline whose storage stage holds nothing.
    pub fn new() -> (r: Pipeline)
        ensures
            r.storage@ == Map::<u32, (String, Timestamp)>::empty(),
    {
        Pipeline {
            ingress: HttpHandler::new(),
            filter: Filter::new(),
            storage: Storage::new(),
            response: ResponseCreator::new(),
        }
    }

    /// Runs one request on `text` through the four stages, as the orchestrator
    /// directs, and returns the reply of each stage in order.
    pub fn run(&mut self, text: String) -> (trace: Vec<Msg>)
        ensures
            is_complete_run(text, trace@, old(self).storage@, final(self).storage@),
    {
        let ghost before = self.storage@;
        let ghost g_text = text;
        let ghost mut t1 = Timestamp { nanos: 0 };
        let ghost mut id: u32 = 0;
        let ghost mut t2 = Timestamp { nanos: 0 };
        let mut orch = Orchestrator::new();
        let mut trace: Vec<Msg> = Vec::new();
        let mut action = orch.start(text);
        loop
            invariant
                trace.len() <= 4,
                orch@ == phase_after(trace.len() as int),
                trace.len() >= 1 ==> trace@[0] == Msg::TimestampedRequest(g_text, t1),
                trace.len() >= 2 ==> trace@[1] == Msg::IndexedRequest(g_text, t1, id),
                trace.len() >= 3 ==> trace@[2] == Msg::StoredAck(id),
                trace.len() >= 4 ==> trace@[3] == Msg::Response(id, t2),
                action == action_after(g_text, trace@),
                trace.len() < 3 ==> self.storage@ == before,
                trace.len() >= 3 ==> self.storage@ == before.insert(id, (g_text, t1)),
            ensures
                trace.len() == 4,
                trace@[0] == Msg::TimestampedRequest(g_text, t1),
                trace@[1] == Msg::IndexedRequest(g_text, t1, id),
                trace@[2] == Msg::StoredAck(id),
                trace@[3] == Msg::Response(id, t2),
                self.storage@ == before.insert(id, (g_text, t1)),
            decreases 4 - trace.len(),
        {
            match action {
                Action::Send(stage, msg) => {
                    let ghost g_msg = msg;
                    let reply = match stage {
                        StageId::Ingress => self.ingress.handle(msg),
                        StageId::Filter => self.filter.handle(msg),
                        StageId::Storage => self.storage.handle(msg),
                        StageId::Response => self.response.handle(msg),
                    };
                    proof {
                        if trace.len() == 0 {
                            t1 = choose|t: Timestamp| reply == ingress_reply(g_msg, t);
                        } else if trace.len() == 1 {
                            id = choose|i: u32| reply == filter_reply(g_msg, i);
                        } else if trace.len() == 3 {
                            t2 = choose|t: Timestamp| reply == response_reply(g_msg, t);
                        }
                    }
                    trace.push(reply.clone());
                    action = orch.on_reply(reply);
                },
                _ => break,
            }
        }
        proof {
            let full = run_trace(g_text, t1, id, t2);
            assert(trace@ =~= full);
        }
        trace
    }
}

} // verus!
