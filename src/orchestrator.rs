//! The decisions of the driver that relays envelopes from stage to stage. The
//! driver itself (sending, waiting, timing out) runs elsewhere: it feeds each
//! reply, or each timeout, to the orchestrator and carries out what it answers.
use vstd::prelude::*;

use crate::envelope::{Msg, PipelineError};

verus! {

/// The four stages, in the order a request passes them.
#[derive(Clone, Copy, Debug, PartialEq, Eq, Structural)]
pub enum StageId {
    Ingress,
    Filter,
    Storage,
    Response,
}

/// Where a run of the pipeline stands.
#[derive(Clone, Copy, Debug, PartialEq, Eq, Structural)]
pub enum Phase {
    Idle,
    AwaitingIngress,
    AwaitingFilter,
    AwaitingStorage,
    AwaitingResponse,
    Done,
    Failed,
}

/// What the driver is to do next.
#[derive(Debug, PartialEq, Eq)]
pub enum Action {
    /// Send the envelope to the stage, and hand its reply back.
    Send(StageId, Msg),
    /// The run is over; this is the final envelope.
    Finish(Msg),
    /// The run stopped at a failure; no further stage is to be called.
    Abort(PipelineError),
    /// Nothing: the event did not concern the run in its current phase.
    Nothing,
}

pub open spec fn is_awaiting(p: Phase) -> bool {
    ||| p is AwaitingIngress
    ||| p is AwaitingFilter
    ||| p is AwaitingStorage
    ||| p is AwaitingResponse
}

/// The phase and the action that follow `reply` in phase `p`: a failure ends
/// the run at once; any other reply goes on unchanged to the next stage, and
/// the response stage's reply is the final one.
pub open spec fn reply_step(p: Phase, reply: Msg) -> (Phase, Action) {
    if !is_awaiting(p) {
        (p, Action::Nothing)
    } else {
        match reply {
            Msg::Failure(e) => (Phase::Failed, Action::Abort(e)),
            _ => match p {
                Phase::AwaitingIngress => (Phase::AwaitingFilter, Action::Send(StageId::Filter, reply)),
                Phase::AwaitingFilter => (
                    Phase::AwaitingStorage,
                    Action::Send(StageId::Storage, reply),
                ),
                Phase::AwaitingStorage => (
                    Phase::AwaitingResponse,
                    Action::Send(StageId::Response, reply),
                ),
                _ => (Phase::Done, Action::Finish(reply)),
            },
        }
    }
}

/// The sequencing of one run through the four stages.
pub struct Orchestrator {
    phase: Phase,
}

impl View for Orchestrator {
    type V = Phase;

    closed spec fn view(&self) -> Phase {
        self.phase
    }
}

impl Orchestrator {
    /// An orchestrator that has not started.
    pub fn new() -> (r: Orchestrator)
        ensures
            r@ == Phase::Idle,
    {
        Orchestrator { phase: Phase::Idle }
    }

    pub fn phase(&self) -> (r: Phase)
        ensures
            r == self@,
    {
        self.phase
    }

    /// Starts a run on `text`: the raw request goes to the ingress stage. Once
    /// started, an orchestrator starts nothing more.
    pub fn start(&mut self, text: String) -> (r: Action)
        ensures
            old(self)@ is Idle ==> final(self)@ == Phase::AwaitingIngress && r == Action::Send(
                StageId::Ingress,
                Msg::Request(text),
            ),
            !(old(self)@ is Idle) ==> final(self)@ == old(self)@ && r == Action::Nothing,
    {
        match self.phase {
            Phase::Idle => {
                self.phase = Phase::AwaitingIngress;
                Action::Send(StageId::Ingress, Msg::Request(text))
            },
            _ => Action::Nothing,
        }
    }

    /// Takes the reply of the stage that was awaited.
    pub fn on_reply(&mut self, reply: Msg) -> (r: Action)
        ensures
            (final(self)@, r) == reply_step(old(self)@, reply),
    {
        if !self.awaiting() {
            return Action::Nothing;
        }
        if reply.failed() {
            return self.fail(reply);
        }
        match self.phase {
            Phase::AwaitingIngress => {
                self.phase = Phase::AwaitingFilter;
                Action::Send(StageId::Filter, reply)
            },
            Phase::AwaitingFilter => {
                self.phase = Phase::AwaitingStorage;
                Action::Send(StageId::Storage, reply)
            },
            Phase::AwaitingStorage => {
                self.phase = Phase::AwaitingResponse;
                Action::Send(StageId::Response, reply)
            },
            _ => {
                self.phase = Phase::Done;
                Action::Finish(reply)
            },
        }
    }

    fn awaiting(&self) -> (r: bool)
        ensures
            r == is_awaiting(self@),
    {
        matches!(
            self.phase,
            Phase::AwaitingIngress | Phase::AwaitingFilter | Phase::AwaitingStorage
                | Phase::AwaitingResponse
        )
    }

    fn fail(&mut self, reply: Msg) -> (r: Action)
        requires
            reply is Failure,
        ensures
            final(self)@ == Phase::Failed,
            r == Action::Abort(reply->Failure_0),
    {
        self.phase = Phase::Failed;
        match reply {
            Msg::Failure(e) => Action::Abort(e),
            _ => Action::Nothing,
        }
    }

    /// The awaited stage did not answer in time: the run fails.
    pub fn on_timeout(&mut self) -> (r: Action)
        ensures
            is_awaiting(old(self)@) ==> final(self)@ == Phase::Failed && r == Action::Abort(
                PipelineError::Timeout,
            ),
            !is_awaiting(old(self)@) ==> final(self)@ == old(self)@ && r == Action::Nothing,
    {
        if self.awaiting() {
            self.phase = Phase::Failed;
            Action::Abort(PipelineError::Timeout)
        } else {
            Action::Nothing
        }
    }
}

} // verus!
