use actor_pipeline::envelope::{Msg, PipelineError, Timestamp};
use actor_pipeline::orchestrator::{Action, Orchestrator, Phase, StageId};
use actor_pipeline::pipeline::Pipeline;
use actor_pipeline::stages::{Filter, HttpHandler, ResponseCreator, Storage};

fn ts(nanos: u128) -> Timestamp {
    Timestamp::from_nanos(nanos)
}

#[test]
fn haha_passes_every_stage() {
    let mut p = Pipeline::new();
    let trace = p.run("haha".to_string());
    assert_eq!(trace.len(), 4);
    let t1 = match &trace[0] {
        Msg::TimestampedRequest(text, t1) => {
            assert_eq!(text, "haha");
            *t1
        }
        other => panic!("unexpected ingress reply {:?}", other),
    };
    let r = match &trace[1] {
        Msg::IndexedRequest(text, t, r) => {
            assert_eq!(text, "haha");
            assert_eq!(*t, t1);
            *r
        }
        other => panic!("unexpected filter reply {:?}", other),
    };
    assert_eq!(trace[2], Msg::StoredAck(r));
    match &trace[3] {
        Msg::Response(id, t2) => {
            assert_eq!(*id, r);
            assert!(t2.nanos >= t1.nanos);
        }
        other => panic!("unexpected response reply {:?}", other),
    }
    assert_eq!(p.storage.get(r), Some(&("haha".to_string(), t1)));
    assert_eq!(p.storage.len(), 1);
}

#[test]
fn run_ends_in_response_with_the_drawn_id() {
    let mut p = Pipeline::new();
    let trace = p.run("some text".to_string());
    assert!(trace.iter().all(|m| !m.failed()));
    match (&trace[1], &trace[3]) {
        (Msg::IndexedRequest(_, _, id), Msg::Response(rid, _)) => assert_eq!(id, rid),
        other => panic!("unexpected trace {:?}", other),
    }
}

#[test]
fn run_adds_exactly_one_entry() {
    let mut p = Pipeline::new();
    p.run("first".to_string());
    let before = p.storage.len();
    let trace = p.run("x".to_string());
    let (id, t1) = match (&trace[0], &trace[3]) {
        (Msg::TimestampedRequest(_, t1), Msg::Response(id, _)) => (*id, *t1),
        other => panic!("unexpected trace {:?}", other),
    };
    assert_eq!(p.storage.get(id), Some(&("x".to_string(), t1)));
    if p.storage.len() == before {
        // the drawn identifier was the one already taken
        assert_eq!(before, 1);
    } else {
        assert_eq!(p.storage.len(), before + 1);
    }
}

#[test]
fn same_text_twice_is_stored_twice() {
    let mut p = Pipeline::new();
    let a = p.run("dup".to_string());
    let b = p.run("dup".to_string());
    let ida = match &a[3] {
        Msg::Response(id, _) => *id,
        other => panic!("unexpected reply {:?}", other),
    };
    let idb = match &b[3] {
        Msg::Response(id, _) => *id,
        other => panic!("unexpected reply {:?}", other),
    };
    if ida != idb {
        assert_eq!(p.storage.len(), 2);
        assert_eq!(p.storage.get(ida).map(|e| e.0.as_str()), Some("dup"));
        assert_eq!(p.storage.get(idb).map(|e| e.0.as_str()), Some("dup"));
    } else {
        assert_eq!(p.storage.len(), 1);
    }
}

#[test]
fn taken_id_is_overwritten() {
    let mut s = Storage::new();
    let first = s.handle(Msg::IndexedRequest("old".to_string(), ts(1), 7));
    assert_eq!(first, Msg::StoredAck(7));
    let second = s.handle(Msg::IndexedRequest("new".to_string(), ts(2), 7));
    assert_eq!(second, Msg::StoredAck(7));
    assert_eq!(s.len(), 1);
    assert_eq!(s.get(7), Some(&("new".to_string(), ts(2))));
}

#[test]
fn taken_id_through_the_stages() {
    let h = HttpHandler::new();
    let f = Filter::new();
    let mut s = Storage::new();
    let a = f.handle_with(h.handle_at(Msg::Request("a".to_string()), ts(10)), 42);
    assert_eq!(s.handle(a), Msg::StoredAck(42));
    let b = f.handle_with(h.handle_at(Msg::Request("b".to_string()), ts(20)), 42);
    assert_eq!(s.handle(b), Msg::StoredAck(42));
    assert_eq!(s.len(), 1);
    assert_eq!(s.get(42), Some(&("b".to_string(), ts(20))));
}

fn every_kind() -> Vec<Msg> {
    vec![
        Msg::Request("r".to_string()),
        Msg::TimestampedRequest("t".to_string(), ts(3)),
        Msg::IndexedRequest("i".to_string(), ts(4), 5),
        Msg::StoredAck(6),
        Msg::Response(7, ts(8)),
        Msg::Failure(PipelineError::Timeout),
    ]
}

#[test]
fn ingress_refuses_other_kinds() {
    let h = HttpHandler::new();
    for m in every_kind().into_iter().skip(1) {
        assert_eq!(h.handle(m.clone()), Msg::Failure(PipelineError::InvalidInput));
        assert_eq!(h.handle_at(m, ts(1)), Msg::Failure(PipelineError::InvalidInput));
    }
}

#[test]
fn filter_refuses_other_kinds() {
    let f = Filter::new();
    for (i, m) in every_kind().into_iter().enumerate() {
        if i == 1 {
            continue;
        }
        assert_eq!(f.handle(m.clone()), Msg::Failure(PipelineError::WrongInputType));
        assert_eq!(f.handle_with(m, 3), Msg::Failure(PipelineError::WrongInputType));
    }
}

#[test]
fn storage_refuses_other_kinds_and_stores_nothing() {
    let mut s = Storage::new();
    for (i, m) in every_kind().into_iter().enumerate() {
        if i == 2 {
            continue;
        }
        assert_eq!(s.handle(m), Msg::Failure(PipelineError::WrongInputType));
    }
    assert_eq!(s.len(), 0);
}

#[test]
fn response_refuses_other_kinds() {
    let r = ResponseCreator::new();
    for (i, m) in every_kind().into_iter().enumerate() {
        if i == 3 {
            continue;
        }
        assert_eq!(r.handle(m.clone()), Msg::Failure(PipelineError::WrongInputType));
        assert_eq!(r.handle_at(m, ts(1)), Msg::Failure(PipelineError::WrongInputType));
    }
}

#[test]
fn stages_answer_with_given_readings() {
    let h = HttpHandler::new();
    let f = Filter::new();
    let r = ResponseCreator::new();
    let a = h.handle_at(Msg::Request("haha".to_string()), ts(100));
    assert_eq!(a, Msg::TimestampedRequest("haha".to_string(), ts(100)));
    let b = f.handle_with(a, 4_000_000_000);
    assert_eq!(b, Msg::IndexedRequest("haha".to_string(), ts(100), 4_000_000_000));
    let mut s = Storage::new();
    let c = s.handle(b);
    assert_eq!(c, Msg::StoredAck(4_000_000_000));
    let d = r.handle_at(c, ts(250));
    assert_eq!(d, Msg::Response(4_000_000_000, ts(250)));
}

#[test]
fn stages_read_the_clock() {
    let before = Timestamp::now();
    let h = HttpHandler::new();
    match h.handle(Msg::Request("now".to_string())) {
        Msg::TimestampedRequest(text, t) => {
            assert_eq!(text, "now");
            assert!(t.nanos > 0);
            assert!(t.nanos >= before.nanos);
        }
        other => panic!("unexpected reply {:?}", other),
    }
    let r = ResponseCreator::new();
    match r.handle(Msg::StoredAck(9)) {
        Msg::Response(id, t) => {
            assert_eq!(id, 9);
            assert!(t.nanos > 0);
        }
        other => panic!("unexpected reply {:?}", other),
    }
}

#[test]
fn filter_draws_varying_ids() {
    let f = Filter::new();
    let mut ids = Vec::new();
    for _ in 0..16 {
        match f.handle(Msg::TimestampedRequest("x".to_string(), ts(1))) {
            Msg::IndexedRequest(text, t, id) => {
                assert_eq!(text, "x");
                assert_eq!(t, ts(1));
                ids.push(id);
            }
            other => panic!("unexpected reply {:?}", other),
        }
    }
    assert!(ids.iter().any(|id| *id != ids[0]));
}

#[test]
fn envelope_clone_is_equal() {
    for m in every_kind() {
        assert_eq!(m.clone(), m);
    }
    let e = PipelineError::IoAt { place: "here", message: "gone".to_string() };
    assert_eq!(e.clone(), e);
    assert!(Msg::Failure(PipelineError::Discard).failed());
    assert!(!Msg::StoredAck(1).failed());
}

#[test]
fn orchestrator_relays_in_order() {
    let mut o = Orchestrator::new();
    assert_eq!(o.phase(), Phase::Idle);
    assert_eq!(
        o.start("haha".to_string()),
        Action::Send(StageId::Ingress, Msg::Request("haha".to_string()))
    );
    assert_eq!(o.phase(), Phase::AwaitingIngress);
    let a = Msg::TimestampedRequest("haha".to_string(), ts(1));
    assert_eq!(o.on_reply(a.clone()), Action::Send(StageId::Filter, a));
    assert_eq!(o.phase(), Phase::AwaitingFilter);
    let b = Msg::IndexedRequest("haha".to_string(), ts(1), 5);
    assert_eq!(o.on_reply(b.clone()), Action::Send(StageId::Storage, b));
    assert_eq!(o.phase(), Phase::AwaitingStorage);
    assert_eq!(o.on_reply(Msg::StoredAck(5)), Action::Send(StageId::Response, Msg::StoredAck(5)));
    assert_eq!(o.phase(), Phase::AwaitingResponse);
    assert_eq!(o.on_reply(Msg::Response(5, ts(2))), Action::Finish(Msg::Response(5, ts(2))));
    assert_eq!(o.phase(), Phase::Done);
    assert_eq!(o.on_reply(Msg::StoredAck(5)), Action::Nothing);
    assert_eq!(o.on_timeout(), Action::Nothing);
    assert_eq!(o.start("again".to_string()), Action::Nothing);
    assert_eq!(o.phase(), Phase::Done);
}

#[test]
fn orchestrator_stops_at_failure() {
    let mut o = Orchestrator::new();
    o.start("x".to_string());
    o.on_reply(Msg::TimestampedRequest("x".to_string(), ts(1)));
    assert_eq!(
        o.on_reply(Msg::Failure(PipelineError::WrongInputType)),
        Action::Abort(PipelineError::WrongInputType)
    );
    assert_eq!(o.phase(), Phase::Failed);
    assert_eq!(o.on_reply(Msg::StoredAck(1)), Action::Nothing);
    assert_eq!(o.phase(), Phase::Failed);
}

#[test]
fn orchestrator_forwards_unexpected_kinds_unchanged() {
    let mut o = Orchestrator::new();
    o.start("x".to_string());
    assert_eq!(o.on_reply(Msg::StoredAck(3)), Action::Send(StageId::Filter, Msg::StoredAck(3)));
}

#[test]
fn orchestrator_times_out() {
    let mut o = Orchestrator::new();
    assert_eq!(o.on_timeout(), Action::Nothing);
    assert_eq!(o.phase(), Phase::Idle);
    o.start("x".to_string());
    assert_eq!(o.on_timeout(), Action::Abort(PipelineError::Timeout));
    assert_eq!(o.phase(), Phase::Failed);
}

#[test]
fn errors_convert_from_strings() {
    assert_eq!(
        PipelineError::from("disk full".to_string()),
        PipelineError::IoAt { place: "some string", message: "disk full".to_string() }
    );
    assert_eq!(PipelineError::from("wrong input type"), PipelineError::Discard);
    let other = PipelineError::Other("wrong input type");
    assert_eq!(Msg::Failure(other.clone()), Msg::Failure(other));
}
