use omachess::engine_worker::{
    Action, EngineWorker, Event, Found, Limit, Received, Reply, Request, Worker, DRAIN_BUDGET,
    MOVE_TIME_MS, STUDY_TIME_CAP_MS,
};
use omachess::chess::Color;

const START: &str = "rnbqkbnr/pppppppp/8/8/8/8/PPPPPPPP/RNBQKBNR w KQkq - 0 1";

fn request() -> Request {
    Request::Move { fen: START.to_owned(), moves: Vec::new(), elo: 1320 }
}

/// The thread's work on one request with an engine that cannot be started.
fn fail(worker: &mut Worker) -> Vec<Reply<u32, u32>> {
    let mut replies = Vec::new();
    let mut action: Action<u32, u32> = worker.handle(Event::Asked(request()));
    loop {
        action = match action {
            Action::Spawn => worker.handle(Event::Spawned(Err("no such file".to_owned()))),
            Action::Answer { reply, .. } => {
                replies.push(reply);
                assert!(replies.len() < 16, "worker produced a flood of replies");
                return replies;
            }
            Action::Wait => return replies,
            _ => panic!("an engine that was never started was used"),
        };
    }
}

/// A failing engine must produce one report per request, never a stream.
#[test]
fn a_failing_engine_reports_once_per_request_not_continuously() {
    let mut thread = Worker::new();
    let mut replies = fail(&mut thread);
    assert_eq!(replies.len(), 1, "expected exactly one failure");
    assert!(matches!(replies[0], Reply::Failed(_)));

    let mut window = EngineWorker::spawn(Some("definitely-not-an-engine".to_owned()));
    assert!(window.poll(Received::Ready(replies.remove(0))).is_some());
    for i in 0..1000 {
        let polled: Option<Reply<u32, u32>> = window.poll(Received::Empty);
        assert!(polled.is_none(), "kept talking after the report (poll {i})");
    }
}

/// And it must stay usable: a bad spawn should not end play for the rest of the session, so the
/// next request tries again.
#[test]
fn a_failed_spawn_is_retried_on_the_next_request() {
    let mut thread = Worker::new();
    assert_eq!(fail(&mut thread).len(), 1);
    let second = fail(&mut thread);
    assert_eq!(second.len(), 1, "the retry should report too");
    assert!(matches!(second[0], Reply::Failed(_)));

    let mut window = EngineWorker::spawn(Some("definitely-not-an-engine".to_owned()));
    for reply in second {
        window.poll(Received::Ready(reply));
    }
    assert!(!window.is_finished(), "the worker must still be alive");
}

/// A thread that is gone without a word is reported once; one that spoke before is not.
#[test]
fn a_thread_that_dies_is_reported_once() {
    let mut window = EngineWorker::spawn(Some("stockfish".to_owned()));
    assert_eq!(window.name(), "stockfish");
    let first: Option<Reply<u32, u32>> = window.poll(Received::Closed);
    assert!(matches!(first, Some(Reply::Failed(why)) if why == "the engine stopped"));
    assert!(window.is_finished());
    for _ in 0..DRAIN_BUDGET {
        let polled: Option<Reply<u32, u32>> = window.poll(Received::Closed);
        assert!(polled.is_none());
    }
    let mut spoke = EngineWorker::spawn(None);
    let _: Option<Reply<u32, u32>> = spoke.poll(Received::Ready(Reply::Move("e2e4".to_owned())));
    let after: Option<Reply<u32, u32>> = spoke.poll(Received::Closed);
    assert!(after.is_none());
    assert!(spoke.is_finished());
}

/// A move is chosen at a capped strength, and what follows it is judged at full strength.
#[test]
fn the_cap_is_lifted_for_analysis() {
    let mut thread = Worker::new();
    let asked: Action<u32, u32> = thread.handle(Event::Asked(request()));
    assert!(matches!(asked, Action::Spawn));
    let spawned: Action<u32, u32> = thread.handle(Event::Spawned(Ok(())));
    assert!(matches!(spawned, Action::LimitStrength(Some(1320))));
    let limited: Action<u32, u32> = thread.handle(Event::Limited(Ok(())));
    match limited {
        Action::Search { fen, moves, limit: Limit::Movetime(millis) } => {
            assert_eq!(fen, START);
            assert!(moves.is_empty());
            assert_eq!(millis, MOVE_TIME_MS);
        }
        _ => panic!("the engine was not asked for a move"),
    }
    let found = Found { best_move: Some("e2e4".to_owned()), analysis: 7u32 };
    let answered: Action<u32, u32> = thread.handle(Event::Searched(Ok(found)));
    assert!(matches!(answered, Action::Answer { reply: Reply::Move(uci), .. } if uci == "e2e4"));

    let evaluate =
        Request::Evaluate { fen: START.to_owned(), moves: Vec::new(), depth: 18, token: 5 };
    let asked: Action<u32, u32> = thread.handle(Event::Asked(evaluate));
    assert!(matches!(asked, Action::LimitStrength(None)));
    let limited: Action<u32, u32> = thread.handle(Event::Limited(Ok(())));
    match limited {
        Action::Search { limit: Limit::DepthOrTime { depth, millis }, .. } => {
            assert_eq!(depth, 18);
            assert_eq!(millis, STUDY_TIME_CAP_MS);
        }
        _ => panic!("the engine was not asked for an evaluation"),
    }
    let found = Found { best_move: None, analysis: 9u32 };
    let answered: Action<u32, u32> = thread.handle(Event::Searched(Ok(found)));
    assert!(matches!(
        answered,
        Action::Answer { reply: Reply::Evaluation { analysis: 9, token: 5 }, .. }
    ));

    // The strength is as it should be already, so it is not set again.
    let review = Request::Review { fen: START.to_owned(), moves: Vec::new(), player: Color::White };
    let asked: Action<u32, u32> = thread.handle(Event::Asked(review));
    assert!(matches!(asked, Action::Review { .. }));
    let answered: Action<u32, u32> = thread.handle(Event::Reviewed(Ok(3)));
    assert!(matches!(answered, Action::Answer { reply: Reply::Review(3), .. }));
}

/// An engine that died during a search is replaced at the next request.
#[test]
fn an_engine_that_dies_is_replaced() {
    let mut thread = Worker::new();
    let _: Action<u32, u32> = thread.handle(Event::Asked(request()));
    let _: Action<u32, u32> = thread.handle(Event::Spawned(Ok(())));
    let _: Action<u32, u32> = thread.handle(Event::Limited(Ok(())));
    let failed: Action<u32, u32> = thread.handle(Event::Searched(Err("broken pipe".to_owned())));
    assert!(matches!(failed, Action::Answer { reply: Reply::Failed(_), .. }));
    let again: Action<u32, u32> = thread.handle(Event::Asked(request()));
    assert!(matches!(again, Action::Spawn));
}
