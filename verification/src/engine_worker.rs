//! Running the engine off the UI thread.
//!
//! Engine calls take seconds, so the engine lives on its own thread and the window polls for
//! replies. [`Worker`] decides what that thread does next; [`EngineWorker`] is the window's end
//! of it.

use crate::chess::Color;
use crate::text::texts;
use vstd::prelude::*;
use vstd::string::*;

verus! {

/// What the engine can be asked for.
pub enum Request {
    /// Choose a move for the engine to play, at a capped strength.
    Move { fen: String, moves: Vec<String>, elo: u32 },
    /// Choose the best move there is, at full strength, in a given time.
    BestMove { fen: String, moves: Vec<String>, millis: u64 },
    /// Evaluate one position as deeply as asked, for studying a game.
    ///
    /// The token is echoed back, so a reply arriving after the board has moved on can be
    /// discarded rather than shown against the wrong position.
    Evaluate { fen: String, moves: Vec<String>, depth: u32, token: u64 },
    /// Review a finished game at full strength.
    Review { fen: String, moves: Vec<String>, player: Color },
}

/// What a [`Request`] asks.
#[verifier::ext_equal]
pub enum RequestModel {
    Move { fen: Seq<char>, moves: Seq<Seq<char>>, elo: u32 },
    BestMove { fen: Seq<char>, moves: Seq<Seq<char>>, millis: u64 },
    Evaluate { fen: Seq<char>, moves: Seq<Seq<char>>, depth: u32, token: u64 },
    Review { fen: Seq<char>, moves: Seq<Seq<char>>, player: Color },
}

impl View for Request {
    type V = RequestModel;

    open spec fn view(&self) -> RequestModel {
        match self {
            Request::Move { fen, moves, elo } => RequestModel::Move {
                fen: fen@,
                moves: texts(moves@),
                elo: *elo,
            },
            Request::BestMove { fen, moves, millis } => RequestModel::BestMove {
                fen: fen@,
                moves: texts(moves@),
                millis: *millis,
            },
            Request::Evaluate { fen, moves, depth, token } => RequestModel::Evaluate {
                fen: fen@,
                moves: texts(moves@),
                depth: *depth,
                token: *token,
            },
            Request::Review { fen, moves, player } => RequestModel::Review {
                fen: fen@,
                moves: texts(moves@),
                player: *player,
            },
        }
    }
}

/// What the engine answers. `A` is its analysis of a position, `V` its review of a game.
pub enum Reply<A, V> {
    Move(String),
    /// An evaluation, tagged with the token of the request that asked for it.
    Evaluation { analysis: A, token: u64 },
    Review(V),
    Failed(String),
}

/// What a [`Reply`] says.
#[verifier::ext_equal]
pub enum ReplyModel<A, V> {
    Move(Seq<char>),
    Evaluation { analysis: A, token: u64 },
    Review(V),
    Failed(Seq<char>),
}

impl<A, V> View for Reply<A, V> {
    type V = ReplyModel<A, V>;

    open spec fn view(&self) -> ReplyModel<A, V> {
        match self {
            Reply::Move(uci) => ReplyModel::Move(uci@),
            Reply::Evaluation { analysis, token } => ReplyModel::Evaluation {
                analysis: *analysis,
                token: *token,
            },
            Reply::Review(review) => ReplyModel::Review(*review),
            Reply::Failed(why) => ReplyModel::Failed(why@),
        }
    }
}

/// How long the engine gets to choose a move, in milliseconds. Enough to play sensibly at a
/// capped rating, short enough that the game does not drag.
pub const MOVE_TIME_MS: u64 = 400;

/// Longest a study evaluation may take, in milliseconds. Deep analysis is worth waiting a moment
/// for; it is not worth a position that never comes back.
pub const STUDY_TIME_CAP_MS: u64 = 2500;

/// How many replies are handled at one look. Bounded regardless of what the worker does: an
/// unbounded drain on the thread that draws the window is one bad reply away from freezing it.
pub const DRAIN_BUDGET: u32 = 32;

/// How far a search goes.
#[derive(Debug, Clone, Copy, PartialEq, Eq, Structural)]
pub enum Limit {
    /// So many milliseconds.
    Movetime(u64),
    /// To a depth, or for a time, whichever ends first.
    DepthOrTime { depth: u32, millis: u64 },
}

/// What the thread does next.
pub enum Action<A, V> {
    /// Wait for the next request.
    Wait,
    /// Start an engine process.
    Spawn,
    /// Cap the engine's strength, or lift the cap.
    LimitStrength(Option<u32>),
    /// Search a position.
    Search { fen: String, moves: Vec<String>, limit: Limit },
    /// Review a game, and check again, deeper, whatever will be offered as a puzzle.
    Review { fen: String, moves: Vec<String>, player: Color },
    /// Send a reply. Where nobody is left to take it, the thread ends if `final_word` is set,
    /// and goes on otherwise.
    Answer { reply: Reply<A, V>, final_word: bool },
}

/// What an [`Action`] asks.
#[verifier::ext_equal]
pub enum ActionModel<A, V> {
    Wait,
    Spawn,
    LimitStrength(Option<u32>),
    Search { fen: Seq<char>, moves: Seq<Seq<char>>, limit: Limit },
    Review { fen: Seq<char>, moves: Seq<Seq<char>>, player: Color },
    Answer { reply: ReplyModel<A, V>, final_word: bool },
}

impl<A, V> View for Action<A, V> {
    type V = ActionModel<A, V>;

    open spec fn view(&self) -> ActionModel<A, V> {
        match self {
            Action::Wait => ActionModel::Wait,
            Action::Spawn => ActionModel::Spawn,
            Action::LimitStrength(elo) => ActionModel::LimitStrength(*elo),
            Action::Search { fen, moves, limit } => ActionModel::Search {
                fen: fen@,
                moves: texts(moves@),
                limit: *limit,
            },
            Action::Review { fen, moves, player } => ActionModel::Review {
                fen: fen@,
                moves: texts(moves@),
                player: *player,
            },
            Action::Answer { reply, final_word } => ActionModel::Answer {
                reply: reply@,
                final_word: *final_word,
            },
        }
    }
}

/// What a search found: its choice of move, where it made one, and everything else.
pub struct Found<A> {
    pub best_move: Option<String>,
    pub analysis: A,
}

/// What happened to the thread.
pub enum Event<A, V> {
    /// A request arrived.
    Asked(Request),
    /// Starting the engine worked, or failed with a message.
    Spawned(Result<(), String>),
    /// Setting the strength worked, or failed with a message.
    Limited(Result<(), String>),
    /// A search came back, or failed with a message.
    Searched(Result<Found<A>, String>),
    /// A review came back, or failed with a message.
    Reviewed(Result<V, String>),
}

/// How an outside step went.
#[verifier::ext_equal]
pub enum EventModel<A, V> {
    Asked(RequestModel),
    Spawned(Option<Seq<char>>),
    Limited(Option<Seq<char>>),
    Searched(Result<(Option<Seq<char>>, A), Seq<char>>),
    Reviewed(Result<V, Seq<char>>),
}

/// The message of a step that failed.
pub open spec fn failure(outcome: Result<(), String>) -> Option<Seq<char>> {
    match outcome {
        Ok(_) => None,
        Err(why) => Some(why@),
    }
}

impl<A, V> View for Event<A, V> {
    type V = EventModel<A, V>;

    open spec fn view(&self) -> EventModel<A, V> {
        match self {
            Event::Asked(request) => EventModel::Asked(request@),
            Event::Spawned(outcome) => EventModel::Spawned(failure(*outcome)),
            Event::Limited(outcome) => EventModel::Limited(failure(*outcome)),
            Event::Searched(Ok(found)) => EventModel::Searched(
                Ok((crate::text::opt_text(found.best_move), found.analysis)),
            ),
            Event::Searched(Err(why)) => EventModel::Searched(Err(why@)),
            Event::Reviewed(Ok(review)) => EventModel::Reviewed(Ok(*review)),
            Event::Reviewed(Err(why)) => EventModel::Reviewed(Err(why@)),
        }
    }
}

/// How far the request in hand has come.
#[derive(Debug, Clone, Copy, PartialEq, Eq, Structural)]
pub enum Step {
    /// There is none.
    Idle,
    /// An engine is being started for it.
    Spawning,
    /// The engine's strength is being set for it.
    Limiting,
    /// The engine is at work on it.
    Working,
}

/// The engine thread: whether an engine runs, what its strength is capped at, and the request in
/// hand.
///
/// The engine is started lazily and replaced if it dies, so one bad spawn (a busy sandbox, a
/// killed process) does not end play for the rest of the session.
pub struct Worker {
    pub alive: bool,
    pub elo: Option<u32>,
    pub job: Option<Request>,
    pub step: Step,
}

/// What a [`Worker`] holds.
#[verifier::ext_equal]
pub struct WorkerModel {
    pub alive: bool,
    pub elo: Option<u32>,
    pub job: Option<RequestModel>,
    pub step: Step,
}

impl View for Worker {
    type V = WorkerModel;

    open spec fn view(&self) -> WorkerModel {
        WorkerModel {
            alive: self.alive,
            elo: self.elo,
            job: match self.job {
                Some(job) => Some(job@),
                None => None,
            },
            step: self.step,
        }
    }
}

/// The strength that a request is answered at: capped for a game's opponent, full for
/// everything else.
pub open spec fn strength_for(request: RequestModel) -> Option<u32> {
    match request {
        RequestModel::Move { elo, .. } => Some(elo),
        _ => None,
    }
}

/// The work that answers a request.
pub open spec fn work_for<A, V>(request: RequestModel) -> ActionModel<A, V> {
    match request {
        RequestModel::Move { fen, moves, elo } => ActionModel::Search {
            fen,
            moves,
            limit: Limit::Movetime(MOVE_TIME_MS),
        },
        RequestModel::BestMove { fen, moves, millis } => ActionModel::Search {
            fen,
            moves,
            limit: Limit::Movetime(millis),
        },
        RequestModel::Evaluate { fen, moves, depth, token } => ActionModel::Search {
            fen,
            moves,
            limit: Limit::DepthOrTime { depth, millis: STUDY_TIME_CAP_MS },
        },
        RequestModel::Review { fen, moves, player } => ActionModel::Review { fen, moves, player },
    }
}

/// With an engine running: set its strength where that is not right yet, and get to work.
pub open spec fn set_to_work<A, V>(worker: WorkerModel, request: RequestModel) -> (
    WorkerModel,
    ActionModel<A, V>,
) {
    if worker.elo == strength_for(request) {
        (WorkerModel { job: Some(request), step: Step::Working, ..worker }, work_for(request))
    } else {
        (
            WorkerModel { job: Some(request), step: Step::Limiting, ..worker },
            ActionModel::LimitStrength(strength_for(request)),
        )
    }
}

/// The request in hand is answered.
pub open spec fn answered<A, V>(
    worker: WorkerModel,
    alive: bool,
    reply: ReplyModel<A, V>,
    final_word: bool,
) -> (WorkerModel, ActionModel<A, V>) {
    (
        WorkerModel { alive, job: None, step: Step::Idle, ..worker },
        ActionModel::Answer { reply, final_word },
    )
}

/// What a search means for the request that it was made for.
pub open spec fn search_reply<A, V>(
    request: RequestModel,
    best_move: Option<Seq<char>>,
    analysis: A,
) -> ReplyModel<A, V> {
    match request {
        RequestModel::Evaluate { token, .. } => ReplyModel::Evaluation { analysis, token },
        _ => match best_move {
            Some(uci) => ReplyModel::Move(uci),
            None => ReplyModel::Failed("the engine returned no move"@),
        },
    }
}

/// Whether a request is answered by a review rather than by a search.
pub open spec fn wants_review(request: RequestModel) -> bool {
    request is Review
}

/// What the thread does about an event, and what it is then. An event that it is not waiting for
/// changes nothing.
pub open spec fn respond<A, V>(worker: WorkerModel, event: EventModel<A, V>) -> (
    WorkerModel,
    ActionModel<A, V>,
) {
    let ignored = (worker, ActionModel::Wait);
    match event {
        EventModel::Asked(request) => if worker.step != Step::Idle {
            ignored
        } else if worker.alive {
            set_to_work(worker, request)
        } else {
            (
                WorkerModel { job: Some(request), step: Step::Spawning, ..worker },
                ActionModel::Spawn,
            )
        },
        EventModel::Spawned(failed) => match worker.job {
            Some(request) => if worker.step != Step::Spawning {
                ignored
            } else {
                match failed {
                    None => set_to_work(
                        WorkerModel { alive: true, elo: None, ..worker },
                        request,
                    ),
                    Some(why) => answered(worker, false, ReplyModel::Failed(why), true),
                }
            },
            None => ignored,
        },
        EventModel::Limited(failed) => match worker.job {
            Some(request) => if worker.step != Step::Limiting {
                ignored
            } else {
                match failed {
                    None => (
                        WorkerModel {
                            elo: strength_for(request),
                            step: Step::Working,
                            ..worker
                        },
                        work_for(request),
                    ),
                    Some(why) => answered(worker, false, ReplyModel::Failed(why), false),
                }
            },
            None => ignored,
        },
        EventModel::Searched(outcome) => match worker.job {
            Some(request) => if worker.step != Step::Working || wants_review(request) {
                ignored
            } else {
                match outcome {
                    Ok((best_move, analysis)) => answered(
                        worker,
                        worker.alive,
                        search_reply(request, best_move, analysis),
                        true,
                    ),
                    Err(why) => answered(worker, false, ReplyModel::Failed(why), true),
                }
            },
            None => ignored,
        },
        EventModel::Reviewed(outcome) => match worker.job {
            Some(request) => if worker.step != Step::Working || !wants_review(request) {
                ignored
            } else {
                match outcome {
                    Ok(review) => answered(worker, worker.alive, ReplyModel::Review(review), true),
                    Err(why) => answered(worker, false, ReplyModel::Failed(why), true),
                }
            },
            None => ignored,
        },
    }
}

/// A thread that has done nothing yet.
pub open spec fn fresh_worker() -> WorkerModel {
    WorkerModel { alive: false, elo: None, job: None, step: Step::Idle }
}

/// What always holds of the thread: it has a request in hand exactly while it is busy, and it is
/// at work only with an engine that runs at the strength that the request calls for.
pub open spec fn worker_inv(worker: WorkerModel) -> bool {
    &&& worker.step == Step::Idle <==> worker.job is None
    &&& worker.step == Step::Spawning ==> !worker.alive
    &&& worker.step == Step::Limiting ==> worker.alive
    &&& worker.step == Step::Working ==> worker.alive && worker.elo == strength_for(worker.job->0)
}

/// How many outside steps the request in hand can still take.
pub open spec fn steps_left(step: Step) -> nat {
    match step {
        Step::Idle => 0,
        Step::Working => 1,
        Step::Limiting => 2,
        Step::Spawning => 3,
    }
}

/// Whether the thread is waiting for this event.
pub open spec fn expects<A, V>(worker: WorkerModel, event: EventModel<A, V>) -> bool {
    match event {
        EventModel::Asked(_) => worker.step == Step::Idle,
        EventModel::Spawned(_) => worker.step == Step::Spawning,
        EventModel::Limited(_) => worker.step == Step::Limiting,
        EventModel::Searched(_) => worker.step == Step::Working && !wants_review(worker.job->0),
        EventModel::Reviewed(_) => worker.step == Step::Working && wants_review(worker.job->0),
    }
}

/// The capped strength of a game's opponent never leaks into a full-strength search: whatever
/// happens, the engine searches only at the strength that the request in hand calls for.
pub proof fn the_cap_never_leaks<A, V>(worker: WorkerModel, event: EventModel<A, V>)
    requires
        worker_inv(worker),
    ensures
        worker_inv(respond(worker, event).0),
        respond(worker, event).1 is Search || respond(worker, event).1 is Review ==> {
            let after = respond(worker, event).0;
            &&& after.alive
            &&& after.job is Some
            &&& after.elo == strength_for(after.job->0)
        },
        worker_inv(fresh_worker()),
{
}

/// Every request is answered exactly once: an expected event either answers it and leaves the
/// thread idle, or takes it one of at most three steps further without answering; and nothing is
/// said while there is no request.
pub proof fn every_request_is_answered_once<A, V>(worker: WorkerModel, event: EventModel<A, V>)
    requires
        worker_inv(worker),
    ensures
        expects(worker, event) && !(event is Asked) ==> {
            let (after, action) = respond(worker, event);
            &&& steps_left(after.step) < steps_left(worker.step)
            &&& action is Answer <==> after.step == Step::Idle
        },
        expects(worker, event) && event is Asked ==> {
            let (after, action) = respond(worker, event);
            &&& after.step != Step::Idle
            &&& after.job == Some(event->Asked_0)
            &&& !(action is Answer)
            &&& !(action is Wait)
        },
        !expects(worker, event) ==> respond(worker, event) == (worker, ActionModel::<A, V>::Wait),
{
}

/// A failed step ends in one report, with the engine gone; and the next request starts another
/// one, so a bad spawn does not end play for the rest of the session. The report is the last word
/// wherever it is not the strength that could not be set.
pub proof fn a_failure_is_reported_and_retried<A, V>(
    worker: WorkerModel,
    event: EventModel<A, V>,
    why: Seq<char>,
    next: RequestModel,
)
    requires
        worker_inv(worker),
        expects(worker, event),
        event == EventModel::<A, V>::Spawned(Some(why)) || event == EventModel::<A, V>::Limited(
            Some(why),
        ) || event == EventModel::<A, V>::Searched(Err(why)) || event == EventModel::<A, V>::Reviewed(
            Err(why),
        ),
    ensures
        respond(worker, event).1 matches ActionModel::Answer { reply, final_word } && reply
            == ReplyModel::<A, V>::Failed(why) && (final_word <==> !(event is Limited)),
        !respond(worker, event).0.alive,
        respond(respond(worker, event).0, EventModel::<A, V>::Asked(next)).1
            == ActionModel::<A, V>::Spawn,
{
}

/// The strength is set only where it differs from what the engine already plays at.
pub proof fn the_strength_is_set_only_where_it_differs<A, V>(
    worker: WorkerModel,
    event: EventModel<A, V>,
)
    requires
        worker_inv(worker),
    ensures
        respond(worker, event).1 matches ActionModel::LimitStrength(elo) ==> elo != respond(
            worker,
            event,
        ).0.elo,
{
}

/// What the engine is set to work on is what was asked, and nothing else. Whenever something sends
/// it searching, the position, the moves and the effort are those of the request in hand: a game's
/// move gets less than half a second, a best move as long as the request says, and an evaluation
/// goes to the depth that the request says within two and a half seconds. Whenever something sends
/// it reviewing, the game and the player are those of the request. The request in hand is the one
/// that has just arrived, or else the one that was in hand before.
pub proof fn the_engine_works_on_what_was_asked<A, V>(worker: WorkerModel, event: EventModel<A, V>)
    requires
        worker_inv(worker),
    ensures
        ({
            let (after, action) = respond(worker, event);
            let hand = match event {
                EventModel::Asked(request) => request,
                _ => worker.job->0,
            };
            &&& action is Search || action is Review || action is LimitStrength || action is Spawn
                ==> after.job == Some(hand)
            &&& action matches ActionModel::Search { fen, moves, limit } ==> match hand {
                RequestModel::Move { fen: position, moves: line, .. } => fen == position && moves
                    == line && limit == Limit::Movetime(400),
                RequestModel::BestMove { fen: position, moves: line, millis } => fen == position
                    && moves == line && limit == Limit::Movetime(millis),
                RequestModel::Evaluate { fen: position, moves: line, depth, .. } => fen == position
                    && moves == line && limit == (Limit::DepthOrTime { depth, millis: 2500 }),
                RequestModel::Review { .. } => false,
            }
            &&& action matches ActionModel::Review { fen, moves, player } ==> hand == (
            RequestModel::Review { fen, moves, player })
        }),
{
}

/// A game's opponent plays at the strength that its request names, and everything else is answered
/// at full strength. A strength is set only to that, and where the engine plays at it already the
/// request is set to work on at once, by a review for a review and by a search for anything else.
pub proof fn only_an_opponent_is_capped<A, V>(worker: WorkerModel, request: RequestModel)
    requires
        worker.step == Step::Idle,
        worker.alive,
    ensures
        ({
            let wanted = match request {
                RequestModel::Move { elo, .. } => Some(elo),
                RequestModel::BestMove { .. } => None::<u32>,
                RequestModel::Evaluate { .. } => None::<u32>,
                RequestModel::Review { .. } => None::<u32>,
            };
            let (after, action) = respond(worker, EventModel::<A, V>::Asked(request));
            let (later, then_done) = respond(after, EventModel::<A, V>::Limited(None));
            if worker.elo == wanted {
                &&& action is Review <==> request is Review
                &&& action is Search <==> !(request is Review)
                &&& after.elo == wanted
            } else {
                &&& action == ActionModel::<A, V>::LimitStrength(wanted)
                &&& later.elo == wanted
                &&& then_done is Review <==> request is Review
                &&& then_done is Search <==> !(request is Review)
            }
        }),
{
}

/// An engine that is not running is started first, at full strength, and is then set to work on the
/// very request that it was started for.
pub proof fn an_engine_is_started_for_its_request<A, V>(worker: WorkerModel, request: RequestModel)
    requires
        worker.step == Step::Idle,
        !worker.alive,
    ensures
        ({
            let (after, action) = respond(worker, EventModel::<A, V>::Asked(request));
            let started = respond(after, EventModel::<A, V>::Spawned(None));
            &&& action == ActionModel::<A, V>::Spawn
            &&& started == respond(
                WorkerModel { alive: true, elo: None, ..worker },
                EventModel::<A, V>::Asked(request),
            )
        }),
{
}

/// What the engine found is answered as it was found: its move where a move was asked for, its
/// analysis under the request's own number where an evaluation was, and its review where a review
/// was. A search for a move that found none is a failure. The engine runs on, with nothing in hand.
pub proof fn what_was_found_is_what_is_answered<A, V>(
    worker: WorkerModel,
    best_move: Option<Seq<char>>,
    analysis: A,
    review: V,
)
    requires
        worker_inv(worker),
        worker.step == Step::Working,
    ensures
        ({
            let request = worker.job->0;
            let (after, action) = respond(
                worker,
                if request is Review {
                    EventModel::<A, V>::Reviewed(Ok(review))
                } else {
                    EventModel::<A, V>::Searched(Ok((best_move, analysis)))
                },
            );
            &&& after.alive
            &&& after.job is None
            &&& after.elo == worker.elo
            &&& action matches ActionModel::Answer { reply, final_word } && final_word && match (
                request,
                best_move,
            ) {
                (RequestModel::Review { .. }, _) => reply == ReplyModel::<A, V>::Review(review),
                (RequestModel::Evaluate { token, .. }, _) => reply == (ReplyModel::<
                    A,
                    V,
                >::Evaluation { analysis, token }),
                (_, Some(uci)) => reply == ReplyModel::<A, V>::Move(uci),
                (_, None) => reply == ReplyModel::<A, V>::Failed("the engine returned no move"@),
            }
        }),
{
}

impl Worker {
    /// A thread that has done nothing yet.
    pub fn new() -> (r: Worker)
        ensures
            r@ == fresh_worker(),
    {
        Worker { alive: false, elo: None, job: None, step: Step::Idle }
    }

    /// What to do about an event.
    pub fn handle<A, V>(&mut self, event: Event<A, V>) -> (r: Action<A, V>)
        ensures
            (final(self)@, r@) == respond(old(self)@, event@),
    {
        match event {
            Event::Asked(request) => {
                if self.step != Step::Idle {
                    return Action::Wait;
                }
                if self.alive {
                    self.set_to_work(request)
                } else {
                    self.job = Some(request);
                    self.step = Step::Spawning;
                    Action::Spawn
                }
            },
            Event::Spawned(outcome) => {
                if self.step != Step::Spawning || self.job.is_none() {
                    return Action::Wait;
                }
                match outcome {
                    Ok(_) => {
                        self.alive = true;
                        self.elo = None;
                        match self.job.take() {
                            Some(request) => self.set_to_work(request),
                            None => Action::Wait,
                        }
                    },
                    Err(why) => self.answer(false, Reply::Failed(why), true),
                }
            },
            Event::Limited(outcome) => {
                if self.step != Step::Limiting {
                    return Action::Wait;
                }
                match outcome {
                    Ok(_) => match &self.job {
                        Some(request) => {
                            self.elo = strength(request);
                            self.step = Step::Working;
                            work(request)
                        },
                        None => Action::Wait,
                    },
                    Err(why) => {
                        if self.job.is_none() {
                            return Action::Wait;
                        }
                        self.answer(false, Reply::Failed(why), false)
                    },
                }
            },
            Event::Searched(outcome) => {
                let alive = self.alive;
                if self.step != Step::Working {
                    return Action::Wait;
                }
                let token: Option<u64> = match &self.job {
                    Some(Request::Evaluate { token, .. }) => Some(*token),
                    Some(Request::Review { .. }) => {
                        return Action::Wait;
                    },
                    Some(_) => None,
                    None => {
                        return Action::Wait;
                    },
                };
                match outcome {
                    Ok(found) => {
                        let reply = match token {
                            Some(token) => Reply::Evaluation { analysis: found.analysis, token },
                            None => match found.best_move {
                                Some(uci) => Reply::Move(uci),
                                None => Reply::Failed("the engine returned no move".to_owned()),
                            },
                        };
                        self.answer(alive, reply, true)
                    },
                    // A protocol error means the process is no longer trustworthy; a fresh one
                    // is started next time.
                    Err(why) => self.answer(false, Reply::Failed(why), true),
                }
            },
            Event::Reviewed(outcome) => {
                let alive = self.alive;
                if self.step != Step::Working {
                    return Action::Wait;
                }
                match &self.job {
                    Some(Request::Review { .. }) => {},
                    _ => {
                        return Action::Wait;
                    },
                }
                match outcome {
                    Ok(review) => self.answer(alive, Reply::Review(review), true),
                    Err(why) => self.answer(false, Reply::Failed(why), true),
                }
            },
        }
    }

    /// With an engine running: set its strength where that is not right yet, and get to work.
    fn set_to_work<A, V>(&mut self, request: Request) -> (r: Action<A, V>)
        ensures
            (final(self)@, r@) == set_to_work::<A, V>(old(self)@, request@),
    {
        let wanted = strength(&request);
        let action = if same_strength(self.elo, wanted) {
            self.step = Step::Working;
            work(&request)
        } else {
            self.step = Step::Limiting;
            Action::LimitStrength(wanted)
        };
        self.job = Some(request);
        action
    }

    /// The request in hand is answered.
    fn answer<A, V>(&mut self, alive: bool, reply: Reply<A, V>, final_word: bool) -> (r: Action<
        A,
        V,
    >)
        ensures
            (final(self)@, r@) == answered::<A, V>(old(self)@, alive, reply@, final_word),
    {
        self.alive = alive;
        self.job = None;
        self.step = Step::Idle;
        Action::Answer { reply, final_word }
    }
}

/// Whether two strengths are one.
fn same_strength(a: Option<u32>, b: Option<u32>) -> (r: bool)
    ensures
        r == (a == b),
{
    match (a, b) {
        (Some(a), Some(b)) => a == b,
        (None, None) => true,
        _ => false,
    }
}

/// The strength that a request is answered at.
fn strength(request: &Request) -> (r: Option<u32>)
    ensures
        r == strength_for(request@),
{
    match request {
        Request::Move { elo, .. } => Some(*elo),
        _ => None,
    }
}

/// The work that answers a request.
fn work<A, V>(request: &Request) -> (r: Action<A, V>)
    ensures
        r@ == work_for::<A, V>(request@),
{
    match request {
        Request::Move { fen, moves, elo } => Action::Search {
            fen: fen.clone(),
            moves: crate::text::copy_texts(moves),
            limit: Limit::Movetime(MOVE_TIME_MS),
        },
        Request::BestMove { fen, moves, millis } => Action::Search {
            fen: fen.clone(),
            moves: crate::text::copy_texts(moves),
            limit: Limit::Movetime(*millis),
        },
        Request::Evaluate { fen, moves, depth, token } => Action::Search {
            fen: fen.clone(),
            moves: crate::text::copy_texts(moves),
            limit: Limit::DepthOrTime { depth: *depth, millis: STUDY_TIME_CAP_MS },
        },
        Request::Review { fen, moves, player } => Action::Review {
            fen: fen.clone(),
            moves: crate::text::copy_texts(moves),
            player: *player,
        },
    }
}

/// What the channel from the thread held.
pub enum Received<A, V> {
    Ready(Reply<A, V>),
    Empty,
    /// The thread is gone.
    Closed,
}

/// The window's end of the engine thread.
pub struct EngineWorker {
    pub name: String,
    /// Set once the worker thread is gone. Without this the disconnected channel yields an error
    /// on every poll, and a caller draining replies in a loop never terminates.
    pub finished: bool,
    /// Whether any reply has already been handed out. The worker reports its own failure before
    /// exiting, so synthesising a second one on disconnect would duplicate it; synthesising none
    /// would hide a thread that died without saying anything.
    pub delivered: bool,
}

/// What a poll hands out.
pub open spec fn polled<A, V>(
    finished: bool,
    delivered: bool,
    received: Received<A, V>,
) -> Option<ReplyModel<A, V>> {
    if finished {
        None
    } else {
        match received {
            Received::Ready(reply) => Some(reply@),
            Received::Empty => None,
            Received::Closed => if delivered {
                None
            } else {
                Some(ReplyModel::Failed("the engine stopped"@))
            },
        }
    }
}

/// What an optional reply says.
pub open spec fn opt_reply<A, V>(reply: Option<Reply<A, V>>) -> Option<ReplyModel<A, V>> {
    match reply {
        Some(reply) => Some(reply@),
        None => None,
    }
}

/// Once the thread is gone, every later poll hands out nothing: draining replies in a loop comes
/// to an end. A reply that no thread sent is handed out at most once, and only where the thread
/// never said anything.
pub proof fn polling_comes_to_an_end<A, V>(
    finished: bool,
    delivered: bool,
    received: Received<A, V>,
    later: Received<A, V>,
)
    ensures
        received is Closed ==> polled(true, true, later) is None && polled(true, delivered, later)
            is None,
        polled(finished, delivered, received) is Some && !(received is Ready) ==> !finished
            && !delivered && received is Closed,
        received is Empty ==> polled(finished, delivered, received) is None,
        finished ==> polled(finished, delivered, received) is None,
{
}

/// A reply is handed out as it was sent, for as long as the thread has not gone. Where the thread
/// goes without ever having said anything, that is said for it.
pub proof fn replies_are_handed_out_as_they_were_sent<A, V>(delivered: bool, reply: Reply<A, V>)
    ensures
        polled(false, delivered, Received::Ready(reply)) == Some(reply@),
        polled(false, true, Received::<A, V>::Closed) is None,
        polled(false, false, Received::<A, V>::Closed) == Some(
            ReplyModel::<A, V>::Failed("the engine stopped"@),
        ),
{
}

impl EngineWorker {
    /// Start a worker around the engine whose file has this name, where it has one.
    pub fn spawn(file_name: Option<String>) -> (r: EngineWorker)
        ensures
            r.name@ == match file_name {
                Some(name) => name@,
                None => "engine"@,
            },
            !r.finished,
            !r.delivered,
    {
        let name = match file_name {
            Some(name) => name,
            None => "engine".to_owned(),
        };
        EngineWorker { name, finished: false, delivered: false }
    }

    /// The engine's name.
    pub fn name(&self) -> (r: &str)
        ensures
            r@ == self.name@,
    {
        self.name.as_str()
    }

    /// Take one reply if the worker has produced any.
    pub fn poll<A, V>(&mut self, received: Received<A, V>) -> (r: Option<Reply<A, V>>)
        ensures
            opt_reply(r) == polled(old(self).finished, old(self).delivered, received),
            final(self).finished == (old(self).finished || received is Closed),
            final(self).delivered == (old(self).delivered || r is Some),
            final(self).name@ == old(self).name@,
    {
        if self.finished {
            return None;
        }
        match received {
            Received::Ready(reply) => {
                self.delivered = true;
                Some(reply)
            },
            Received::Empty => None,
            Received::Closed => {
                self.finished = true;
                if self.delivered {
                    None
                } else {
                    self.delivered = true;
                    Some(Reply::Failed("the engine stopped".to_owned()))
                }
            },
        }
    }

    /// Whether the worker has gone away for good.
    pub fn is_finished(&self) -> (r: bool)
        ensures
            r == self.finished,
    {
        self.finished
    }
}

} // verus!
