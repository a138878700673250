//! What a tab wants done that it cannot do itself.
//!
//! A tab decides and draws; the store, the engine, the clock, the speakers and the banner are
//! the front end's. Each event leaves the things to be done in the tab's outbox, in order, and
//! the front end does them in that order.

use crate::announce::Tone;
use crate::chess::Square;
use crate::engine_worker::{Request, RequestModel};
use crate::sound::Cue;
use vstd::prelude::*;
use vstd::string::*;

verus! {

/// What a sitting is spent on.
#[derive(Debug, Clone, Copy, PartialEq, Eq, Structural)]
pub enum Activity {
    Drill,
    Endgame,
    Study,
    Puzzles,
}

/// The name that the store keeps an activity under.
pub open spec fn activity_name(activity: Activity) -> Seq<char> {
    match activity {
        Activity::Drill => "drill"@,
        Activity::Endgame => "endgame"@,
        Activity::Study => "study"@,
        Activity::Puzzles => "puzzles"@,
    }
}

impl Activity {
    /// The name that the store keeps an activity under.
    pub fn name(self) -> (r: &'static str)
        ensures
            r@ == activity_name(self),
    {
        match self {
            Activity::Drill => "drill",
            Activity::Endgame => "endgame",
            Activity::Study => "study",
            Activity::Puzzles => "puzzles",
        }
    }
}

/// Something to be done.
pub enum Effect {
    /// Say something across the window.
    Say(Tone, String),
    /// Take down whatever is being said.
    ClearBanner,
    /// Play a sound.
    Sound(Cue),
    /// Open a sitting, and report its number.
    BeginSession(Activity),
    /// Start the clock that moves are timed by.
    StartClock,
    /// Stop that clock.
    StopClock,
    /// Write down a move, with the time since the clock was last started; the clock starts again.
    LogMove {
        sitting: Option<i64>,
        activity: Activity,
        subject: String,
        ply: u32,
        uci: String,
        detail: String,
    },
    /// Write down how a position was played out.
    RecordDrill { id: String, achieved: bool, moves: u32, result: String },
    /// Write down whether the move that a position asks for was found.
    RecordAnswer { id: String, found: bool },
    /// Write down how an endgame was played out.
    RecordEndgame { key: String, achieved: bool, moves: u32 },
    /// Read the record of past attempts, and report it.
    ReadRecord,
    /// Hand a request to the engine thread.
    Ask(Request),
    /// Hand a request to the engine thread, and report whether it took it.
    AskWhy(Request),
    /// Offer a move to the exercise in progress, and report what came of it.
    OfferDrill { from: Square, to: Square },
    /// Take the mark of a wrong move down after so many milliseconds.
    ClearWrongAfter(u64),
    /// Write down how well a finished game was played.
    RecordGame { player_white: bool, opponent_elo: u32, result: String },
    /// Turn the mistakes of the reviewed game into puzzles of a rating, and report how many.
    AddToTraining { rating: u32 },
    /// Say something where only someone looking for it will see it.
    Trace(String),
}

/// What an [`Effect`] asks.
#[verifier::ext_equal]
pub enum EffectModel {
    Say(Tone, Seq<char>),
    ClearBanner,
    Sound(Cue),
    BeginSession(Activity),
    StartClock,
    StopClock,
    LogMove {
        sitting: Option<i64>,
        activity: Activity,
        subject: Seq<char>,
        ply: u32,
        uci: Seq<char>,
        detail: Seq<char>,
    },
    RecordDrill { id: Seq<char>, achieved: bool, moves: u32, result: Seq<char> },
    RecordAnswer { id: Seq<char>, found: bool },
    RecordEndgame { key: Seq<char>, achieved: bool, moves: u32 },
    ReadRecord,
    Ask(RequestModel),
    AskWhy(RequestModel),
    OfferDrill { from: Square, to: Square },
    ClearWrongAfter(u64),
    RecordGame { player_white: bool, opponent_elo: u32, result: Seq<char> },
    AddToTraining { rating: u32 },
    Trace(Seq<char>),
}

impl View for Effect {
    type V = EffectModel;

    open spec fn view(&self) -> EffectModel {
        match self {
            Effect::Say(tone, text) => EffectModel::Say(*tone, text@),
            Effect::ClearBanner => EffectModel::ClearBanner,
            Effect::Sound(cue) => EffectModel::Sound(*cue),
            Effect::BeginSession(activity) => EffectModel::BeginSession(*activity),
            Effect::StartClock => EffectModel::StartClock,
            Effect::StopClock => EffectModel::StopClock,
            Effect::LogMove { sitting, activity, subject, ply, uci, detail } => {
                EffectModel::LogMove {
                    sitting: *sitting,
                    activity: *activity,
                    subject: subject@,
                    ply: *ply,
                    uci: uci@,
                    detail: detail@,
                }
            },
            Effect::RecordDrill { id, achieved, moves, result } => EffectModel::RecordDrill {
                id: id@,
                achieved: *achieved,
                moves: *moves,
                result: result@,
            },
            Effect::RecordAnswer { id, found } => EffectModel::RecordAnswer {
                id: id@,
                found: *found,
            },
            Effect::RecordEndgame { key, achieved, moves } => EffectModel::RecordEndgame {
                key: key@,
                achieved: *achieved,
                moves: *moves,
            },
            Effect::ReadRecord => EffectModel::ReadRecord,
            Effect::Ask(request) => EffectModel::Ask(request@),
            Effect::AskWhy(request) => EffectModel::AskWhy(request@),
            Effect::OfferDrill { from, to } => EffectModel::OfferDrill { from: *from, to: *to },
            Effect::ClearWrongAfter(millis) => EffectModel::ClearWrongAfter(*millis),
            Effect::RecordGame { player_white, opponent_elo, result } => {
                EffectModel::RecordGame {
                    player_white: *player_white,
                    opponent_elo: *opponent_elo,
                    result: result@,
                }
            },
            Effect::AddToTraining { rating } => EffectModel::AddToTraining { rating: *rating },
            Effect::Trace(text) => EffectModel::Trace(text@),
        }
    }
}

/// What an outbox asks, in order.
#[verifier::opaque]
pub open spec fn effects(outbox: Seq<Effect>) -> Seq<EffectModel> {
    Seq::new(outbox.len(), |i: int| outbox[i]@)
}

/// Leave something to be done.
pub fn emit(outbox: &mut Vec<Effect>, effect: Effect)
    ensures
        effects(final(outbox)@) == effects(old(outbox)@).push(effect@),
{
    proof {
        reveal(effects);
    }
    outbox.push(effect);
    assert(effects(outbox@) =~= effects(old(outbox)@).push(effect@));
}

/// Take everything that is to be done.
pub fn drain(outbox: &mut Vec<Effect>) -> (r: Vec<Effect>)
    ensures
        effects(r@) == effects(old(outbox)@),
        effects(final(outbox)@) == Seq::<EffectModel>::empty(),
{
    proof {
        reveal(effects);
    }
    let mut taken: Vec<Effect> = Vec::new();
    std::mem::swap(&mut taken, outbox);
    assert(effects(outbox@) =~= Seq::<EffectModel>::empty());
    taken
}

} // verus!
