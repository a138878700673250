//! Playing on from the positions you lost from.
//!
//! A puzzle asks for one move and then tells you whether you found it. Losing a game does not
//! feel like that and fixing one does not work like that: the move is where the work starts, not
//! where it ends.
//!
//! So this hands the position back exactly as it stood before the mistake, says what it was
//! worth, and asks for the result, against an engine still trying to beat you.

use crate::announce::Tone;
use crate::board::{fresh_board, BoardModel, BoardView, Spot};
use crate::chess::{opt_game, Color, GameModel, GameState, Role, Square};
use crate::dates::day_text;
use crate::effect::{effects, emit, Activity, Effect, EffectModel};
use crate::engine_worker::{Request, RequestModel};
use crate::exercise::{
    has_own_piece, is_white, last_played, say_squares, Ended, FoundModel, FoundMove, Objective,
    Played, PlayedModel, DEFENCE_MS,
};
use crate::rules::Moved;
use crate::text::{copy_texts, glue2, glue3, glue4, glue5, joined, number, texts};
use vstd::prelude::*;
use vstd::string::*;

verus! {

/// What the exercise is asking for right now.
#[derive(Debug, Clone, Copy, PartialEq, Eq, Structural)]
pub enum Stage {
    /// What you played, what it cost, and what should have been played.
    Find,
    /// Now convert the position you just found.
    PlayOut,
}

/// How deep the engine looks for what punishes a wrong answer.
pub const LESSON_DEPTH: u32 = 18;

/// A position worth replaying: the player's own, from just before the mistake.
pub struct DrillEntry {
    pub id: String,
    /// What was played in the game, and what should have been.
    pub played: String,
    pub best: String,
    /// The engine's line, as moves.
    pub best_line: Vec<String>,
    /// Where in the game the mistake was made, counted in half moves.
    pub ply: u32,
    /// When the game was played, in seconds.
    pub played_at: i64,
    pub phase: String,
    /// What the mistake cost and what the position was worth, in whole percent.
    pub cost: String,
    pub stood: String,
    pub objective: Objective,
    /// The mistake in a sentence.
    pub brief: String,
    /// The position as a game of the side to move, where it can be set up.
    pub opened: Option<GameState>,
    /// The position that the engine's line begins from.
    pub start: Option<String>,
}

/// What a [`DrillEntry`] holds.
pub struct EntryModel {
    pub id: Seq<char>,
    pub played: Seq<char>,
    pub best: Seq<char>,
    pub best_line: Seq<Seq<char>>,
    pub ply: u32,
    pub played_at: i64,
    pub phase: Seq<char>,
    pub cost: Seq<char>,
    pub stood: Seq<char>,
    pub objective: Objective,
    pub brief: Seq<char>,
    pub opened: Option<GameModel>,
    pub start: Option<Seq<char>>,
}

impl View for DrillEntry {
    type V = EntryModel;

    open spec fn view(&self) -> EntryModel {
        EntryModel {
            id: self.id@,
            played: self.played@,
            best: self.best@,
            best_line: texts(self.best_line@),
            ply: self.ply,
            played_at: self.played_at,
            phase: self.phase@,
            cost: self.cost@,
            stood: self.stood@,
            objective: self.objective,
            brief: self.brief@,
            opened: opt_game(self.opened),
            start: crate::text::opt_text(self.start),
        }
    }
}

/// What each of some entries holds.
pub open spec fn entries(list: Seq<DrillEntry>) -> Seq<EntryModel> {
    Seq::new(list.len(), |i: int| list[i]@)
}

/// The entries among some candidates that can be replayed, in order.
pub open spec fn kept(candidates: Seq<Option<DrillEntry>>) -> Seq<EntryModel>
    decreases candidates.len(),
{
    if candidates.len() == 0 {
        Seq::empty()
    } else {
        match candidates.last() {
            Some(entry) => kept(candidates.drop_last()).push(entry@),
            None => kept(candidates.drop_last()),
        }
    }
}

/// Whether every candidate's date can be shown.
pub open spec fn datable(candidates: Seq<Option<DrillEntry>>) -> bool {
    forall|i: int|
        0 <= i < candidates.len() ==> (#[trigger] candidates[i] matches Some(entry)
            ==> crate::dates::in_range(entry.played_at as int))
}

/// A position's line in the picker.
pub open spec fn entry_label(entry: EntryModel) -> Seq<char> {
    day_text(entry.played_at as int) + " "@ + entry.phase + " — cost "@ + entry.cost + "%"@
}

/// The picker's lines.
pub open spec fn labels_for(list: Seq<EntryModel>) -> Seq<Seq<char>> {
    Seq::new(list.len(), |i: int| entry_label(list[i]))
}

/// The drill tab.
pub struct DrillView {
    pub board: BoardView,
    pub has_engine: bool,
    pub game: Option<GameState>,
    /// The positions on offer, worst first, and which one is loaded.
    pub positions: Vec<DrillEntry>,
    pub current: usize,
    /// The picker's lines, and the one picked.
    pub offered: Vec<String>,
    pub picked: usize,
    pub title: String,
    pub objective: String,
    pub idea: String,
    pub status: String,
    pub record: String,
    pub countdown: String,
    /// The label of the button that moves the exercise on.
    pub start: String,
    pub thinking: bool,
    /// Set once the attempt has been judged, so it is recorded exactly once.
    pub settled: bool,
    /// The sitting these attempts belong to.
    pub sitting: Option<i64>,
    /// Which half of the exercise is running.
    pub stage: Stage,
    /// Wrong answers to the "find it" question, before the answer is given.
    pub misses: u32,
    /// Why the last attempt was wrong, once the engine has said.
    pub lesson: String,
    /// The engine's line, and where in it the reader is.
    pub line: Vec<String>,
    pub line_at: usize,
    /// Whether the buttons that step the line are shown.
    pub steps: bool,
    /// One question outstanding, and answers for a position already left behind are dropped
    /// rather than shown against the wrong board.
    pub lesson_busy: bool,
    pub lesson_token: u64,
    /// The position that a wrong answer leads to, and that answer in notation.
    pub asked_about: Option<(String, String)>,
    /// The move that the promotion picker was raised for.
    pub promotion: Option<(Square, Square)>,
    pub outbox: Vec<Effect>,
}

/// What a [`DrillView`] holds.
pub struct DrillModel {
    pub board: BoardModel,
    pub has_engine: bool,
    pub game: Option<GameModel>,
    pub positions: Seq<EntryModel>,
    pub current: nat,
    pub offered: Seq<Seq<char>>,
    pub picked: nat,
    pub title: Seq<char>,
    pub objective: Seq<char>,
    pub idea: Seq<char>,
    pub status: Seq<char>,
    pub record: Seq<char>,
    pub countdown: Seq<char>,
    pub start: Seq<char>,
    pub thinking: bool,
    pub settled: bool,
    pub sitting: Option<i64>,
    pub stage: Stage,
    pub misses: u32,
    pub lesson: Seq<char>,
    pub line: Seq<Seq<char>>,
    pub line_at: nat,
    pub steps: bool,
    pub lesson_busy: bool,
    pub lesson_token: u64,
    pub asked_about: Option<(Seq<char>, Seq<char>)>,
    pub promotion: Option<(Square, Square)>,
    pub outbox: Seq<EffectModel>,
}

/// A position and a move, as plain text.
pub open spec fn asked_text(asked: Option<(String, String)>) -> Option<(Seq<char>, Seq<char>)> {
    match asked {
        Some((fen, played)) => Some((fen@, played@)),
        None => None,
    }
}

impl View for DrillView {
    type V = DrillModel;

    open spec fn view(&self) -> DrillModel {
        DrillModel {
            board: self.board@,
            has_engine: self.has_engine,
            game: opt_game(self.game),
            positions: entries(self.positions@),
            current: self.current as nat,
            offered: texts(self.offered@),
            picked: self.picked as nat,
            title: self.title@,
            objective: self.objective@,
            idea: self.idea@,
            status: self.status@,
            record: self.record@,
            countdown: self.countdown@,
            start: self.start@,
            thinking: self.thinking,
            settled: self.settled,
            sitting: self.sitting,
            stage: self.stage,
            misses: self.misses,
            lesson: self.lesson@,
            line: texts(self.line@),
            line_at: self.line_at as nat,
            steps: self.steps,
            lesson_busy: self.lesson_busy,
            lesson_token: self.lesson_token,
            asked_about: asked_text(self.asked_about),
            promotion: self.promotion,
            outbox: effects(self.outbox@),
        }
    }
}

/// A tab that has shown nothing yet.
pub open spec fn fresh_drill(art: bool, has_engine: bool) -> DrillModel {
    DrillModel {
        board: BoardModel { hears_moves: true, hears_drags: true, ..fresh_board(art) },
        has_engine,
        game: None,
        positions: Seq::empty(),
        current: 0,
        offered: Seq::empty(),
        picked: 0,
        title: ""@,
        objective: ""@,
        idea: ""@,
        status: ""@,
        record: ""@,
        countdown: ""@,
        start: "Begin"@,
        thinking: false,
        settled: true,
        sitting: None,
        stage: Stage::Find,
        misses: 0,
        lesson: ""@,
        line: Seq::empty(),
        line_at: 0,
        steps: false,
        lesson_busy: false,
        lesson_token: 0,
        asked_about: None,
        promotion: None,
        outbox: Seq::empty(),
    }
}

/// The position now selected.
pub open spec fn selected_entry(view: DrillModel) -> Option<EntryModel> {
    if view.current < view.positions.len() {
        Some(view.positions[view.current as int])
    } else {
        None
    }
}

/// A position on the board, seen from a side.
pub open spec fn board_showing(board: BoardModel, fen: Seq<char>, side: Color) -> BoardModel {
    BoardModel { pieces: crate::rules::placement_of(fen), orientation: side, ..board }
}

/// What the tab asks of a position.
pub open spec fn call_to_find(objective: Objective) -> Seq<char> {
    match objective {
        Objective::Win => "Winning was there. Find the move."@,
        Objective::Draw => "A draw was there. Find the move."@,
    }
}

/// What was played, what it cost, and what the position was worth.
pub open spec fn mistake_text(entry: EntryModel) -> Seq<char> {
    entry.played + "??   -"@ + entry.cost + "%   you stood at "@ + entry.stood + "%"@
}

/// The tab with every question about an earlier position retired: an answer still in flight is
/// not about what is on the board.
pub open spec fn retired(view: DrillModel) -> DrillModel {
    DrillModel { lesson_token: next_token(view.lesson_token), asked_about: None, ..view }
}

/// The tab showing what a position asks.
pub open spec fn described(view: DrillModel, index: nat) -> DrillModel {
    if view.positions.len() == 0 {
        view
    } else {
        let current = if index < view.positions.len() {
            index
        } else {
            (view.positions.len() - 1) as nat
        };
        let entry = view.positions[current as int];
        DrillModel {
            current,
            title: "Move "@ + crate::text::decimal((entry.ply / 2 + 1) as nat),
            objective: mistake_text(entry),
            idea: call_to_find(entry.objective),
            board: match entry.opened {
                Some(game) => board_showing(view.board, game.fen, game.player),
                None => view.board,
            },
            game: match entry.opened {
                Some(game) => Some(game),
                None => view.game,
            },
            stage: Stage::Find,
            settled: false,
            thinking: false,
            misses: 0,
            lesson: ""@,
            line: Seq::empty(),
            steps: false,
            start: "Show me"@,
            status: ""@,
            countdown: ""@,
            outbox: view.outbox.push(EffectModel::ReadRecord),
            ..retired(view)
        }
    }
}

/// Where an entry of some id first stands in a list, from a point on. The first place of all
/// where there is none.
pub open spec fn place_of(list: Seq<EntryModel>, id: Seq<char>, from: nat) -> nat
    decreases list.len() - from,
{
    if from >= list.len() {
        0
    } else if list[from as int].id == id {
        from
    } else {
        place_of(list, id, from + 1)
    }
}

/// Where a list is opened: on the position that was selected, where it is still listed, and
/// otherwise on the first.
pub open spec fn opening_place(view: DrillModel, found: Seq<EntryModel>) -> nat {
    match selected_entry(view) {
        Some(entry) => place_of(found, entry.id, 0),
        None => 0,
    }
}

/// The tab with a new list of positions. The position that was selected stays selected.
pub open spec fn reloaded(view: DrillModel, found: Seq<EntryModel>) -> DrillModel {
    let place = opening_place(view, found);
    let listed = DrillModel {
        positions: found,
        offered: labels_for(found),
        current: 0,
        ..view
    };
    if found.len() == 0 {
        DrillModel {
            title: "Nothing to replay yet"@,
            idea: "Import a PGN export or play a game here. The positions you lost from collect up and come back as drills."@,
            objective: ""@,
            record: ""@,
            board: board_showing(view.board, crate::exercise::start_position(), Color::White),
            ..retired(listed)
        }
    } else {
        described(DrillModel { picked: place, ..listed }, place)
    }
}

/// What is said of the record of past attempts.
pub open spec fn record_text(
    waiting: nat,
    attempts: u64,
    achieved: u64,
    retired: u64,
    hours: Seq<char>,
) -> Seq<char> {
    let mastered = if retired == 0 {
        ""@
    } else {
        " "@ + crate::text::decimal(retired as nat)
            + " mastered and set aside — won twice at least "@ + hours
            + "h apart, most recently."@
    };
    if attempts == 0 {
        crate::text::decimal(waiting) + " positions waiting. None played out yet."@ + mastered
    } else {
        crate::text::decimal(achieved as nat) + " of "@ + crate::text::decimal(attempts as nat)
            + " played out successfully."@ + mastered
    }
}

/// The answer on the table, with the engine's line in notation where there is one.
pub open spec fn revealed(view: DrillModel, line: Seq<Seq<char>>) -> DrillModel {
    match selected_entry(view) {
        Some(entry) => if view.game is None {
            view
        } else {
            DrillModel {
                lesson: entry.best + " was the move. "@ + if line.len() == 0 {
                    entry.best
                } else {
                    joined(line, "  "@)
                },
                line: entry.best_line,
                line_at: 0,
                steps: entry.best_line.len() > 0,
                stage: Stage::PlayOut,
                idea: "Now play it out against the engine."@,
                start: "Play it out"@,
                ..view
            }
        },
        None => view,
    }
}

/// Where a step along a line leads.
pub open spec fn stepped_to(at: nat, len: nat, forward: bool) -> nat {
    if forward {
        if at < len {
            at + 1
        } else {
            len
        }
    } else if at > 0 {
        (at - 1) as nat
    } else {
        0
    }
}

/// The tab after a step along the engine's line.
pub open spec fn line_stepped(view: DrillModel, forward: bool) -> DrillModel {
    match selected_entry(view) {
        Some(entry) => if view.line.len() == 0 {
            view
        } else {
            let at = stepped_to(view.line_at, view.line.len(), forward);
            let shown = view.line.take(
                if at <= view.line.len() {
                    at as int
                } else {
                    view.line.len() as int
                },
            );
            match entry.start {
                Some(start) => DrillModel {
                    line_at: at,
                    board: BoardModel {
                        pieces: crate::rules::placement_of(
                            crate::rules::line_end(start, shown),
                        ),
                        last_move: crate::rules::line_last(start, shown, None),
                        ..view.board
                    },
                    status: "Line: move "@ + crate::text::decimal(at) + " of "@
                        + crate::text::decimal(view.line.len()),
                    ..view
                },
                None => DrillModel { line_at: at, ..view },
            }
        },
        None => view,
    }
}

/// How far the attempt has run. A middlegame played out has no fifty-move deadline worth
/// watching.
pub open spec fn countdown_text(game: Option<GameModel>) -> Seq<char> {
    match game {
        Some(game) => "move "@ + crate::text::decimal((game.moves.len() / 2 + 1) as nat),
        None => ""@,
    }
}

/// The tab with a game begun: from here a move is a move again.
pub open spec fn begun_with(view: DrillModel, game: GameModel) -> DrillModel {
    DrillModel {
        board: BoardModel {
            last_move: None,
            mate: None,
            ..board_showing(view.board, game.fen, game.player)
        },
        outbox: (if view.sitting is None {
            view.outbox.push(EffectModel::BeginSession(Activity::Drill))
        } else {
            view.outbox
        }).push(EffectModel::ClearBanner).push(EffectModel::StartClock),
        stage: Stage::PlayOut,
        steps: false,
        game: Some(game),
        settled: false,
        thinking: false,
        status: "Your move. Play the position out."@,
        countdown: countdown_text(Some(game)),
        ..view
    }
}

/// The tab with the second half of the exercise begun.
pub open spec fn begun(view: DrillModel) -> DrillModel {
    match selected_entry(view) {
        None => DrillModel { status: "Nothing to play."@, ..view },
        Some(entry) => match entry.opened {
            None => DrillModel { status: "This position could not be set up."@, ..view },
            Some(game) => begun_with(view, game),
        },
    }
}

/// Whether a move is the answer that a position asks for.
pub open spec fn is_answer(view: DrillModel, uci: Seq<char>) -> bool {
    match (selected_entry(view), view.game) {
        (Some(entry), Some(game)) => crate::rules::legal_in(game.fen, uci)
            && crate::rules::san_in(game.fen, uci) == entry.best,
        _ => false,
    }
}

/// The next of a row of numbers that runs round.
pub open spec fn next_token(token: u64) -> u64 {
    if token == u64::MAX {
        0
    } else {
        (token + 1) as u64
    }
}

/// The tab asking the engine what punishes a move. One question at a time.
pub open spec fn wondering(view: DrillModel, uci: Seq<char>) -> DrillModel {
    match view.game {
        Some(game) => if !view.has_engine || view.lesson_busy || !crate::rules::legal_in(
            game.fen,
            uci,
        ) {
            view
        } else {
            let after = crate::rules::fen_after(game.fen, uci);
            DrillModel {
                lesson_token: next_token(view.lesson_token),
                asked_about: Some((after, crate::rules::san_plus_in(game.fen, uci))),
                outbox: view.outbox.push(
                    EffectModel::AskWhy(
                        RequestModel::Evaluate {
                            fen: after,
                            moves: Seq::empty(),
                            depth: LESSON_DEPTH,
                            token: next_token(view.lesson_token),
                        },
                    ),
                ),
                ..view
            }
        },
        None => view,
    }
}

/// The tab with it written down whether the move was found.
pub open spec fn found_recorded(view: DrillModel, found: bool) -> DrillModel {
    match selected_entry(view) {
        Some(entry) => DrillModel {
            outbox: view.outbox.push(EffectModel::RecordAnswer { id: entry.id, found }),
            ..view
        },
        None => view,
    }
}

/// The tab after an answer to "find the move". The position stays where it is. Finding the move
/// and converting it are different facts about a position, so whether it was found is written
/// down on its own: two wrong answers are one failure to find it.
pub open spec fn answered(view: DrillModel, uci: Seq<char>, line: Seq<Seq<char>>) -> DrillModel {
    if is_answer(view, uci) {
        revealed(
            found_recorded(
                DrillModel { status: "That is the move."@, lesson: ""@, ..view },
                true,
            ),
            line,
        )
    } else {
        let misses = (view.misses + 1) as u32;
        if misses >= 2 {
            revealed(
                found_recorded(DrillModel { misses, status: "Here it is."@, ..view }, false),
                line,
            )
        } else {
            wondering(DrillModel { misses, status: "Not that one."@, ..view }, uci)
        }
    }
}

/// How a finished position went for a side.
pub open spec fn result_name(winner: Option<Color>, side: Color) -> Seq<char> {
    match winner {
        Some(colour) => if colour == side {
            "won"@
        } else {
            "lost"@
        },
        None => "drawn"@,
    }
}

/// What is said of a finished position.
pub open spec fn verdict_text(objective: Objective, achieved: bool) -> Seq<char> {
    match (objective, achieved) {
        (Objective::Win, true) => "Won it this time."@,
        (Objective::Win, false) => "The win got away again. That is the position to work on."@,
        (Objective::Draw, true) => "Saved."@,
        (Objective::Draw, false) => "Lost it again from here."@,
    }
}

/// The tone that a result is announced in.
pub open spec fn result_tone(achieved: bool) -> Tone {
    if achieved {
        Tone::Won
    } else {
        Tone::Lost
    }
}

/// The tab with the position judged, where it has finished. It is written down once.
pub open spec fn judged(view: DrillModel, ended: Option<Ended>) -> DrillModel {
    match (view.game, ended) {
        (Some(game), Some(end)) => if view.settled {
            view
        } else {
            match selected_entry(view) {
                None => DrillModel { settled: true, ..view },
                Some(entry) => {
                    let verdict = verdict_text(entry.objective, end.achieved);
                    DrillModel {
                        settled: true,
                        status: verdict,
                        idea: entry.brief + " The engine wanted "@ + entry.best + "."@,
                        countdown: ""@,
                        outbox: view.outbox.push(
                            EffectModel::RecordDrill {
                                id: entry.id,
                                achieved: end.achieved,
                                moves: game.moves.len() as u32,
                                result: result_name(end.winner, game.player),
                            },
                        ).push(EffectModel::Say(result_tone(end.achieved), verdict)).push(
                            EffectModel::ReadRecord,
                        ),
                        ..view
                    }
                },
            }
        },
        _ => view,
    }
}

/// The tab waiting for the engine's move.
pub open spec fn awaiting_engine(view: DrillModel) -> DrillModel {
    if !view.has_engine {
        DrillModel { status: "No engine, so there is nothing to play against."@, ..view }
    } else {
        match view.game {
            Some(game) => DrillModel {
                thinking: true,
                outbox: view.outbox.push(
                    EffectModel::Ask(
                        RequestModel::BestMove {
                            fen: game.initial_fen,
                            moves: game.moves,
                            millis: DEFENCE_MS,
                        },
                    ),
                ),
                ..view
            },
            None => view,
        }
    }
}

/// The tab with the player's move on the board and in the log.
pub open spec fn advanced(
    view: DrillModel,
    from: Square,
    to: Square,
    played: PlayedModel,
) -> DrillModel {
    DrillModel {
        game: Some(played.game),
        board: BoardModel {
            pieces: crate::rules::placement_of(played.game.fen),
            last_move: Some((from, to)),
            ..view.board
        },
        outbox: view.outbox.push(
            EffectModel::LogMove {
                sitting: view.sitting,
                activity: Activity::Drill,
                subject: match selected_entry(view) {
                    Some(entry) => entry.id,
                    None => ""@,
                },
                ply: crate::exercise::last_ply(played.game),
                uci: crate::exercise::last_uci(played.game),
                detail: crate::exercise::budget_detail(played.left),
            },
        ),
        countdown: countdown_text(Some(played.game)),
        ..retired(view)
    }
}

/// The tab after the player moved from one square to another. `found` is the legal move that
/// joins them, if there is one, and `line` the engine's line in notation.
pub open spec fn after_play(
    view: DrillModel,
    from: Square,
    to: Square,
    found: Option<FoundModel>,
    line: Seq<Seq<char>>,
) -> DrillModel {
    match view.game {
        None => view,
        Some(game) => if game.turn != game.player {
            view
        } else {
            match found {
                None => DrillModel {
                    status: crate::exercise::squares_text(from, to, " is not legal here"@),
                    ..view
                },
                Some(found) => if view.stage == Stage::Find {
                    answered(view, found.uci, line)
                } else {
                    match found.played {
                        None => DrillModel {
                            outbox: view.outbox.push(
                                EffectModel::Say(
                                    Tone::Rejected,
                                    crate::exercise::squares_text(
                                        from,
                                        to,
                                        " cannot be played in this position"@,
                                    ),
                                ),
                            ),
                            ..view
                        },
                        Some(played) => {
                            let next = advanced(view, from, to, played);
                            if played.ended is Some {
                                judged(next, played.ended)
                            } else {
                                awaiting_engine(next)
                            }
                        },
                    }
                },
            }
        },
    }
}

/// The choices that a move leaves open.
pub open spec fn open_choices(game: Option<GameModel>, choices: Seq<Role>) -> Seq<Role> {
    match game {
        Some(_) => choices,
        None => Seq::empty(),
    }
}

/// The tab after a move that may first ask what a pawn becomes.
pub open spec fn after_move(
    view: DrillModel,
    from: Square,
    to: Square,
    choices: Seq<Role>,
    spot: Spot,
    found: Option<FoundModel>,
    line: Seq<Seq<char>>,
) -> DrillModel {
    if view.thinking || view.settled {
        view
    } else if open_choices(view.game, choices).len() > 1 {
        DrillModel {
            board: BoardModel {
                picker: crate::board::picker_for(
                    view.board,
                    to,
                    crate::exercise::plays_white(view.game),
                    choices,
                    spot,
                ),
                ..view.board
            },
            promotion: Some((from, to)),
            ..view
        }
    } else {
        after_play(view, from, to, found, line)
    }
}

/// The tab after a click on a square.
pub open spec fn after_click(
    view: DrillModel,
    square: Square,
    choices: Seq<Role>,
    spot: Spot,
    found: Option<FoundModel>,
    line: Seq<Seq<char>>,
) -> DrillModel {
    if view.thinking || view.settled {
        view
    } else {
        match view.board.selected {
            None => if crate::exercise::owns(view.game, square) {
                DrillModel {
                    board: BoardModel { selected: Some(square), ..view.board },
                    ..view
                }
            } else {
                view
            },
            Some(from) => {
                let dropped = DrillModel {
                    board: BoardModel { selected: None, ..view.board },
                    ..view
                };
                if from == square {
                    dropped
                } else {
                    after_move(dropped, from, square, choices, spot, found, line)
                }
            },
        }
    }
}

/// The tab after a piece was chosen in the promotion picker.
pub open spec fn after_choice(
    view: DrillModel,
    role: Role,
    found: Option<FoundModel>,
    line: Seq<Seq<char>>,
) -> DrillModel {
    match view.promotion {
        Some((from, to)) => if crate::board::offers(view.board, role) {
            after_play(
                DrillModel { board: BoardModel { picker: None, ..view.board }, ..view },
                from,
                to,
                found,
                line,
            )
        } else {
            view
        },
        None => view,
    }
}

/// The tab with the engine's move on the board.
pub open spec fn followed(view: DrillModel, moved: Moved, played: PlayedModel) -> DrillModel {
    judged(
        DrillModel {
            game: Some(played.game),
            board: BoardModel {
                pieces: crate::rules::placement_of(played.game.fen),
                last_move: match moved.from {
                    Some(from) => Some((from, moved.to)),
                    None => view.board.last_move,
                },
                ..view.board
            },
            countdown: countdown_text(Some(played.game)),
            ..view
        },
        played.ended,
    )
}

/// The tab after the engine moved.
pub open spec fn after_engine(
    view: DrillModel,
    uci: Seq<char>,
    played: Option<PlayedModel>,
) -> DrillModel {
    let idle = DrillModel { thinking: false, ..view };
    match view.game {
        None => idle,
        Some(game) => match crate::rules::moved_in(game.fen, uci) {
            None => idle,
            Some(moved) => match played {
                None => DrillModel {
                    status: "The engine offered a move that is not legal here."@,
                    ..idle
                },
                Some(played) => followed(idle, moved, played),
            },
        },
    }
}

/// The tab after the engine said why a move was wrong. An answer to a question that is no longer
/// the last one asked is dropped.
pub open spec fn after_evaluation(
    view: DrillModel,
    token: u64,
    lesson: Option<Seq<char>>,
) -> DrillModel {
    if token == view.lesson_token && view.asked_about is Some {
        DrillModel {
            lesson_busy: false,
            lesson: match lesson {
                Some(text) => text,
                None => ""@,
            },
            ..view
        }
    } else {
        DrillModel { lesson_busy: false, ..view }
    }
}

/// An attempt is written down exactly once: judging a position that has already been judged adds
/// nothing, and judging one that has not adds exactly one record of it.
pub proof fn an_attempt_is_recorded_once(view: DrillModel, ended: Option<Ended>, again: Option<Ended>)
    ensures
        judged(judged(view, ended), again) == if ended is Some && view.game is Some {
            judged(view, ended)
        } else {
            judged(view, again)
        },
        ended is Some && view.game is Some && !view.settled && selected_entry(view) is Some ==> {
            let after = judged(view, ended);
            &&& after.settled
            &&& after.outbox.len() == view.outbox.len() + 3
            &&& after.outbox[view.outbox.len() as int] is RecordDrill
            &&& after.outbox.take(view.outbox.len() as int) =~= view.outbox
        },
        view.settled ==> judged(view, ended) == view,
{
}

/// While the exercise asks which move should have been played, a move is an answer rather than a
/// move: the game and the board stay where they are.
pub proof fn an_answer_leaves_the_position(
    view: DrillModel,
    from: Square,
    to: Square,
    found: Option<FoundModel>,
    line: Seq<Seq<char>>,
)
    requires
        view.stage == Stage::Find,
    ensures
        after_play(view, from, to, found, line).game == view.game,
        after_play(view, from, to, found, line).board == view.board,
{
}

/// The answer is on the table after the right move, or after the second wrong one; the first
/// wrong one only costs a miss.
pub proof fn the_answer_comes_at_the_second_miss(
    view: DrillModel,
    uci: Seq<char>,
    line: Seq<Seq<char>>,
)
    requires
        view.stage == Stage::Find,
        view.game is Some,
        selected_entry(view) is Some,
        view.misses < u32::MAX,
    ensures
        answered(view, uci, line).stage == Stage::PlayOut <==> is_answer(view, uci) || view.misses
            >= 1,
        !is_answer(view, uci) ==> answered(view, uci, line).misses == view.misses + 1,
{
}

/// A move is taken from whichever side made the mistake, Black as well as White: a legal move of
/// the side to move is played while the position is being played out.
pub proof fn either_side_can_move(
    view: DrillModel,
    from: Square,
    to: Square,
    found: FoundModel,
    line: Seq<Seq<char>>,
)
    requires
        view.stage == Stage::PlayOut,
        view.game matches Some(game) && game.turn == game.player,
        found.played is Some,
    ensures
        after_play(view, from, to, Some(found), line).game == Some(found.played->0.game),
        after_play(view, from, to, Some(found), line).board.last_move == Some((from, to)),
{
}

/// A reply to a question that is no longer the last one asked, or that has been retired, changes
/// nothing of what is said.
pub proof fn a_stale_lesson_is_dropped(view: DrillModel, token: u64, lesson: Option<Seq<char>>)
    requires
        token != view.lesson_token || view.asked_about is None,
    ensures
        after_evaluation(view, token, lesson) == (DrillModel { lesson_busy: false, ..view }),
{
}

/// The answer to the question outstanding is dropped once its position has been left behind: by
/// going to another position, by a new list of them, or by a move that is played.
pub proof fn an_answer_about_a_position_left_behind_is_dropped(
    view: DrillModel,
    index: nat,
    found: Seq<EntryModel>,
    from: Square,
    to: Square,
    played: PlayedModel,
    lesson: Option<Seq<char>>,
)
    ensures
        view.positions.len() > 0 ==> after_evaluation(
            described(view, index),
            view.lesson_token,
            lesson,
        ).lesson == ""@,
        after_evaluation(reloaded(view, found), view.lesson_token, lesson).lesson == reloaded(
            view,
            found,
        ).lesson,
        after_evaluation(advanced(view, from, to, played), view.lesson_token, lesson).lesson
            == view.lesson,
{
}

/// An entry's place holds an entry of its id, where there is one, and none before it does.
proof fn place_holds(list: Seq<EntryModel>, id: Seq<char>, from: nat)
    requires
        from <= list.len(),
    ensures
        (exists|i: int| from <= i < list.len() && (#[trigger] list[i]).id == id) ==> {
            let place = place_of(list, id, from);
            &&& from <= place < list.len()
            &&& list[place as int].id == id
            &&& forall|i: int| from <= i < place ==> (#[trigger] list[i]).id != id
        },
        !(exists|i: int| from <= i < list.len() && (#[trigger] list[i]).id == id) ==> place_of(
            list,
            id,
            from,
        ) == 0,
    decreases list.len() - from,
{
    if from < list.len() && list[from as int].id != id {
        place_holds(list, id, from + 1);
    }
}

/// A position that was chosen stays chosen when the list is rebuilt, as long as it is listed; only
/// where it is not does the list open on its first position.
pub proof fn the_chosen_position_stays_chosen(view: DrillModel, found: Seq<EntryModel>)
    requires
        selected_entry(view) is Some,
        found.len() > 0,
    ensures
        ({
            let id = selected_entry(view)->0.id;
            let after = reloaded(view, found);
            &&& after.positions == found
            &&& after.picked == after.current
            &&& (exists|i: int| 0 <= i < found.len() && (#[trigger] found[i]).id == id)
                ==> selected_entry(after) is Some && selected_entry(after)->0.id == id
            &&& !(exists|i: int| 0 <= i < found.len() && (#[trigger] found[i]).id == id)
                ==> after.current == 0
        }),
{
    place_holds(found, selected_entry(view)->0.id, 0);
}

/// Rebuilding a list that has not changed changes nothing of which position is selected.
pub proof fn an_unchanged_list_opens_where_it_was(view: DrillModel)
    requires
        selected_entry(view) is Some,
        forall|i: int, j: int|
            0 <= i < view.positions.len() && 0 <= j < view.positions.len()
                && #[trigger] view.positions[i].id == #[trigger] view.positions[j].id ==> i == j,
    ensures
        reloaded(view, view.positions).current == view.current,
        selected_entry(reloaded(view, view.positions)) == selected_entry(view),
{
    let id = selected_entry(view)->0.id;
    place_holds(view.positions, id, 0);
    assert(view.positions[view.current as int].id == id);
}

/// How many answers some effects write down.
pub open spec fn answers_recorded(outbox: Seq<EffectModel>) -> nat
    decreases outbox.len(),
{
    if outbox.len() == 0 {
        0
    } else {
        answers_recorded(outbox.drop_last()) + if outbox.last() is RecordAnswer {
            1nat
        } else {
            0nat
        }
    }
}

/// How many answers have been written down, and how many more can be until another position is
/// gone to: one while the move is still asked for, and none after that.
pub open spec fn answers_at_most(view: DrillModel) -> nat {
    answers_recorded(view.outbox) + if view.stage == Stage::Find {
        1nat
    } else {
        0nat
    }
}

/// One more effect is one more answer exactly where it is one.
proof fn one_more_effect(outbox: Seq<EffectModel>, effect: EffectModel)
    ensures
        answers_recorded(outbox.push(effect)) == answers_recorded(outbox) + if effect is RecordAnswer {
            1nat
        } else {
            0nat
        },
{
    assert(outbox.push(effect).drop_last() =~= outbox);
}

/// Judging a position writes no answer down.
proof fn judging_records_no_answer(view: DrillModel, ended: Option<Ended>)
    ensures
        answers_recorded(judged(view, ended).outbox) == answers_recorded(view.outbox),
        judged(view, ended).stage == view.stage,
{
    let after = judged(view, ended);
    if after.outbox.len() != view.outbox.len() {
        let count = view.outbox.len() as int;
        one_more_effect(view.outbox, after.outbox[count]);
        let one = view.outbox.push(after.outbox[count]);
        one_more_effect(one, after.outbox[count + 1]);
        let two = one.push(after.outbox[count + 1]);
        one_more_effect(two, after.outbox[count + 2]);
        assert(after.outbox =~= two.push(after.outbox[count + 2]));
    } else {
        assert(after.outbox =~= view.outbox);
    }
}

/// The right answer is written down as found and the second wrong one as not found, each once and
/// with the question closed; a first wrong answer writes nothing down and leaves it open.
pub proof fn whether_the_move_was_found_is_recorded(
    view: DrillModel,
    uci: Seq<char>,
    line: Seq<Seq<char>>,
)
    requires
        view.game is Some,
        selected_entry(view) is Some,
        view.misses < u32::MAX,
    ensures
        ({
            let after = answered(view, uci, line);
            let id = selected_entry(view)->0.id;
            if is_answer(view, uci) {
                after.outbox == view.outbox.push(EffectModel::RecordAnswer { id, found: true })
                    && after.stage == Stage::PlayOut
            } else if view.misses >= 1 {
                after.outbox == view.outbox.push(EffectModel::RecordAnswer { id, found: false })
                    && after.stage == Stage::PlayOut
            } else {
                answers_recorded(after.outbox) == answers_recorded(view.outbox) && after.stage
                    == view.stage
            }
        }),
{
    let quiet = DrillModel {
        misses: (view.misses + 1) as u32,
        status: "Not that one."@,
        ..view
    };
    let after = wondering(quiet, uci);
    if after.outbox != view.outbox {
        one_more_effect(view.outbox, after.outbox.last());
    }
}

/// While the exercise asks which move should have been played, a move is the answer exactly where
/// it is legal in the game's position and its notation is, character for character, the move that
/// the engine wanted. Only such a move is written down as found and told to be the move. Any other
/// costs a miss: the first leaves the question open and nothing written down, and the second closes
/// it, written down as not found.
pub proof fn only_the_engines_move_is_the_answer(
    view: DrillModel,
    from: Square,
    to: Square,
    found: FoundModel,
    line: Seq<Seq<char>>,
)
    requires
        view.stage == Stage::Find,
        view.current < view.positions.len(),
        view.game matches Some(game) && game.turn == game.player,
        view.misses < u32::MAX,
    ensures
        ({
            let after = after_play(view, from, to, Some(found), line);
            let entry = view.positions[view.current as int];
            let fen = view.game->0.fen;
            let right = crate::rules::legal_in(fen, found.uci) && crate::rules::san_in(
                fen,
                found.uci,
            ) == entry.best;
            let at = view.outbox.len() as int;
            &&& right <==> after.status == "That is the move."@
            &&& right <==> after.outbox.len() > at && after.outbox[at] == (
            EffectModel::RecordAnswer { id: entry.id, found: true })
            &&& right ==> after.stage == Stage::PlayOut && after.misses == view.misses
                && after.outbox == view.outbox.push(
                EffectModel::RecordAnswer { id: entry.id, found: true },
            )
            &&& !right ==> after.misses == view.misses + 1
            &&& !right && view.misses == 0 ==> {
                &&& after.status == "Not that one."@
                &&& after.stage == Stage::Find
                &&& after.lesson == view.lesson
                &&& forall|i: int|
                    at <= i < after.outbox.len() ==> !((#[trigger] after.outbox[i]) is RecordAnswer)
            }
            &&& !right && view.misses > 0 ==> {
                &&& after.status == "Here it is."@
                &&& after.stage == Stage::PlayOut
                &&& after.outbox == view.outbox.push(
                    EffectModel::RecordAnswer { id: entry.id, found: false },
                )
            }
        }),
{
    reveal_strlit("That is the move.");
    reveal_strlit("Not that one.");
    reveal_strlit("Here it is.");
    assert("That is the move."@.len() == 17 && "Not that one."@.len() == 13 && "Here it is."@.len()
        == 11);
}

/// A move on the board writes at most one answer down, and none once the question is closed.
proof fn a_play_records_at_most_once(
    view: DrillModel,
    from: Square,
    to: Square,
    found: Option<FoundModel>,
    line: Seq<Seq<char>>,
)
    requires
        view.misses < u32::MAX,
    ensures
        answers_at_most(after_play(view, from, to, found, line)) <= answers_at_most(view),
{
    let after = after_play(view, from, to, found, line);
    if view.game is Some && found is Some {
        let uci = found->0.uci;
        if view.stage == Stage::Find {
            if selected_entry(view) is Some {
                whether_the_move_was_found_is_recorded(view, uci, line);
                let id = selected_entry(view)->0.id;
                one_more_effect(view.outbox, EffectModel::RecordAnswer { id, found: true });
                one_more_effect(view.outbox, EffectModel::RecordAnswer { id, found: false });
            } else if after.outbox != view.outbox {
                one_more_effect(view.outbox, after.outbox.last());
            }
        } else {
            match found->0.played {
                None => {
                    if after.outbox != view.outbox {
                        one_more_effect(view.outbox, after.outbox.last());
                    }
                },
                Some(played) => {
                    let next = advanced(view, from, to, played);
                    one_more_effect(view.outbox, next.outbox.last());
                    judging_records_no_answer(next, played.ended);
                    let waiting = awaiting_engine(next);
                    if waiting.outbox != next.outbox {
                        one_more_effect(next.outbox, waiting.outbox.last());
                    }
                },
            }
        }
    }
}

/// Whether the move was found is written down at most once for each showing of a position: nothing
/// that can happen to the tab, short of going to a position, raises how many answers have been
/// written down together with how many more can be. Going to a position opens one question, and
/// writes nothing down.
pub proof fn an_answer_is_recorded_at_most_once(
    view: DrillModel,
    square: Square,
    from: Square,
    to: Square,
    role: Role,
    choices: Seq<Role>,
    spot: Spot,
    found: Option<FoundModel>,
    line: Seq<Seq<char>>,
    forward: bool,
    index: nat,
    uci: Seq<char>,
    played: Option<PlayedModel>,
    token: u64,
    lesson: Option<Seq<char>>,
)
    requires
        view.misses < u32::MAX,
    ensures
        answers_at_most(after_click(view, square, choices, spot, found, line)) <= answers_at_most(
            view,
        ),
        answers_at_most(after_move(view, from, to, choices, spot, found, line))
            <= answers_at_most(view),
        answers_at_most(after_choice(view, role, found, line)) <= answers_at_most(view),
        answers_at_most(revealed(view, line)) <= answers_at_most(view),
        answers_at_most(begun(view)) <= answers_at_most(view),
        answers_at_most(line_stepped(view, forward)) <= answers_at_most(view),
        answers_at_most(after_engine(view, uci, played)) <= answers_at_most(view),
        answers_at_most(after_evaluation(view, token, lesson)) <= answers_at_most(view),
        answers_recorded(described(view, index).outbox) == answers_recorded(view.outbox),
{
    let down = DrillModel { board: BoardModel { picker: None, ..view.board }, ..view };
    let dropped = DrillModel { board: BoardModel { selected: None, ..view.board }, ..view };
    a_play_records_at_most_once(view, from, to, found, line);
    match view.promotion {
        Some((from, to)) => a_play_records_at_most_once(down, from, to, found, line),
        None => {},
    }
    match view.board.selected {
        Some(from) => a_play_records_at_most_once(dropped, from, square, found, line),
        None => {},
    }
    let started = begun(view).outbox;
    if started != view.outbox {
        let opened = if view.sitting is None {
            view.outbox.push(EffectModel::BeginSession(Activity::Drill))
        } else {
            view.outbox
        };
        one_more_effect(view.outbox, EffectModel::BeginSession(Activity::Drill));
        one_more_effect(opened, EffectModel::ClearBanner);
        one_more_effect(opened.push(EffectModel::ClearBanner), EffectModel::StartClock);
    }
    let idle = DrillModel { thinking: false, ..view };
    match (view.game, played) {
        (Some(game), Some(played)) => match crate::rules::moved_in(game.fen, uci) {
            Some(moved) => {
                let shown = DrillModel {
                    game: Some(played.game),
                    board: BoardModel {
                        pieces: crate::rules::placement_of(played.game.fen),
                        last_move: match moved.from {
                            Some(from) => Some((from, moved.to)),
                            None => view.board.last_move,
                        },
                        ..view.board
                    },
                    countdown: countdown_text(Some(played.game)),
                    ..idle
                };
                judging_records_no_answer(shown, played.ended);
            },
            None => {},
        },
        _ => {},
    }
    one_more_effect(view.outbox, EffectModel::ReadRecord);
}

/// Whether a tab tells of the end of the position that another one had selected.
pub open spec fn tells_the_end(
    before: DrillModel,
    after: DrillModel,
    played: PlayedModel,
    end: Ended,
) -> bool {
    let entry = before.positions[before.current as int];
    let count = after.outbox.len() as int;
    &&& after.settled
    &&& after.countdown == ""@
    &&& count >= 3
    &&& after.outbox[count - 3] matches EffectModel::RecordDrill { id, achieved, moves, result }
        && id == entry.id && achieved == end.achieved && moves == played.game.moves.len() as u32 && {
        &&& result == "won"@ <==> end.winner == Some(played.game.player)
        &&& result == "drawn"@ <==> end.winner is None
        &&& result == "lost"@ <==> end.winner is Some && end.winner != Some(played.game.player)
    }
    &&& after.outbox[count - 2] == EffectModel::Say(
        if end.achieved {
            Tone::Won
        } else {
            Tone::Lost
        },
        after.status,
    )
    &&& after.status == "Won it this time."@ <==> entry.objective == Objective::Win && end.achieved
    &&& after.status == "Saved."@ <==> entry.objective == Objective::Draw && end.achieved
    &&& after.status == "The win got away again. That is the position to work on."@
        <==> entry.objective == Objective::Win && !end.achieved
    &&& after.status == "Lost it again from here."@ <==> entry.objective == Objective::Draw
        && !end.achieved
    &&& after.idea == entry.brief + " The engine wanted "@ + entry.best + "."@
}

/// A position that has been played out is judged by how it ended, whoever made the last move: told
/// to be a success, and announced and written down as one, exactly where what was asked was achieved;
/// written down as won, lost or drawn by whether the winner is the player; and with the engine's
/// move named.
pub proof fn a_finished_position_is_judged_by_its_end(
    view: DrillModel,
    from: Square,
    to: Square,
    found: FoundModel,
    line: Seq<Seq<char>>,
    uci: Seq<char>,
    played: PlayedModel,
    end: Ended,
)
    requires
        !view.settled,
        view.game is Some,
        view.current < view.positions.len(),
        found.played == Some(played),
        played.ended == Some(end),
    ensures
        view.stage == Stage::PlayOut && view.game->0.turn == view.game->0.player ==> tells_the_end(
            view,
            after_play(view, from, to, Some(found), line),
            played,
            end,
        ),
        crate::rules::moved_in(view.game->0.fen, uci) is Some ==> tells_the_end(
            view,
            after_engine(view, uci, Some(played)),
            played,
            end,
        ),
{
    reveal_strlit("won");
    reveal_strlit("drawn");
    reveal_strlit("lost");
    reveal_strlit("Won it this time.");
    reveal_strlit("Saved.");
    reveal_strlit("The win got away again. That is the position to work on.");
    reveal_strlit("Lost it again from here.");
    assert("won"@.len() == 3 && "drawn"@.len() == 5 && "lost"@.len() == 4);
    assert("Won it this time."@.len() == 17 && "Saved."@.len() == 6);
    assert("The win got away again. That is the position to work on."@.len() == 56);
    assert("Lost it again from here."@.len() == 24);
}

/// The board shows the position that the tab is about: on every square the piece that it has there.
/// Going to a position shows it from the side that has to move, asks for its move and begins the
/// question anew; playing it out begins from it; a move of either side shows the position it leads
/// to, with the move marked.
pub proof fn the_board_shows_the_position(
    view: DrillModel,
    index: nat,
    found: Seq<EntryModel>,
    from: Square,
    to: Square,
    step: FoundModel,
    line: Seq<Seq<char>>,
    uci: Seq<char>,
    played: PlayedModel,
)
    requires
        step.played == Some(played),
    ensures
        index < view.positions.len() ==> {
            let after = described(view, index);
            let entry = view.positions[index as int];
            &&& after.current == index
            &&& after.positions == view.positions
            &&& after.stage == Stage::Find
            &&& after.misses == 0
            &&& !after.settled
            &&& !after.thinking
            &&& after.lesson == ""@
            &&& after.start == "Show me"@
            &&& after.title == "Move "@ + crate::text::decimal((entry.ply / 2 + 1) as nat)
            &&& entry.opened matches Some(game) ==> {
                &&& after.game == Some(game)
                &&& after.board.pieces == crate::rules::placement_of(game.fen)
                &&& after.board.orientation == game.player
            }
        },
        index >= view.positions.len() > 0 ==> described(view, index).current
            == view.positions.len() - 1,
        found.len() == 0 ==> reloaded(view, found).board.pieces == crate::rules::placement_of(
            "rnbqkbnr/pppppppp/8/8/8/8/PPPPPPPP/RNBQKBNR w KQkq - 0 1"@,
        ) && reloaded(view, found).title == "Nothing to replay yet"@,
        reloaded(view, found).positions == found,
        reloaded(view, found).offered.len() == found.len(),
        view.current < view.positions.len() ==> (view.positions[view.current as int].opened matches Some(
            game,
        ) ==> {
            let after = begun(view);
            &&& after.game == Some(game)
            &&& after.stage == Stage::PlayOut
            &&& after.board.pieces == crate::rules::placement_of(game.fen)
            &&& after.board.orientation == game.player
            &&& after.board.last_move is None
            &&& after.board.mate is None
            &&& !after.settled
            &&& !after.thinking
        }),
        view.game matches Some(game) ==> {
            &&& view.stage == Stage::PlayOut && game.turn == game.player ==> {
                let after = after_play(view, from, to, Some(step), line);
                &&& after.game == Some(played.game)
                &&& after.board.pieces == crate::rules::placement_of(played.game.fen)
                &&& after.board.last_move == Some((from, to))
                &&& after.board.orientation == view.board.orientation
            }
            &&& crate::rules::legal_in(game.fen, uci) ==> {
                let after = after_engine(view, uci, Some(played));
                &&& after.game == Some(played.game)
                &&& after.board.pieces == crate::rules::placement_of(played.game.fen)
                &&& crate::rules::squares_in_text(uci) matches Some((origin, _))
                    ==> after.board.last_move == Some(
                    (
                        crate::chess::nth_square(origin as int),
                        crate::chess::nth_square(
                            crate::rules::target_in(game.fen, uci) as int,
                        ),
                    ),
                )
                &&& !after.thinking
            }
        },
{
}

/// A move that does not finish the position is answered by the engine: it is asked, once, for its
/// best move in the game that the move has led to, the whole of it, and the tab waits. Every move of
/// the player's is written down with its number and its text, under the position that was selected.
/// Where there is no engine nothing is asked.
pub proof fn the_engine_answers_the_game_played(
    view: DrillModel,
    from: Square,
    to: Square,
    found: FoundModel,
    line: Seq<Seq<char>>,
    played: PlayedModel,
)
    requires
        view.stage == Stage::PlayOut,
        view.game matches Some(game) && game.turn == game.player,
        view.current < view.positions.len(),
        found.played == Some(played),
        played.ended is None,
        played.game.moves.len() > 0,
    ensures
        ({
            let after = after_play(view, from, to, Some(found), line);
            let log = EffectModel::LogMove {
                sitting: view.sitting,
                activity: Activity::Drill,
                subject: view.positions[view.current as int].id,
                ply: (played.game.moves.len() - 1) as u32,
                uci: played.game.moves.last(),
                detail: "{\"moves_until_fifty\":"@ + crate::text::decimal(played.left as nat)
                    + "}"@,
            };
            &&& view.has_engine ==> after.thinking && after.outbox == view.outbox.push(log).push(
                EffectModel::Ask(
                    RequestModel::BestMove {
                        fen: played.game.initial_fen,
                        moves: played.game.moves,
                        millis: 700,
                    },
                ),
            )
            &&& !view.has_engine ==> after.thinking == view.thinking && after.outbox
                == view.outbox.push(log)
            &&& !after.settled || view.settled
        }),
{
}

/// A first wrong answer is put to the engine exactly where there is one that is free: about the
/// position that the answer leads to, under a number of its own, with the answer kept in notation.
/// The reply to that question, and no other, becomes the lesson.
pub proof fn a_wrong_answer_is_put_to_the_engine(
    view: DrillModel,
    from: Square,
    to: Square,
    found: FoundModel,
    line: Seq<Seq<char>>,
    token: u64,
    lesson: Seq<char>,
)
    requires
        view.stage == Stage::Find,
        view.misses == 0,
        view.current < view.positions.len(),
        view.game matches Some(game) && game.turn == game.player && crate::rules::legal_in(
            game.fen,
            found.uci,
        ) && crate::rules::san_in(game.fen, found.uci)
            != view.positions[view.current as int].best,
    ensures
        ({
            let fen = view.game->0.fen;
            let after = after_play(view, from, to, Some(found), line);
            let answered = after_evaluation(after, token, Some(lesson));
            if view.has_engine && !view.lesson_busy {
                &&& after.lesson_token != view.lesson_token
                &&& after.outbox == view.outbox.push(
                    EffectModel::AskWhy(
                        RequestModel::Evaluate {
                            fen: crate::rules::fen_after(fen, found.uci),
                            moves: Seq::empty(),
                            depth: 18,
                            token: after.lesson_token,
                        },
                    ),
                )
                &&& after.asked_about == Some(
                    (
                        crate::rules::fen_after(fen, found.uci),
                        crate::rules::san_plus_in(fen, found.uci),
                    ),
                )
                &&& token == after.lesson_token ==> answered.lesson == lesson
                &&& token != after.lesson_token ==> answered.lesson == view.lesson
            } else {
                after.outbox == view.outbox && after.lesson_token == view.lesson_token
            }
        }),
{
}

/// The answer that is given is the engine's own: its move is named, and its line is laid out to be
/// walked from its beginning, exactly where there is one.
pub proof fn the_answer_given_is_the_engines(view: DrillModel, line: Seq<Seq<char>>)
    requires
        view.current < view.positions.len(),
        view.game is Some,
    ensures
        ({
            let after = revealed(view, line);
            let entry = view.positions[view.current as int];
            &&& after.stage == Stage::PlayOut
            &&& after.line == entry.best_line
            &&& after.line_at == 0
            &&& after.steps <==> entry.best_line.len() > 0
            &&& crate::text::begins(after.lesson, entry.best)
            &&& line.len() > 0 ==> after.lesson == entry.best + " was the move. "@ + joined(
                line,
                "  "@,
            )
            &&& line.len() == 0 ==> after.lesson == entry.best + " was the move. "@ + entry.best
            &&& after.start == "Play it out"@
            &&& after.game == view.game
            &&& after.board == view.board
        }),
{
    let entry = view.positions[view.current as int];
    let rest = " was the move. "@ + if line.len() == 0 {
        entry.best
    } else {
        joined(line, "  "@)
    };
    crate::text::begins_with_its_start(entry.best, rest);
    assert(revealed(view, line).lesson =~= entry.best + rest);
}

/// Walking the engine's line shows, at every step, the position that the moves up to there lead to
/// from the line's own start, and says which of how many it is. A step forward goes one move on and
/// a step back one move back, each as far as the line goes.
pub proof fn the_line_is_shown_move_by_move(view: DrillModel, forward: bool)
    requires
        view.current < view.positions.len(),
        view.positions[view.current as int].start is Some,
        view.line.len() > 0,
        view.line_at <= view.line.len(),
    ensures
        ({
            let after = line_stepped(view, forward);
            let start = view.positions[view.current as int].start->0;
            let shown = view.line.take(after.line_at as int);
            &&& forward && view.line_at < view.line.len() ==> after.line_at == view.line_at + 1
            &&& forward && view.line_at == view.line.len() ==> after.line_at == view.line_at
            &&& !forward && view.line_at > 0 ==> after.line_at == view.line_at - 1
            &&& !forward && view.line_at == 0 ==> after.line_at == 0
            &&& after.board.pieces == crate::rules::placement_of(
                crate::rules::line_end(start, shown),
            )
            &&& after.board.last_move == crate::rules::line_last(start, shown, None)
            &&& after.status == "Line: move "@ + crate::text::decimal(after.line_at) + " of "@
                + crate::text::decimal(view.line.len())
            &&& after.line == view.line
            &&& after.game == view.game
        }),
{
}

/// What stays of some candidates is every entry that can be replayed and no other, in the order in
/// which they came: a candidate behind the others is put behind what stays of them where it can be
/// replayed, and changes nothing where it cannot.
pub proof fn every_playable_candidate_is_kept(
    candidates: Seq<Option<DrillEntry>>,
    next: Option<DrillEntry>,
)
    ensures
        kept(Seq::<Option<DrillEntry>>::empty()) == Seq::<EntryModel>::empty(),
        next matches Some(entry) ==> kept(candidates.push(next)) == kept(candidates).push(entry@),
        next is None ==> kept(candidates.push(next)) == kept(candidates),
{
    assert(candidates.push(next).drop_last() =~= candidates);
    assert(kept(Seq::<Option<DrillEntry>>::empty()) =~= Seq::<EntryModel>::empty());
}

/// A click picks up a piece of the player's own and no other; a second click on it puts it down,
/// and one on another square moves it there. While the engine thinks, and once the position has been
/// judged, a click does nothing.
pub proof fn a_click_picks_up_or_moves(
    view: DrillModel,
    square: Square,
    choices: Seq<Role>,
    spot: Spot,
    found: Option<FoundModel>,
    line: Seq<Seq<char>>,
)
    ensures
        ({
            let after = after_click(view, square, choices, spot, found, line);
            let own = view.game matches Some(game) && (crate::rules::piece_on(
                game.fen,
                square,
            ) matches Some(piece) && piece.color == game.player);
            &&& view.thinking || view.settled ==> after == view
            &&& !view.thinking && !view.settled && view.board.selected is None ==> {
                &&& own ==> after.board.selected == Some(square)
                &&& !own ==> after.board.selected is None
                &&& after.game == view.game
                &&& after.outbox == view.outbox
            }
            &&& !view.thinking && !view.settled && view.board.selected == Some(square) ==> {
                &&& after.board.selected is None
                &&& after.game == view.game
                &&& after.outbox == view.outbox
            }
            &&& view.board.selected matches Some(from) ==> from != square && choices.len() <= 1
                && !view.thinking && !view.settled ==> after == after_play(
                DrillModel { board: BoardModel { selected: None, ..view.board }, ..view },
                from,
                square,
                found,
                line,
            )
        }),
{
}

/// The tab after its one button: while the move is asked for it gives the answer, and afterwards it
/// begins the playing out.
pub open spec fn start_pressed(view: DrillModel, line: Seq<Seq<char>>) -> DrillModel {
    if view.stage == Stage::Find {
        revealed(view, line)
    } else {
        begun(view)
    }
}

/// Pressed once, the button gives the answer and leaves the position where it is; pressed again, it
/// begins the playing out of that very position. Neither press writes an answer down.
pub proof fn the_button_gives_the_answer_and_begins(view: DrillModel, line: Seq<Seq<char>>)
    requires
        view.stage == Stage::Find,
        view.game is Some,
        view.current < view.positions.len(),
        view.positions[view.current as int].opened is Some,
    ensures
        ({
            let entry = view.positions[view.current as int];
            let shown = start_pressed(view, line);
            let playing = start_pressed(shown, line);
            &&& shown.stage == Stage::PlayOut
            &&& shown.game == view.game
            &&& shown.board == view.board
            &&& shown.line == entry.best_line
            &&& shown.outbox == view.outbox
            &&& playing.game == entry.opened
            &&& playing.stage == Stage::PlayOut
            &&& playing.board.pieces == crate::rules::placement_of(entry.opened->0.fen)
            &&& !playing.settled
            &&& !playing.steps
            &&& forall|i: int|
                view.outbox.len() <= i < playing.outbox.len() ==> !((
                #[trigger] playing.outbox[i]) is RecordAnswer)
        }),
{
}

/// What is said of a position is said of that position: its move's number, what was played there and
/// what it cost, and whether a win or a draw was there to be found. Its line in the picker gives the
/// phase and the cost, and every position has its line, at its own place.
pub proof fn a_position_is_told_by_its_own_figures(view: DrillModel, index: nat)
    requires
        index < view.positions.len(),
    ensures
        ({
            let entry = view.positions[index as int];
            let after = described(view, index);
            &&& after.objective == entry.played + "??   -"@ + entry.cost + "%   you stood at "@
                + entry.stood + "%"@
            &&& entry.objective == Objective::Win ==> after.idea
                == "Winning was there. Find the move."@
            &&& entry.objective == Objective::Draw ==> after.idea
                == "A draw was there. Find the move."@
            &&& labels_for(view.positions).len() == view.positions.len()
            &&& labels_for(view.positions)[index as int] == day_text(entry.played_at as int)
                + " "@ + entry.phase + " — cost "@ + entry.cost + "%"@
        }),
{
}

/// What is said of the record: how many positions wait where none was played out, how many were
/// converted out of how many where some were, and how many are set aside exactly where any are.
pub proof fn the_record_counts_conversions_out_of_attempts(
    waiting: nat,
    attempts: u64,
    achieved: u64,
    hours: Seq<char>,
    aside: u64,
)
    ensures
        attempts == 0 ==> record_text(waiting, attempts, achieved, 0, hours)
            == crate::text::decimal(waiting) + " positions waiting. None played out yet."@ + ""@,
        attempts > 0 ==> record_text(waiting, attempts, achieved, 0, hours) == crate::text::decimal(
            achieved as nat,
        ) + " of "@ + crate::text::decimal(attempts as nat) + " played out successfully."@ + ""@,
        aside > 0 && attempts > 0 ==> record_text(waiting, attempts, achieved, aside, hours)
            == crate::text::decimal(achieved as nat) + " of "@ + crate::text::decimal(
            attempts as nat,
        ) + " played out successfully."@ + (" "@ + crate::text::decimal(aside as nat)
            + " mastered and set aside — won twice at least "@ + hours
            + "h apart, most recently."@),
{
}

/// A move that no legal move makes is refused in words, and one that cannot be played likewise; neither
/// changes the game, the board or what is written down. On the engine's turn nothing happens at all.
pub proof fn an_impossible_move_is_refused(
    view: DrillModel,
    from: Square,
    to: Square,
    line: Seq<Seq<char>>,
    uci: Seq<char>,
    found: FoundModel,
)
    requires
        found.played is None,
    ensures
        ({
            let after = after_play(view, from, to, None, line);
            &&& after.game == view.game
            &&& after.board == view.board
            &&& after.outbox == view.outbox
            &&& after.misses == view.misses
            &&& after.stage == view.stage
            &&& (view.game matches Some(game) && game.turn == game.player) ==> after.status
                == crate::chess::square_name(from) + " to "@ + crate::chess::square_name(to)
                + " is not legal here"@
            &&& (view.game matches Some(game) && game.turn != game.player) ==> after_play(
                view,
                from,
                to,
                Some(found),
                line,
            ) == view && after == view
        }),
        (view.game matches Some(game) && game.turn == game.player) && view.stage == Stage::PlayOut
            ==> {
            let after = after_play(view, from, to, Some(found), line);
            &&& after.game == view.game
            &&& after.board == view.board
            &&& after.outbox == view.outbox.push(
                EffectModel::Say(
                    Tone::Rejected,
                    crate::chess::square_name(from) + " to "@ + crate::chess::square_name(to)
                        + " cannot be played in this position"@,
                ),
            )
        },
        ({
            let after = after_engine(view, uci, None);
            &&& after.game == view.game
            &&& after.board == view.board
            &&& after.outbox == view.outbox
            &&& !after.thinking
        }),
{
}

/// A pawn that has a choice to make raises the picker before anything is played, for the move that it
/// was asked about; a piece that the picker offers then plays that move, and one that it does not offer
/// changes nothing. How far the attempt has run is counted in moves of both sides.
pub proof fn a_promotion_waits_for_its_piece(
    view: DrillModel,
    from: Square,
    to: Square,
    choices: Seq<Role>,
    spot: Spot,
    role: Role,
    found: Option<FoundModel>,
    line: Seq<Seq<char>>,
)
    requires
        !view.thinking,
        !view.settled,
        view.game is Some,
        choices.len() > 1,
        spot.width > 0 && spot.height > 0,
    ensures
        ({
            let asked = after_move(view, from, to, choices, spot, found, line);
            let chosen = after_choice(asked, role, found, line);
            &&& asked.promotion == Some((from, to))
            &&& asked.game == view.game
            &&& asked.outbox == view.outbox
            &&& asked.board.picker is Some
            &&& asked.board.picker->0.color == view.game->0.player
            &&& !choices.contains(role) ==> chosen == asked
            &&& choices.contains(role) ==> chosen == after_play(
                DrillModel { board: BoardModel { picker: None, ..asked.board }, ..asked },
                from,
                to,
                found,
                line,
            )
        }),
        countdown_text(view.game) == "move "@ + crate::text::decimal(
            (view.game->0.moves.len() / 2 + 1) as nat,
        ),
{
    crate::board::the_picker_offers_what_can_be_chosen(
        view.board,
        to,
        crate::exercise::plays_white(view.game),
        choices,
        spot,
        role,
    );
}

/// A new tab listens to its board and has nothing on it: no position, no game, no sitting, nothing
/// asked and nothing said but what the button does.
pub proof fn a_new_tab_waits_for_a_position(art: bool, has_engine: bool)
    ensures
        ({
            let fresh = fresh_drill(art, has_engine);
            &&& fresh.board.hears_moves && fresh.board.hears_drags
            &&& fresh.board == (BoardModel { hears_moves: true, hears_drags: true, ..fresh_board(art) })
            &&& fresh.has_engine == has_engine
            &&& fresh.game is None && fresh.sitting is None && fresh.promotion is None
            &&& fresh.asked_about is None && !fresh.lesson_busy && !fresh.thinking
            &&& fresh.settled && fresh.stage == Stage::Find && fresh.misses == 0
            &&& fresh.positions.len() == 0 && fresh.offered.len() == 0 && fresh.line.len() == 0
            &&& !fresh.steps && fresh.start == "Begin"@
            &&& fresh.title == ""@ && fresh.objective == ""@ && fresh.idea == ""@
            &&& fresh.status == ""@ && fresh.record == ""@ && fresh.countdown == ""@
            &&& fresh.lesson == ""@
            &&& fresh.outbox.len() == 0
        }),
{
}

/// Going to a position leaves nothing over from the last one, and its record is read; a list without
/// positions says how it fills. Beginning to play one out opens a sitting where there is none yet, and
/// starts the clock; and the count of moves is that of the game on the board after a move of either
/// side.
pub proof fn nothing_is_left_over_from_the_last_position(
    view: DrillModel,
    index: nat,
    from: Square,
    to: Square,
    found: FoundModel,
    played: PlayedModel,
    line: Seq<Seq<char>>,
    uci: Seq<char>,
)
    requires
        found.played == Some(played),
        played.ended is None,
    ensures
        view.positions.len() > 0 ==> {
            let after = described(view, index);
            &&& after.line.len() == 0
            &&& !after.steps
            &&& after.status == ""@
            &&& after.countdown == ""@
            &&& after.asked_about is None
            &&& after.outbox == view.outbox.push(EffectModel::ReadRecord)
        },
        ({
            let after = reloaded(view, Seq::empty());
            &&& after.objective == ""@
            &&& after.record == ""@
            &&& after.idea
                == "Import a PGN export or play a game here. The positions you lost from collect up and come back as drills."@
            &&& after.board.orientation == Color::White
            &&& after.asked_about is None
        }),
        view.current < view.positions.len() ==> (view.positions[view.current as int].opened matches Some(
            game,
        ) ==> {
            let after = begun(view);
            &&& after.status == "Your move. Play the position out."@
            &&& after.countdown == "move "@ + crate::text::decimal(
                (game.moves.len() / 2 + 1) as nat,
            )
            &&& view.sitting is None ==> after.outbox == view.outbox.push(
                EffectModel::BeginSession(Activity::Drill),
            ).push(EffectModel::ClearBanner).push(EffectModel::StartClock)
            &&& view.sitting is Some ==> after.outbox == view.outbox.push(
                EffectModel::ClearBanner,
            ).push(EffectModel::StartClock)
        }),
        view.current < view.positions.len() && view.positions[view.current as int].opened is None
            ==> begun(view) == (DrillModel {
            status: "This position could not be set up."@,
            ..view
        }),
        view.current >= view.positions.len() ==> begun(view) == (DrillModel {
            status: "Nothing to play."@,
            ..view
        }),
        view.game matches Some(game) ==> {
            &&& view.stage == Stage::PlayOut && game.turn == game.player ==> after_play(
                view,
                from,
                to,
                Some(found),
                line,
            ).countdown == "move "@ + crate::text::decimal(
                (played.game.moves.len() / 2 + 1) as nat,
            )
            &&& crate::rules::legal_in(game.fen, uci) ==> after_engine(
                view,
                uci,
                Some(played),
            ).countdown == "move "@ + crate::text::decimal(
                (played.game.moves.len() / 2 + 1) as nat,
            )
            &&& crate::rules::legal_in(game.fen, uci) ==> after_engine(view, uci, None).status
                == "The engine offered a move that is not legal here."@
        },
{
}

/// Stepping never leaves the line, and a step back undoes a step forward that moved.
pub proof fn steps_stay_in_the_line(at: nat, len: nat)
    requires
        at <= len,
    ensures
        stepped_to(at, len, true) <= len,
        stepped_to(at, len, false) <= len,
        at < len ==> stepped_to(stepped_to(at, len, true), len, false) == at,
{
}

impl DrillView {
    /// The tab, with the positions that were found for it. A candidate that is missing its puzzle
    /// or its position is `None`.
    pub fn new(art: bool, has_engine: bool, candidates: Vec<Option<DrillEntry>>) -> (r: DrillView)
        requires
            datable(candidates@),
        ensures
            r@ == reloaded(fresh_drill(art, has_engine), kept(candidates@)),
    {
        let mut board = BoardView::new(art);
        board.connect_drag();
        board.connect_move();
        let mut view = DrillView {
            board,
            has_engine,
            game: None,
            positions: Vec::new(),
            current: 0,
            offered: Vec::new(),
            picked: 0,
            title: "".to_owned(),
            objective: "".to_owned(),
            idea: "".to_owned(),
            status: "".to_owned(),
            record: "".to_owned(),
            countdown: "".to_owned(),
            start: "Begin".to_owned(),
            thinking: false,
            settled: true,
            sitting: None,
            stage: Stage::Find,
            misses: 0,
            lesson: "".to_owned(),
            line: Vec::new(),
            line_at: 0,
            steps: false,
            lesson_busy: false,
            lesson_token: 0,
            asked_about: None,
            promotion: None,
            outbox: Vec::new(),
        };
        proof {
            reveal(effects);
        }
        assert(texts(view.offered@) =~= Seq::<Seq<char>>::empty());
        assert(texts(view.line@) =~= Seq::<Seq<char>>::empty());
        assert(entries(view.positions@) =~= Seq::<EntryModel>::empty());
        assert(effects(view.outbox@) =~= Seq::<EffectModel>::empty());
        view.reload(candidates);
        view
    }

    /// Refresh the list of positions worth replaying.
    ///
    /// Called when the view is shown, because importing a game or losing a new one changes what
    /// is worth working on.
    pub fn reload(&mut self, candidates: Vec<Option<DrillEntry>>)
        requires
            datable(candidates@),
        ensures
            final(self)@ == reloaded(old(self)@, kept(candidates@)),
    {
        let (rows, labels) = list_entries(candidates);
        let count = rows.len();
        let place = self.place_in(&rows);
        self.positions = rows;
        self.offered = labels;
        self.current = 0;
        if count == 0 {
            self.retire();
            self.title = "Nothing to replay yet".to_owned();
            self.idea =
            "Import a PGN export or play a game here. The positions you lost from collect up and come back as drills.".to_owned();
            self.objective = "".to_owned();
            self.record = "".to_owned();
            // Something rather than a blank grid, which reads as broken.
            self.board.set_orientation(Color::White);
            self.board.set_position(crate::exercise::start_fen());
        } else {
            self.picked = place;
            self.describe(place);
        }
    }

    /// Where a new list is opened: on the position that was selected, where it is still listed.
    fn place_in(&self, rows: &Vec<DrillEntry>) -> (r: usize)
        ensures
            r == opening_place(self@, entries(rows@)),
            rows@.len() > 0 ==> r < rows@.len(),
    {
        if self.current >= self.positions.len() {
            return 0;
        }
        let ghost id = self.positions@[self.current as int].id@;
        let mut i: usize = 0;
        while i < rows.len()
            invariant
                i <= rows.len(),
                self.current < self.positions@.len(),
                id == self.positions@[self.current as int].id@,
                place_of(entries(rows@), id, i as nat) == place_of(entries(rows@), id, 0),
            decreases rows.len() - i,
        {
            if rows[i].id == self.positions[self.current].id {
                return i;
            }
            i += 1;
        }
        0
    }

    /// Retire every question about an earlier position.
    fn retire(&mut self)
        ensures
            final(self)@ == retired(old(self)@),
    {
        self.lesson_token = if self.lesson_token == u64::MAX {
            0
        } else {
            self.lesson_token + 1
        };
        self.asked_about = None;
    }

    /// Show what a position asks before it is started.
    ///
    /// What was played and what it cost is said first. Withholding it would be a way to test
    /// somebody, not to teach them, and is not what going back over your own game is for.
    pub fn describe(&mut self, index: usize)
        ensures
            final(self)@ == described(old(self)@, index as nat),
    {
        let count = self.positions.len();
        if count == 0 {
            return;
        }
        let current = if index < count {
            index
        } else {
            count - 1
        };
        self.current = current;
        let (title, objective, idea) = self.describe_entry(current);
        let opened = self.opened_at(current);
        self.retire();
        self.title = title;
        self.objective = objective;
        self.idea = idea;
        match opened {
            Some(game) => {
                self.board.set_position(game.fen.as_str());
                self.board.set_orientation(game.player);
                self.game = Some(game);
            },
            None => {},
        }
        self.stage = Stage::Find;
        // The exercise is live as soon as it is on screen: the first half asks a question, and a
        // question you cannot answer until you press a button is not being asked.
        self.settled = false;
        self.thinking = false;
        self.misses = 0;
        self.lesson = "".to_owned();
        self.line = Vec::new();
        assert(texts(self.line@) =~= Seq::<Seq<char>>::empty());
        self.steps = false;
        self.start = "Show me".to_owned();
        self.status = "".to_owned();
        self.countdown = "".to_owned();
        emit(&mut self.outbox, Effect::ReadRecord);
    }

    /// What is said of a position: its title, its mistake, and the call to find the move.
    fn describe_entry(&self, index: usize) -> (r: (String, String, String))
        requires
            index < self@.positions.len(),
        ensures
            r.0@ == "Move "@ + crate::text::decimal(
                (self@.positions[index as int].ply / 2 + 1) as nat,
            ),
            r.1@ == mistake_text(self@.positions[index as int]),
            r.2@ == call_to_find(self@.positions[index as int].objective),
    {
        let entry = &self.positions[index];
        let title = glue2("Move ", number(entry.ply as u64 / 2 + 1).as_str());
        let mut mistake = glue5(
            entry.played.as_str(),
            "??   -",
            entry.cost.as_str(),
            "%   you stood at ",
            entry.stood.as_str(),
        );
        mistake.append("%");
        let call = match entry.objective {
            Objective::Win => "Winning was there. Find the move.",
            Objective::Draw => "A draw was there. Find the move.",
        };
        (title, mistake, call.to_owned())
    }

    /// The record of past attempts was read: how many positions were played out, how many of
    /// them successfully, how many are set aside, and how many hours apart they must have been
    /// won.
    pub fn show_record(&mut self, attempts: u64, achieved: u64, retired: u64, hours: &str)
        ensures
            final(self)@ == (DrillModel {
                record: record_text(
                    old(self)@.positions.len(),
                    attempts,
                    achieved,
                    retired,
                    hours@,
                ),
                ..old(self)@
            }),
    {
        // Said out loud: a position quietly vanishing from the list looks like a bug rather than
        // like progress.
        let mastered = if retired == 0 {
            "".to_owned()
        } else {
            glue5(
                " ",
                number(retired).as_str(),
                " mastered and set aside — won twice at least ",
                hours,
                "h apart, most recently.",
            )
        };
        let text = if attempts == 0 {
            glue3(
                number(self.positions.len() as u64).as_str(),
                " positions waiting. None played out yet.",
                mastered.as_str(),
            )
        } else {
            glue5(
                number(achieved).as_str(),
                " of ",
                number(attempts).as_str(),
                " played out successfully.",
                mastered.as_str(),
            )
        };
        self.record = text;
    }

    /// A sitting was opened.
    pub fn session_opened(&mut self, id: i64)
        ensures
            final(self)@ == (DrillModel { sitting: Some(id), ..old(self)@ }),
    {
        self.sitting = Some(id);
    }

    /// One button, two jobs, because they are the two halves of one exercise: give up on finding
    /// it, then convert what you found. `line` is the engine's line in notation.
    pub fn press_start(&mut self, line: &Vec<String>)
        ensures
            final(self)@ == start_pressed(old(self)@, texts(line@)),
    {
        if self.stage == Stage::Find {
            self.reveal_answer(line);
        } else {
            self.begin();
        }
    }

    /// Put the answer on the table and let it be walked.
    fn reveal_answer(&mut self, line: &Vec<String>)
        ensures
            final(self)@ == revealed(old(self)@, texts(line@)),
    {
        if self.current >= self.positions.len() || self.game.is_none() {
            return;
        }
        let best = self.positions[self.current].best.clone();
        let best_line = copy_texts(&self.positions[self.current].best_line);
        let shown = if line.len() == 0 {
            best.clone()
        } else {
            crate::text::join(line, "  ")
        };
        self.lesson = glue3(best.as_str(), " was the move. ", shown.as_str());
        self.steps = best_line.len() > 0;
        self.line = best_line;
        self.line_at = 0;
        self.stage = Stage::PlayOut;
        self.idea = "Now play it out against the engine.".to_owned();
        self.start = "Play it out".to_owned();
    }

    /// Step the engine's line on the board.
    pub fn step_line(&mut self, forward: bool)
        ensures
            final(self)@ == line_stepped(old(self)@, forward),
    {
        if self.current >= self.positions.len() || self.line.len() == 0 {
            return;
        }
        let len = self.line.len();
        let at: usize = if forward {
            if self.line_at < len {
                self.line_at + 1
            } else {
                len
            }
        } else if self.line_at > 0 {
            self.line_at - 1
        } else {
            0
        };
        self.line_at = at;
        // The reader may have been further on in an earlier, longer line.
        let upto = if at <= len {
            at
        } else {
            len
        };
        match self.line_point(upto) {
            Some((fen, last)) => self.show_line(fen, last, at, len),
            None => {},
        }
    }

    /// A point of the engine's line: its position and the move before it.
    fn line_point(&self, upto: usize) -> (r: Option<(String, Option<(Square, Square)>)>)
        requires
            self@.current < self@.positions.len(),
            upto <= self@.line.len(),
        ensures
            r is Some <==> self@.positions[self@.current as int].start is Some,
            r matches Some(point) ==> {
                let start = self@.positions[self@.current as int].start->0;
                &&& point.0@ == crate::rules::line_end(start, self@.line.take(upto as int))
                &&& point.1 == crate::rules::line_last(start, self@.line.take(upto as int), None)
            },
    {
        match &self.positions[self.current].start {
            Some(start) => Some(crate::rules::walk_line(start.as_str(), &self.line, upto)),
            None => None,
        }
    }

    /// Draw a point of the engine's line.
    fn show_line(&mut self, fen: String, last: Option<(Square, Square)>, at: usize, len: usize)
        ensures
            final(self)@ == (DrillModel {
                board: BoardModel {
                    pieces: crate::rules::placement_of(fen@),
                    last_move: last,
                    ..old(self)@.board
                },
                status: "Line: move "@ + crate::text::decimal(at as nat) + " of "@
                    + crate::text::decimal(len as nat),
                ..old(self)@
            }),
    {
        self.board.set_position(fen.as_str());
        self.board.set_last_move(last);
        self.status = glue4(
            "Line: move ",
            number(at as u64).as_str(),
            " of ",
            number(len as u64).as_str(),
        );
    }

    /// Begin playing the position out.
    pub fn begin(&mut self)
        ensures
            final(self)@ == begun(old(self)@),
    {
        if self.current >= self.positions.len() {
            self.status = "Nothing to play.".to_owned();
            return;
        }
        match self.opened_at(self.current) {
            Some(game) => self.begin_game(game),
            None => {
                self.status = "This position could not be set up.".to_owned();
            },
        }
    }

    /// A position of the list as a game.
    fn opened_at(&self, index: usize) -> (r: Option<GameState>)
        requires
            index < self@.positions.len(),
        ensures
            opt_game(r) == self@.positions[index as int].opened,
    {
        match &self.positions[index].opened {
            Some(game) => Some(game.copy()),
            None => None,
        }
    }

    /// Begin playing a game out.
    fn begin_game(&mut self, game: GameState)
        ensures
            final(self)@ == begun_with(old(self)@, game@),
    {
        self.board.set_position(game.fen.as_str());
        self.board.set_orientation(game.player);
        self.board.set_last_move(None);
        self.board.set_mate(None);
        if self.sitting.is_none() {
            emit(&mut self.outbox, Effect::BeginSession(Activity::Drill));
        }
        emit(&mut self.outbox, Effect::ClearBanner);
        // From here a move is a move again.
        self.stage = Stage::PlayOut;
        self.steps = false;
        emit(&mut self.outbox, Effect::StartClock);
        self.game = Some(game);
        self.settled = false;
        self.thinking = false;
        self.status = "Your move. Play the position out.".to_owned();
        self.update_countdown();
    }

    /// Say how far the attempt has run.
    fn update_countdown(&mut self)
        ensures
            final(self)@ == (DrillModel {
                countdown: countdown_text(old(self)@.game),
                ..old(self)@
            }),
    {
        let text = match &self.game {
            Some(game) => glue2("move ", number(game.moves.len() as u64 / 2 + 1).as_str()),
            None => "".to_owned(),
        };
        self.countdown = text;
    }

    /// Clicking a piece and then where it should go. `choices`, `spot`, `found` and `line` are
    /// those of a move from the selected square to this one.
    pub fn on_square(
        &mut self,
        square: Square,
        choices: &Vec<Role>,
        spot: Spot,
        found: Option<FoundMove>,
        line: &Vec<String>,
    )
        requires
            crate::board::picker_fits(old(self)@.board, square, choices@, spot),
            old(self)@.misses < u32::MAX,
        ensures
            final(self)@ == after_click(
                old(self)@,
                square,
                choices@,
                spot,
                crate::exercise::opt_found(found),
                texts(line@),
            ),
    {
        if self.thinking || self.settled {
            return;
        }
        match self.board.selected() {
            None => {
                // Only own pieces can be picked up, or the first click selects an empty square
                // and the second looks like it did nothing.
                if has_own_piece(&self.game, square) {
                    self.board.select(Some(square));
                }
            },
            Some(from) => {
                self.board.select(None);
                if from != square {
                    self.play(from, square, choices, spot, found, line);
                }
            },
        }
    }

    /// The player's move, asking first when a pawn reaches the last rank. `choices` are the
    /// pieces that the pawn could become, `spot` the place of the target square on the screen,
    /// `found` the legal move between the squares, and `line` the engine's line in notation.
    pub fn play(
        &mut self,
        from: Square,
        to: Square,
        choices: &Vec<Role>,
        spot: Spot,
        found: Option<FoundMove>,
        line: &Vec<String>,
    )
        requires
            crate::board::picker_fits(old(self)@.board, to, choices@, spot),
            old(self)@.misses < u32::MAX,
        ensures
            final(self)@ == after_move(
                old(self)@,
                from,
                to,
                choices@,
                spot,
                crate::exercise::opt_found(found),
                texts(line@),
            ),
    {
        if self.thinking || self.settled {
            return;
        }
        if self.game.is_some() && choices.len() > 1 {
            let white = is_white(&self.game);
            self.board.ask_promotion(to, white, choices, spot);
            self.promotion = Some((from, to));
            return;
        }
        self.play_promoting(from, to, found, line);
    }

    /// A piece was chosen in the promotion picker.
    pub fn choose_promotion(&mut self, role: Role, found: Option<FoundMove>, line: &Vec<String>)
        requires
            old(self)@.misses < u32::MAX,
        ensures
            final(self)@ == after_choice(
                old(self)@,
                role,
                crate::exercise::opt_found(found),
                texts(line@),
            ),
    {
        match self.promotion {
            Some((from, to)) => {
                // Taken down first: what follows redraws the board, and the picker must not still
                // be sitting over the new position.
                match self.board.click_promotion_choice(role) {
                    Ok(_) => self.play_promoting(from, to, found, line),
                    Err(_) => {},
                }
            },
            None => {},
        }
    }

    /// The player's move, with nothing left to ask.
    fn play_promoting(
        &mut self,
        from: Square,
        to: Square,
        found: Option<FoundMove>,
        line: &Vec<String>,
    )
        requires
            old(self)@.misses < u32::MAX,
        ensures
            final(self)@ == after_play(
                old(self)@,
                from,
                to,
                crate::exercise::opt_found(found),
                texts(line@),
            ),
    {
        let mine = match &self.game {
            Some(game) => game.turn == game.player,
            None => false,
        };
        if !mine {
            return;
        }
        let found = match found {
            Some(found) => found,
            None => {
                self.status = say_squares(from, to, " is not legal here");
                return;
            },
        };
        if self.stage == Stage::Find {
            self.answer(found.uci, line);
            return;
        }
        match found.played {
            None => {
                let text = say_squares(from, to, " cannot be played in this position");
                emit(&mut self.outbox, Effect::Say(Tone::Rejected, text));
            },
            Some(played) => {
                let ended = played.ended;
                self.advance(from, to, played);
                if ended.is_some() {
                    self.judge(ended);
                } else {
                    self.ask_engine();
                }
            },
        }
    }

    /// While the exercise is asking which move should have been played, a move is an answer
    /// rather than a move: it is judged, explained, and the position stays where it is.
    fn answer(&mut self, uci: String, line: &Vec<String>)
        requires
            old(self)@.misses < u32::MAX,
        ensures
            final(self)@ == answered(old(self)@, uci@, texts(line@)),
    {
        if self.judge_answer(uci.as_str()) {
            self.status = "That is the move.".to_owned();
            self.lesson = "".to_owned();
            self.record_found(true);
            self.reveal_answer(line);
        } else {
            let misses: u32 = self.misses + 1;
            self.misses = misses;
            if misses >= 2 {
                self.status = "Here it is.".to_owned();
                self.record_found(false);
                self.reveal_answer(line);
            } else {
                self.status = "Not that one.".to_owned();
                self.ask_why(uci.as_str());
            }
        }
    }

    /// Write down whether the move was found.
    fn record_found(&mut self, found: bool)
        ensures
            final(self)@ == found_recorded(old(self)@, found),
    {
        if self.current < self.positions.len() {
            let id = self.positions[self.current].id.clone();
            emit(&mut self.outbox, Effect::RecordAnswer { id, found });
        }
    }

    /// Whether a move is the one the engine wanted.
    fn judge_answer(&self, uci: &str) -> (r: bool)
        ensures
            r == is_answer(self@, uci@),
    {
        if self.current >= self.positions.len() {
            return false;
        }
        match &self.game {
            Some(game) => match crate::rules::san(game.fen.as_str(), uci) {
                Some(san) => san == self.positions[self.current].best,
                None => false,
            },
            None => false,
        }
    }

    /// Ask the engine what punishes the move just tried: "not that one" tells the solver they
    /// failed and nothing about the board.
    fn ask_why(&mut self, uci: &str)
        ensures
            final(self)@ == wondering(old(self)@, uci@),
    {
        if !self.has_engine || self.lesson_busy {
            return;
        }
        let (played, after) = match &self.game {
            Some(game) => match (
                crate::rules::san_plus(game.fen.as_str(), uci),
                crate::rules::after(game.fen.as_str(), uci),
            ) {
                (Some(played), Some(after)) => (played, after),
                _ => {
                    return;
                },
            },
            None => {
                return;
            },
        };
        let token: u64 = if self.lesson_token == u64::MAX {
            0
        } else {
            self.lesson_token + 1
        };
        self.lesson_token = token;
        let moves: Vec<String> = Vec::new();
        assert(texts(moves@) =~= Seq::<Seq<char>>::empty());
        let request = Request::Evaluate { fen: after.clone(), moves, depth: LESSON_DEPTH, token };
        self.asked_about = Some((after, played));
        emit(&mut self.outbox, Effect::AskWhy(request));
    }

    /// Whether the engine took the question.
    pub fn asked(&mut self, sent: bool)
        ensures
            final(self)@ == if sent {
                DrillModel { lesson_busy: true, lesson: "Looking at why…"@, ..old(self)@ }
            } else {
                old(self)@
            },
    {
        if sent {
            self.lesson_busy = true;
            self.lesson = "Looking at why…".to_owned();
        }
    }

    /// Put the player's move on the board and in the log.
    fn advance(&mut self, from: Square, to: Square, played: Played)
        ensures
            final(self)@ == advanced(old(self)@, from, to, played@),
    {
        self.retire();
        self.board.set_position(played.game.fen.as_str());
        self.board.set_last_move(Some((from, to)));
        let (ply, uci) = last_played(&played.game);
        let subject = if self.current < self.positions.len() {
            self.positions[self.current].id.clone()
        } else {
            "".to_owned()
        };
        let detail = crate::exercise::budget_text(played.left);
        self.game = Some(played.game);
        emit(
            &mut self.outbox,
            Effect::LogMove {
                sitting: self.sitting,
                activity: Activity::Drill,
                subject,
                ply,
                uci,
                detail,
            },
        );
        self.update_countdown();
    }

    /// Judge the position if it has finished.
    fn judge(&mut self, ended: Option<Ended>)
        ensures
            final(self)@ == judged(old(self)@, ended),
    {
        let end = match ended {
            Some(end) => end,
            None => {
                return;
            },
        };
        let (moves, side): (u32, Color) = match &self.game {
            Some(game) => (game.moves.len() as u32, game.player),
            None => {
                return;
            },
        };
        if self.settled {
            return;
        }
        self.settled = true;
        if self.current >= self.positions.len() {
            return;
        }
        let (id, brief, best, objective) = {
            let entry = &self.positions[self.current];
            (entry.id.clone(), entry.brief.clone(), entry.best.clone(), entry.objective)
        };
        let result = match end.winner {
            Some(colour) => if colour == side {
                "won"
            } else {
                "lost"
            },
            None => "drawn",
        };
        emit(
            &mut self.outbox,
            Effect::RecordDrill { id, achieved: end.achieved, moves, result: result.to_owned() },
        );
        let verdict = match (objective, end.achieved) {
            (Objective::Win, true) => "Won it this time.",
            (Objective::Win, false) => "The win got away again. That is the position to work on.",
            (Objective::Draw, true) => "Saved.",
            (Objective::Draw, false) => "Lost it again from here.",
        };
        self.status = verdict.to_owned();
        let tone = if end.achieved {
            Tone::Won
        } else {
            Tone::Lost
        };
        emit(&mut self.outbox, Effect::Say(tone, verdict.to_owned()));
        self.idea = glue4(brief.as_str(), " The engine wanted ", best.as_str(), ".");
        self.countdown = "".to_owned();
        emit(&mut self.outbox, Effect::ReadRecord);
    }

    /// Ask the engine for its move.
    fn ask_engine(&mut self)
        ensures
            final(self)@ == awaiting_engine(old(self)@),
    {
        if !self.has_engine {
            self.status = "No engine, so there is nothing to play against.".to_owned();
            return;
        }
        let request = match &self.game {
            Some(game) => Request::BestMove {
                fen: game.initial_fen.clone(),
                moves: copy_texts(&game.moves),
                millis: DEFENCE_MS,
            },
            None => {
                return;
            },
        };
        self.thinking = true;
        emit(&mut self.outbox, Effect::Ask(request));
    }

    /// The engine moved. `played` is the game after its move, where that could be played.
    pub fn engine_moved(&mut self, uci: &str, played: Option<Played>)
        ensures
            final(self)@ == after_engine(old(self)@, uci@, crate::exercise::opt_played(played)),
    {
        self.thinking = false;
        match self.engine_squares(uci) {
            Some(moved) => match played {
                None => {
                    self.status = "The engine offered a move that is not legal here.".to_owned();
                },
                Some(played) => self.follow_engine(moved, played),
            },
            None => {},
        }
    }

    /// What a move of the engine does on the board.
    fn engine_squares(&self, uci: &str) -> (r: Option<Moved>)
        ensures
            r == match self@.game {
                Some(game) => crate::rules::moved_in(game.fen, uci@),
                None => None,
            },
    {
        match &self.game {
            Some(game) => crate::rules::moved(game.fen.as_str(), uci),
            None => None,
        }
    }

    /// Put the engine's move on the board.
    fn follow_engine(&mut self, moved: Moved, played: Played)
        ensures
            final(self)@ == followed(old(self)@, moved, played@),
    {
        let ended = played.ended;
        self.board.set_position(played.game.fen.as_str());
        match moved.from {
            Some(from) => self.board.set_last_move(Some((from, moved.to))),
            None => {},
        }
        self.game = Some(played.game);
        self.update_countdown();
        self.judge(ended);
    }

    /// The engine said why a move was wrong: `lesson`, where it had anything usable to say.
    pub fn evaluated(&mut self, token: u64, lesson: Option<String>)
        ensures
            final(self)@ == after_evaluation(old(self)@, token, crate::text::opt_text(lesson)),
    {
        self.lesson_busy = false;
        if token != self.lesson_token || self.asked_about.is_none() {
            return;
        }
        self.lesson = match lesson {
            Some(text) => text,
            // Nothing usable back means nothing said, rather than something confident about a
            // score never given.
            None => "".to_owned(),
        };
    }

    /// The engine stopped.
    pub fn engine_failed(&mut self, why: &str)
        ensures
            final(self)@ == (DrillModel {
                thinking: false,
                status: "The engine stopped: "@ + why@,
                ..old(self)@
            }),
    {
        self.thinking = false;
        self.status = glue2("The engine stopped: ", why);
    }

    /// How many moves the position in progress has seen.
    pub fn moves_played(&self) -> (r: usize)
        ensures
            r == match self@.game {
                Some(game) => game.moves.len(),
                None => 0,
            },
    {
        match &self.game {
            Some(game) => game.moves.len(),
            None => 0,
        }
    }

    /// Enough of the internal state to say where a click went wrong.
    pub fn describe_state(&self) -> (r: String)
        ensures
            r@ == state_text(self@),
    {
        let mut text = number(self.positions.len() as u64);
        match &self.game {
            None => {
                text.append(" positions loaded, no game started (settled=");
                text.append(crate::text::truth_text(self.settled));
                text.append(")");
            },
            Some(game) => {
                text.append(" positions loaded, playing as ");
                text.append(game.player.name());
                text.append(", ");
                text.append(number(game.moves.len() as u64).as_str());
                text.append(" moves in, turn=");
                text.append(game.turn.name());
                text.append(", settled=");
                text.append(crate::text::truth_text(self.settled));
                text.append(", thinking=");
                text.append(crate::text::truth_text(self.thinking));
            },
        }
        text
    }

    /// Take everything that is to be done.
    pub fn take_effects(&mut self) -> (r: Vec<Effect>)
        ensures
            effects(r@) == old(self)@.outbox,
            final(self)@ == (DrillModel { outbox: Seq::empty(), ..old(self)@ }),
    {
        crate::effect::drain(&mut self.outbox)
    }
}

/// The state in a line.
pub open spec fn state_text(view: DrillModel) -> Seq<char> {
    match view.game {
        None => crate::text::decimal(view.positions.len())
            + " positions loaded, no game started (settled="@ + crate::text::truth(view.settled)
            + ")"@,
        Some(game) => crate::text::decimal(view.positions.len())
            + " positions loaded, playing as "@ + crate::chess::color_name(game.player) + ", "@
            + crate::text::decimal(game.moves.len()) + " moves in, turn="@
            + crate::chess::color_name(game.turn) + ", settled="@ + crate::text::truth(
            view.settled,
        ) + ", thinking="@ + crate::text::truth(view.thinking),
    }
}

/// The entries among some candidates that can be replayed, and the picker's lines for them.
fn list_entries(candidates: Vec<Option<DrillEntry>>) -> (r: (Vec<DrillEntry>, Vec<String>))
    requires
        datable(candidates@),
    ensures
        entries(r.0@) == kept(candidates@),
        texts(r.1@) == labels_for(kept(candidates@)),
{
    let ghost all = candidates@;
    let mut rest = candidates;
    let mut rows: Vec<DrillEntry> = Vec::new();
    let mut labels: Vec<String> = Vec::new();
    let mut turned: Vec<Option<DrillEntry>> = Vec::new();
    // Turned round first, so that each can be taken from the end in its own order.
    while rest.len() > 0
        invariant
            rest@ == all.take(rest@.len() as int),
            rest@.len() <= all.len(),
            turned@ == all.skip(rest@.len() as int).reverse(),
        decreases rest@.len(),
    {
        match rest.pop() {
            Some(candidate) => {
                turned.push(candidate);
                assert(rest@ =~= all.take(rest@.len() as int));
                assert(turned@ =~= all.skip(rest@.len() as int).reverse());
            },
            None => {},
        }
    }
    assert(turned@ =~= all.reverse());
    while turned.len() > 0
        invariant
            datable(all),
            turned@.len() <= all.len(),
            turned@ == all.skip(all.len() - turned@.len()).reverse(),
            entries(rows@) == kept(all.take(all.len() - turned@.len())),
            texts(labels@) == labels_for(entries(rows@)),
        decreases turned@.len(),
    {
        let ghost done = all.len() - turned@.len();
        let ghost rows_before = rows@;
        let ghost labels_before = labels@;
        assert(turned@.last() == all[done]);
        assert(all.take(done + 1).drop_last() =~= all.take(done));
        assert(all.take(done + 1).last() == all[done]);
        match turned.pop() {
            Some(candidate) => {
                assert(candidate == all[done]);
                match candidate {
                    Some(entry) => {
                        let mut label = glue5(
                            crate::dates::day_label(entry.played_at).as_str(),
                            " ",
                            entry.phase.as_str(),
                            " — cost ",
                            entry.cost.as_str(),
                        );
                        label.append("%");
                        labels.push(label);
                        rows.push(entry);
                        assert(entries(rows@) =~= entries(rows_before).push(entry@));
                        assert(texts(labels@) =~= texts(labels_before).push(entry_label(entry@)));
                        assert(texts(labels@) =~= labels_for(entries(rows@)));
                    },
                    None => {},
                }
            },
            None => {},
        }
        assert(turned@ =~= all.skip(all.len() - turned@.len()).reverse());
    }
    assert(all.take(all.len() as int) =~= all);
    (rows, labels)
}

} // verus!
