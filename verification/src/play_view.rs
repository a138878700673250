//! Playing a game against the engine.
//!
//! The point of playing here is not the game: it is what the game leaves behind. Every position
//! the player misjudged becomes a puzzle in the same deck as everything else.
//!
//! There is deliberately no evaluation bar and no takeback. Both would tell the player they had
//! gone wrong before they had a chance to notice, which is the one skill a game trains that a
//! puzzle cannot.

use crate::board::{fresh_board, BoardModel, BoardView};
use crate::chess::{square_caps, square_label, Color, GameState, Square};
use crate::effect::{effects, emit, Effect, EffectModel};
use crate::engine_worker::{Request, RequestModel};
use crate::rules::{check_square, checked_king, moved, moved_in, squares_moved, Moved};
use crate::sound::Cue;
use crate::text::{
    blanks_bound_words, blanks_from, copy_texts, decimal, glue2, glue3, glue4, glue5, joined,
    no_texts, number, one_text, opt_text, plural, push_number, push_plural, push_signed, put_text,
    put_texts, signed, texts, words_from,
};
use vstd::prelude::*;
use vstd::string::*;

verus! {

/// How a game went for the player.
#[derive(Debug, Clone, Copy, PartialEq, Eq, Structural)]
pub enum Verdict {
    Won,
    Lost,
    Drawn,
}

/// Why a game ended.
#[derive(Debug, Clone, Copy, PartialEq, Eq, Structural)]
pub enum EndReason {
    Checkmate,
    Resigned,
    Stalemate,
    InsufficientMaterial,
}

/// One line of the scoresheet.
pub struct MovePair {
    pub number: u64,
    pub white: String,
    pub black: Option<String>,
}

/// The opening that a game followed, and for how many half moves.
pub struct Opening {
    pub name: String,
    pub eco: String,
    pub plies: usize,
}

/// A game, and everything that is shown of it.
pub struct Standing {
    pub game: GameState,
    /// Whether the player may move.
    pub may_move: bool,
    /// Whether it is the player's turn.
    pub player_turn: bool,
    pub finished: bool,
    pub verdict: Option<Verdict>,
    /// Why the game ended, with the words for it.
    pub reason: Option<(EndReason, String)>,
    pub mated: Option<Square>,
    pub pairs: Vec<MovePair>,
    /// Material difference from the player's point of view.
    pub balance: i32,
    pub opening: Option<Opening>,
}

/// A legal move that joins two squares, and the game after it where it could be played.
pub struct FoundPlay {
    pub uci: String,
    pub played: Option<Standing>,
}

/// How long a move took: exactly, and in whole seconds as it is shown.
pub struct Thought {
    pub nanos: u64,
    pub seconds: String,
}

/// A move that the review flagged.
pub struct Flagged {
    pub ply: u32,
    /// How bad it was, where that has a name.
    pub severity: Option<String>,
    pub played: String,
    pub best: String,
    /// What it gave away, in whole percent.
    pub cost: String,
    /// The position that the player faced, where it can be set up.
    pub position: Option<String>,
}

/// A post-game exercise in progress: its position, how far along its line it is, and whether it
/// is done.
pub struct Exercise {
    pub fen: String,
    pub turn: Color,
    pub done: usize,
    pub total: usize,
    pub solved: bool,
}

/// The moment where a game turned.
pub struct Moment {
    pub exercise: Exercise,
    pub ply: u32,
    /// What was given away, in whole percent.
    pub lost: String,
}

/// Whether the errors came from moving quickly.
pub struct Pressure {
    /// The median time for a move, in whole seconds.
    pub median: String,
    /// What quick and considered moves gave away, in percent.
    pub quick: String,
    pub considered: String,
    /// How long errors and sound moves took, in whole seconds.
    pub times: Option<(String, String)>,
    pub significant: bool,
}

/// The quality of a game, stated without reference to who won.
pub struct Quality {
    /// Nothing of the game could be analysed.
    pub empty: bool,
    pub accuracy: String,
    pub per_move: String,
    pub blunders: u64,
    pub mistakes: u64,
    pub inaccuracies: u64,
    /// The weakest phase: its name, what it gave away per move, and over how many moves.
    pub weakest: Option<(String, String, u64)>,
    pub pressure: Option<Pressure>,
}

/// What the review of a game found.
pub struct Report {
    pub quality: Quality,
    pub drillable: Vec<Flagged>,
    /// Whether the game had a moment where it turned.
    pub has_moment: bool,
    /// That moment as an exercise, where it makes one.
    pub moment: Option<Moment>,
}

/// What came of a move offered to the exercise.
pub enum Offer {
    Illegal,
    Correct { reply: Option<String>, finished: bool },
    Wrong { revealed: Option<String>, reply: Option<String>, finished: bool },
}

/// The play tab.
pub struct PlayView {
    pub board: BoardView,
    /// The engine's name, where there is an engine.
    pub engine: Option<String>,
    pub standing: Option<Standing>,
    pub status: String,
    pub detail: String,
    /// What the review found, one label to a line.
    pub figures: Vec<String>,
    pub moves: String,
    pub start_sensitive: bool,
    pub resign_visible: bool,
    pub material: String,
    pub opening: String,
    /// Flagged moves after the game: a heading and a line for each.
    pub rows: Vec<(String, String)>,
    pub review_visible: bool,
    /// Think time for each of the player's own moves.
    pub times: Vec<Thought>,
    /// Whether the player's turn is being timed.
    pub clock: bool,
    /// The finished game's analysis, awaiting the player's decision.
    pub report: Option<Report>,
    /// Result headline, shown only once the game is actually over.
    pub banner: String,
    pub banner_visible: bool,
    /// Whether the headline is coloured as a good result.
    pub banner_good: Option<bool>,
    /// The position where the game turned, offered back as practice.
    pub drill: Option<Exercise>,
    pub drill_button: bool,
    pub add_button: bool,
    pub thinking: bool,
    /// Whether the board is marked for a wrong answer.
    pub wrong: bool,
    pub outbox: Vec<Effect>,
}

/// What a [`PlayView`] holds.
pub struct PlayModel {
    pub board: BoardModel,
    pub engine: Option<Seq<char>>,
    pub standing: Option<Standing>,
    pub status: Seq<char>,
    pub detail: Seq<char>,
    pub figures: Seq<Seq<char>>,
    pub moves: Seq<char>,
    pub start_sensitive: bool,
    pub resign_visible: bool,
    pub material: Seq<char>,
    pub opening: Seq<char>,
    pub rows: Seq<(Seq<char>, Seq<char>)>,
    pub review_visible: bool,
    pub times: Seq<Thought>,
    pub clock: bool,
    pub report: Option<Report>,
    pub banner: Seq<char>,
    pub banner_visible: bool,
    pub banner_good: Option<bool>,
    pub drill: Option<Exercise>,
    pub drill_button: bool,
    pub add_button: bool,
    pub thinking: bool,
    pub wrong: bool,
    pub outbox: Seq<EffectModel>,
}

/// What each of some pairs of strings holds.
pub open spec fn row_texts(rows: Seq<(String, String)>) -> Seq<(Seq<char>, Seq<char>)> {
    Seq::new(rows.len(), |i: int| (rows[i].0@, rows[i].1@))
}

impl View for PlayView {
    type V = PlayModel;

    open spec fn view(&self) -> PlayModel {
        PlayModel {
            board: self.board@,
            engine: opt_text(self.engine),
            standing: self.standing,
            status: self.status@,
            detail: self.detail@,
            figures: texts(self.figures@),
            moves: self.moves@,
            start_sensitive: self.start_sensitive,
            resign_visible: self.resign_visible,
            material: self.material@,
            opening: self.opening@,
            rows: row_texts(self.rows@),
            review_visible: self.review_visible,
            times: self.times@,
            clock: self.clock,
            report: self.report,
            banner: self.banner@,
            banner_visible: self.banner_visible,
            banner_good: self.banner_good,
            drill: self.drill,
            drill_button: self.drill_button,
            add_button: self.add_button,
            thinking: self.thinking,
            wrong: self.wrong,
            outbox: effects(self.outbox@),
        }
    }
}

/// A tab that has shown nothing yet.
pub open spec fn fresh_play(art: bool, engine: Option<Seq<char>>) -> PlayModel {
    PlayModel {
        board: BoardModel { hears_moves: true, hears_drags: true, ..fresh_board(art) },
        engine,
        standing: None,
        status: ""@,
        detail: ""@,
        figures: Seq::empty(),
        moves: ""@,
        start_sensitive: true,
        resign_visible: false,
        material: ""@,
        opening: ""@,
        rows: Seq::empty(),
        review_visible: false,
        times: Seq::empty(),
        clock: false,
        report: None,
        banner: ""@,
        banner_visible: false,
        banner_good: None,
        drill: None,
        drill_button: false,
        add_button: false,
        thinking: false,
        wrong: false,
        outbox: Seq::empty(),
    }
}

/// The tab before any game.
pub open spec fn idle_state(view: PlayModel, elo: u32) -> PlayModel {
    match view.engine {
        Some(name) => PlayModel {
            status: "Ready when you are."@,
            detail: "Opponent: "@ + name + " capped near "@ + decimal(elo as nat)
                + " Elo. No evaluation is shown while you play; your mistakes are collected and offered as puzzles afterwards."@,
            start_sensitive: true,
            ..view
        },
        None => PlayModel {
            status: "No engine found."@,
            detail: "Install one and restart:  yay -S stockfish\nOMACHESS looks for `stockfish` on your PATH."@,
            start_sensitive: false,
            ..view
        },
    }
}

/// How long the move of a line of the scoresheet took, where it was the player's own and it was
/// timed.
pub open spec fn stamp(times: Seq<Thought>, mine: bool, n: int) -> Seq<char> {
    if mine && n < times.len() {
        " ("@ + times[n].seconds@ + "s)"@
    } else {
        ""@
    }
}

/// A line of the scoresheet.
pub open spec fn pair_text(pair: MovePair, index: int, white: bool, times: Seq<Thought>) -> Seq<char> {
    let first = decimal(pair.number as nat) + ". "@ + pair.white@ + stamp(times, white, index);
    match pair.black {
        Some(black) => first + "  "@ + black@ + stamp(times, !white, index),
        None => first,
    }
}

/// The lines of the scoresheet.
pub open spec fn sheet_lines(standing: Standing, times: Seq<Thought>) -> Seq<Seq<char>> {
    Seq::new(
        standing.pairs@.len(),
        |i: int| pair_text(standing.pairs@[i], i, standing.game.player == Color::White, times),
    )
}

/// The scoresheet, with the time spent on each of the player's own moves.
#[verifier::opaque]
pub open spec fn sheet_text(standing: Standing, times: Seq<Thought>) -> Seq<char> {
    joined(sheet_lines(standing, times), "\n"@)
}

/// The line being played, and when it left the book.
pub open spec fn opening_text(standing: Option<Standing>) -> Seq<char> {
    match standing {
        Some(standing) => match standing.opening {
            Some(found) => {
                let named = found.name@ + " ("@ + found.eco@ + ")"@;
                if standing.game.moves@.len() > found.plies {
                    named + "\nout of book since move "@ + decimal((found.plies / 2 + 1) as nat)
                } else {
                    named
                }
            },
            None => ""@,
        },
        None => ""@,
    }
}

/// The material difference, which is factual and already visible on the board, unlike an
/// evaluation, which is not.
pub open spec fn material_text(standing: Option<Standing>) -> Seq<char> {
    match standing {
        Some(standing) => if standing.balance > 0 {
            "Material  +"@ + signed(standing.balance as int)
        } else if standing.balance < 0 {
            "Material  "@ + signed(standing.balance as int)
        } else {
            "Material  level"@
        },
        None => ""@,
    }
}

/// The headline of a finished game. The reason matters more than the result: "checkmated" tells
/// you something, "you lost" does not.
pub open spec fn headline(standing: Standing) -> Seq<char> {
    let outcome = match standing.verdict {
        Some(Verdict::Won) => "You won"@,
        Some(Verdict::Lost) => "You lost"@,
        Some(Verdict::Drawn) => "Draw"@,
        None => "Game over"@,
    };
    match standing.reason {
        Some((reason, label)) => label@ + " — "@ + outcome,
        None => outcome,
    }
}

/// What is said beside the board of a finished game.
pub open spec fn closing(standing: Standing) -> Seq<char> {
    match standing.reason {
        Some((EndReason::Checkmate, _)) => "The game is over."@,
        Some((EndReason::Resigned, _)) => "You resigned."@,
        Some((EndReason::Stalemate, _)) => "Neither side can win from here."@,
        Some((EndReason::InsufficientMaterial, _)) => "Neither side can win from here."@,
        None => "The game is over."@,
    }
}

/// The tab with the game over.
#[verifier::opaque]
pub open spec fn finished(view: PlayModel) -> PlayModel {
    let idle = PlayModel { thinking: false, ..view };
    match view.standing {
        None => idle,
        Some(standing) => {
            let over = PlayModel {
                resign_visible: false,
                clock: false,
                board: BoardModel { mate: standing.mated, check: None, ..view.board },
                banner: headline(standing),
                banner_good: Some(standing.verdict == Some(Verdict::Won)),
                banner_visible: true,
                status: closing(standing),
                outbox: view.outbox.push(EffectModel::Sound(Cue::End)).push(
                    EffectModel::StopClock,
                ),
                ..idle
            };
            if view.engine is None {
                over
            } else {
                PlayModel {
                    detail: "Reviewing the game at full strength…"@,
                    outbox: over.outbox.push(
                        EffectModel::Ask(
                            RequestModel::Review {
                                fen: standing.game.initial_fen@,
                                moves: texts(standing.game.moves@),
                                player: standing.game.player,
                            },
                        ),
                    ),
                    ..over
                }
            }
        },
    }
}

/// The tab with the next move asked for, whoever it is due from.
#[verifier::opaque]
pub open spec fn asked_for_move(view: PlayModel, elo: u32) -> PlayModel {
    match view.standing {
        None => view,
        Some(standing) => if standing.finished {
            finished(view)
        } else if standing.player_turn {
            PlayModel { status: "Your move."@, ..view }
        } else if view.engine is None {
            view
        } else {
            PlayModel {
                thinking: true,
                status: "Thinking…"@,
                outbox: view.outbox.push(
                    EffectModel::Ask(
                        RequestModel::Move {
                            fen: standing.game.initial_fen@,
                            moves: texts(standing.game.moves@),
                            elo,
                        },
                    ),
                ),
                ..view
            }
        },
    }
}

/// The tab with a new game on the board.
pub open spec fn set_up(view: PlayModel, opened: Standing, elo: u32) -> PlayModel {
    PlayModel {
        board: BoardModel {
            orientation: opened.game.player,
            pieces: crate::rules::placement_of(opened.game.fen@),
            selected: None,
            last_move: None,
            check: None,
            mate: None,
            ..view.board
        },
        moves: ""@,
        figures: Seq::empty(),
        report: None,
        add_button: false,
        banner_visible: false,
        drill: None,
        drill_button: false,
        opening: ""@,
        standing: Some(opened),
        times: Seq::empty(),
        clock: true,
        resign_visible: true,
        review_visible: false,
        rows: Seq::empty(),
        material: material_text(Some(opened)),
        status: "Your move."@,
        detail: "Opponent capped near "@ + decimal(elo as nat) + " Elo."@,
        outbox: view.outbox.push(EffectModel::StartClock),
        ..view
    }
}

/// The tab with a new game begun.
pub open spec fn game_started(view: PlayModel, opened: Standing, elo: u32) -> PlayModel {
    asked_for_move(set_up(view, opened, elo), elo)
}

/// Whether the post-game exercise is waiting for an answer.
pub open spec fn drilling(view: PlayModel) -> bool {
    view.drill matches Some(exercise) && !exercise.solved
}

/// Whether the player may move.
pub open spec fn player_may_move(view: PlayModel) -> bool {
    !view.thinking && (view.standing matches Some(standing) && standing.may_move)
}

/// Whether a square holds a piece of the side to move.
pub open spec fn own_piece(view: PlayModel, square: Square) -> bool {
    view.standing matches Some(standing) && crate::rules::holds(
        standing.game.fen@,
        square,
        standing.game.turn,
    )
}

/// The sound that a move deserves.
pub open spec fn cue_for(after: Seq<char>, capture: bool) -> Cue {
    if crate::rules::check_in(after) == Some(true) {
        Cue::Check
    } else if capture {
        Cue::Capture
    } else {
        Cue::Move
    }
}

/// The tab with the position after a move drawn.
#[verifier::opaque]
pub open spec fn redrawn(view: PlayModel, last: Option<(Square, Square)>) -> PlayModel {
    match view.standing {
        None => view,
        Some(standing) => PlayModel {
            board: BoardModel {
                pieces: crate::rules::placement_of(standing.game.fen@),
                last_move: last,
                check: checked_king(standing.game.fen@),
                ..view.board
            },
            moves: sheet_text(standing, view.times),
            material: material_text(Some(standing)),
            opening: opening_text(Some(standing)),
            ..view
        },
    }
}

/// The tab with the player's thinking time written down, where it was being taken.
pub open spec fn timed(view: PlayModel, thought: Thought) -> PlayModel {
    PlayModel {
        times: if view.clock {
            view.times.push(thought)
        } else {
            view.times
        },
        clock: false,
        ..view
    }
}

/// The tab with the player's move on the board.
#[verifier::opaque]
pub open spec fn player_moved(
    view: PlayModel,
    step: Moved,
    next: Standing,
    thought: Thought,
    elo: u32,
) -> PlayModel {
    let drawn = redrawn(
        timed(PlayModel { standing: Some(next), ..view }, thought),
        squares_moved(step),
    );
    asked_for_move(
        PlayModel {
            outbox: drawn.outbox.push(
                EffectModel::Sound(cue_for(next.game.fen@, step.capture)),
            ),
            ..drawn
        },
        elo,
    )
}

/// The tab after a move of the player's.
pub open spec fn after_player(
    view: PlayModel,
    found: FoundPlay,
    thought: Thought,
    elo: u32,
) -> PlayModel {
    match view.standing {
        None => view,
        Some(standing) => match (moved_in(standing.game.fen@, found.uci@), found.played) {
            (Some(step), Some(next)) => player_moved(view, step, next, thought, elo),
            _ => view,
        },
    }
}

/// The tab with the engine's move on the board.
#[verifier::opaque]
pub open spec fn engine_followed(view: PlayModel, step: Moved, next: Standing, elo: u32) -> PlayModel {
    let drawn = redrawn(PlayModel { standing: Some(next), ..view }, squares_moved(step));
    asked_for_move(
        PlayModel {
            outbox: drawn.outbox.push(
                EffectModel::Sound(cue_for(next.game.fen@, step.capture)),
            ).push(EffectModel::StartClock),
            clock: true,
            ..drawn
        },
        elo,
    )
}

/// The tab after a move of the engine's.
pub open spec fn after_engine(
    view: PlayModel,
    uci: Seq<char>,
    played: Option<Standing>,
    elo: u32,
) -> PlayModel {
    let idle = PlayModel { thinking: false, ..view };
    match view.standing {
        None => idle,
        Some(standing) => match (moved_in(standing.game.fen@, uci), played) {
            (Some(step), Some(next)) => engine_followed(idle, step, next, elo),
            _ => idle,
        },
    }
}

/// The tab with a square selected.
pub open spec fn selecting(view: PlayModel, square: Option<Square>) -> PlayModel {
    PlayModel { board: BoardModel { selected: square, ..view.board }, ..view }
}

/// The tab with a move offered to the exercise.
pub open spec fn offering(view: PlayModel, from: Square, to: Square) -> PlayModel {
    PlayModel { outbox: view.outbox.push(EffectModel::OfferDrill { from, to }), ..view }
}

/// The tab after a click during the exercise.
pub open spec fn exercise_clicked(view: PlayModel, square: Square) -> PlayModel {
    match view.board.selected {
        None => selecting(view, Some(square)),
        Some(from) => if from == square {
            selecting(view, None)
        } else {
            offering(selecting(view, None), from, square)
        },
    }
}

/// The tab after a click during a game. Clicking another piece of one's own changes the origin
/// rather than failing.
pub open spec fn game_clicked(
    view: PlayModel,
    square: Square,
    found: Option<FoundPlay>,
    thought: Thought,
    elo: u32,
) -> PlayModel {
    match view.board.selected {
        None => if own_piece(view, square) {
            selecting(view, Some(square))
        } else {
            view
        },
        Some(from) => if from == square {
            selecting(view, None)
        } else if own_piece(view, square) && found is None {
            selecting(view, Some(square))
        } else {
            match found {
                Some(found) => after_player(selecting(view, None), found, thought, elo),
                None => selecting(view, None),
            }
        },
    }
}

/// The tab after a click on a square. `found` is the legal move from the selected square to it.
pub open spec fn after_click(
    view: PlayModel,
    square: Square,
    found: Option<FoundPlay>,
    thought: Thought,
    elo: u32,
) -> PlayModel {
    if drilling(view) {
        exercise_clicked(view, square)
    } else if player_may_move(view) {
        game_clicked(view, square, found, thought, elo)
    } else {
        view
    }
}

/// The tab with something said to whoever is looking for it.
pub open spec fn traced(view: PlayModel, text: Seq<char>) -> PlayModel {
    PlayModel { outbox: view.outbox.push(EffectModel::Trace(text)), ..view }
}

/// The tab after a piece was dragged from one square to another.
pub open spec fn after_drag(
    view: PlayModel,
    from: Square,
    to: Square,
    found: Option<FoundPlay>,
    thought: Thought,
    elo: u32,
) -> PlayModel {
    if drilling(view) {
        offering(selecting(view, None), from, to)
    } else if !player_may_move(view) || !own_piece(view, from) {
        traced(
            view,
            "no move offered from "@ + square_label(from) + ": not your turn or not your piece"@,
        )
    } else {
        match found {
            Some(found) => after_player(selecting(view, None), found, thought, elo),
            None => selecting(
                traced(
                    view,
                    "no legal move from "@ + square_label(from) + " to "@ + square_label(to),
                ),
                None,
            ),
        }
    }
}

/// The tab after the player gave up. A resigned game is still reviewed; usually it is the one
/// most worth reviewing.
pub open spec fn resigned(view: PlayModel, after: Standing) -> PlayModel {
    if view.standing is None {
        view
    } else {
        finished(PlayModel { standing: Some(after), ..view })
    }
}

/// How well the game was played.
pub open spec fn accuracy_line(quality: Quality) -> Seq<char> {
    "Accuracy "@ + quality.accuracy@ + "%  ·  "@ + quality.per_move@ + "% given away per move"@
}

/// How often the player went wrong, and how badly.
pub open spec fn errors_line(quality: Quality) -> Seq<char> {
    decimal(quality.blunders as nat) + " blunder"@ + plural(quality.blunders as int) + ", "@
        + decimal(quality.mistakes as nat) + " mistake"@ + plural(quality.mistakes as int) + ", "@
        + decimal(quality.inaccuracies as nat) + " inaccurac"@ + if quality.inaccuracies == 1 {
        "y"@
    } else {
        "ies"@
    }
}

/// The weakest phase, which is the single most actionable line in the report.
pub open spec fn phase_line(phase: Seq<char>, loss: Seq<char>, moves: u64) -> Seq<char> {
    "Weakest phase: "@ + phase + " ("@ + loss + "% per move over "@ + decimal(moves as nat)
        + " moves)"@
}

/// What quick moves cost, beside considered ones.
pub open spec fn quick_line(pressure: Pressure) -> Seq<char> {
    "Quick moves (under "@ + pressure.median@ + "s) gave away "@ + pressure.quick@
        + "% each; considered moves "@ + pressure.considered@ + "%."@
}

/// How long errors took, beside sound moves.
pub open spec fn pace_line(error: Seq<char>, clean: Seq<char>) -> Seq<char> {
    "Your errors took "@ + error + "s to play; your sound moves "@ + clean + "s."@
}

/// What is said of the link between speed and error. Whether the errors came from moving quickly
/// is a different diagnosis from not knowing the position, and calls for a different fix.
pub open spec fn pressure_lines(pressure: Pressure) -> Seq<Seq<char>> {
    seq![quick_line(pressure)] + (match pressure.times {
        Some((error, clean)) => seq![pace_line(error@, clean@)],
        None => Seq::empty(),
    }) + (if pressure.significant {
        seq![
            "Your mistakes really are concentrated in the moves you rush (p<0.05)."@,
            "Slowing down would cost you less than studying more tactics."@,
        ]
    } else {
        seq!["No reliable link between speed and error in this game."@]
    })
}

/// What is said of the quality of a game, line by line.
#[verifier::opaque]
pub open spec fn quality_lines(quality: Quality) -> Seq<Seq<char>> {
    if quality.empty {
        seq!["Not enough of the game could be analysed."@]
    } else {
        seq![accuracy_line(quality), errors_line(quality)] + (match quality.weakest {
            Some((phase, loss, moves)) => seq![phase_line(phase@, loss@, moves)],
            None => Seq::empty(),
        }) + (match quality.pressure {
            Some(pressure) => pressure_lines(pressure),
            None => Seq::empty(),
        })
    }
}

/// The two lines of a flagged move.
pub open spec fn flagged_text(flagged: Flagged) -> (Seq<char>, Seq<char>) {
    (
        "Move "@ + decimal((flagged.ply / 2 + 1) as nat) + " — "@ + match flagged.severity {
            Some(label) => label@,
            None => "inaccuracy"@,
        },
        "played "@ + flagged.played@ + ", better was "@ + flagged.best@ + " ("@ + flagged.cost@
            + "% given away)"@,
    )
}

/// The lines of the flagged moves.
pub open spec fn flagged_rows(list: Seq<Flagged>) -> Seq<(Seq<char>, Seq<char>)> {
    Seq::new(list.len(), |i: int| flagged_text(list[i]))
}

/// A verdict as the store keeps it.
pub open spec fn result_name(verdict: Option<Verdict>) -> Seq<char> {
    match verdict {
        Some(Verdict::Won) => "won"@,
        Some(Verdict::Lost) => "lost"@,
        _ => "drawn"@,
    }
}

/// The tab with the game's quality written down, so that it can be tracked over time
/// independently of how many were won.
pub open spec fn recorded(view: PlayModel, quality: Quality, elo: u32) -> PlayModel {
    match view.standing {
        Some(standing) => if quality.empty {
            view
        } else {
            PlayModel {
                outbox: view.outbox.push(
                    EffectModel::RecordGame {
                        player_white: standing.game.player == Color::White,
                        opponent_elo: elo,
                        result: result_name(standing.verdict),
                    },
                ),
                ..view
            }
        },
        None => view,
    }
}

/// The tab after the review came back.
pub open spec fn after_review(view: PlayModel, report: Report, elo: u32) -> PlayModel {
    let kept = PlayModel {
        detail: ""@,
        figures: quality_lines(report.quality),
        report: Some(report),
        drill_button: report.has_moment,
        ..recorded(view, report.quality, elo)
    };
    if report.drillable@.len() > 0 {
        PlayModel {
            rows: flagged_rows(report.drillable@),
            review_visible: true,
            add_button: true,
            ..kept
        }
    } else {
        PlayModel { add_button: false, ..kept }
    }
}

/// A game that had a moment where it turned offers it back to practise, and no other game offers
/// anything, whether or not there are positions worth adding to training. Where the moment makes
/// an exercise, taking up the offer puts that exercise on the board.
pub proof fn a_mistake_is_offered_back(view: PlayModel, report: Report, elo: u32)
    ensures
        after_review(view, report, elo).drill_button == report.has_moment,
        report.moment matches Some(moment) ==> drill_started(after_review(view, report, elo)).drill
            == Some(moment.exercise),
{
}

/// The most words that one label of a reviewed game holds.
pub const LABEL_WORDS: usize = 12;

/// Whether a text holds no more words than a label may.
pub open spec fn fits_label(text: Seq<char>) -> bool {
    words_from(text, 0).len() <= LABEL_WORDS
}

/// Whether a text holds no white space.
pub open spec fn unbroken(text: Seq<char>) -> bool {
    blanks_from(text, 0) == 0
}

/// Whether no figure of a report holds white space.
pub open spec fn unbroken_quality(quality: Quality) -> bool {
    &&& unbroken(quality.accuracy@)
    &&& unbroken(quality.per_move@)
    &&& quality.weakest matches Some(weakest) ==> unbroken(weakest.0@) && unbroken(weakest.1@)
    &&& quality.pressure matches Some(pressure) ==> {
        &&& unbroken(pressure.median@)
        &&& unbroken(pressure.quick@)
        &&& unbroken(pressure.considered@)
        &&& pressure.times matches Some(times) ==> unbroken(times.0@) && unbroken(times.1@)
    }
}

/// Whether nothing said of a flagged move holds white space.
pub open spec fn unbroken_flagged(flagged: Flagged) -> bool {
    &&& flagged.severity matches Some(label) ==> unbroken(label@)
    &&& unbroken(flagged.played@)
    &&& unbroken(flagged.best@)
    &&& unbroken(flagged.cost@)
}

/// A text with few white space characters fits a label.
proof fn few_blanks_fit(text: Seq<char>)
    requires
        blanks_from(text, 0) < LABEL_WORDS,
    ensures
        fits_label(text),
{
    blanks_bound_words(text, 0);
}

/// The figures of a game fit a label each.
proof fn counts_fit(quality: Quality)
    requires
        unbroken_quality(quality),
    ensures
        fits_label(accuracy_line(quality)),
        fits_label(errors_line(quality)),
{
    broadcast use {crate::text::blanks_add, crate::text::a_number_is_one_word};

    reveal_with_fuel(blanks_from, 23);
    reveal_strlit("Accuracy ");
    reveal_strlit("%  ·  ");
    reveal_strlit("% given away per move");
    reveal_strlit(" blunder");
    reveal_strlit(" mistake");
    reveal_strlit(" inaccurac");
    reveal_strlit(", ");
    reveal_strlit("s");
    reveal_strlit("");
    reveal_strlit("y");
    reveal_strlit("ies");
    few_blanks_fit(accuracy_line(quality));
    few_blanks_fit(errors_line(quality));
}

/// The line on the weakest phase fits a label.
proof fn phase_fits(phase: Seq<char>, loss: Seq<char>, moves: u64)
    requires
        unbroken(phase),
        unbroken(loss),
    ensures
        fits_label(phase_line(phase, loss, moves)),
{
    broadcast use {crate::text::blanks_add, crate::text::a_number_is_one_word};

    reveal_with_fuel(blanks_from, 18);
    reveal_strlit("Weakest phase: ");
    reveal_strlit(" (");
    reveal_strlit("% per move over ");
    reveal_strlit(" moves)");
    few_blanks_fit(phase_line(phase, loss, moves));
}

/// What is said of quick moves fits a label.
proof fn quick_fits(pressure: Pressure)
    requires
        unbroken(pressure.median@),
        unbroken(pressure.quick@),
        unbroken(pressure.considered@),
    ensures
        fits_label(quick_line(pressure)),
{
    broadcast use crate::text::blanks_add;

    reveal_with_fuel(blanks_from, 27);
    reveal_strlit("Quick moves (under ");
    reveal_strlit("s) gave away ");
    reveal_strlit("% each; considered moves ");
    reveal_strlit("%.");
    few_blanks_fit(quick_line(pressure));
}

/// What is said of the player's pace fits a label.
proof fn pace_fits(error: Seq<char>, clean: Seq<char>)
    requires
        unbroken(error),
        unbroken(clean),
    ensures
        fits_label(pace_line(error, clean)),
{
    broadcast use crate::text::blanks_add;

    reveal_with_fuel(blanks_from, 30);
    reveal_strlit("Your errors took ");
    reveal_strlit("s to play; your sound moves ");
    reveal_strlit("s.");
    few_blanks_fit(pace_line(error, clean));
}

/// The sentences of a report fit a label each.
proof fn sentences_fit()
    ensures
        fits_label("Not enough of the game could be analysed."@),
        fits_label("Your mistakes really are concentrated in the moves you rush (p<0.05)."@),
        fits_label("Slowing down would cost you less than studying more tactics."@),
        fits_label("No reliable link between speed and error in this game."@),
        fits_label(""@),
{
    reveal_with_fuel(blanks_from, 72);
    reveal_strlit("Not enough of the game could be analysed.");
    reveal_strlit("Your mistakes really are concentrated in the moves you rush (p<0.05).");
    reveal_strlit("Slowing down would cost you less than studying more tactics.");
    reveal_strlit("No reliable link between speed and error in this game.");
    reveal_strlit("");
    few_blanks_fit("Not enough of the game could be analysed."@);
    few_blanks_fit("Your mistakes really are concentrated in the moves you rush (p<0.05)."@);
    few_blanks_fit("Slowing down would cost you less than studying more tactics."@);
    few_blanks_fit("No reliable link between speed and error in this game."@);
    few_blanks_fit(""@);
}

/// The two lines of a flagged move fit a label each.
proof fn flagged_fits(flagged: Flagged)
    requires
        unbroken_flagged(flagged),
    ensures
        fits_label(flagged_text(flagged).0),
        fits_label(flagged_text(flagged).1),
{
    broadcast use {crate::text::blanks_add, crate::text::a_number_is_one_word};

    reveal_with_fuel(blanks_from, 16);
    reveal_strlit("Move ");
    reveal_strlit(" — ");
    reveal_strlit("inaccuracy");
    reveal_strlit("played ");
    reveal_strlit(", better was ");
    reveal_strlit(" (");
    reveal_strlit("% given away)");
    few_blanks_fit(flagged_text(flagged).0);
    few_blanks_fit(flagged_text(flagged).1);
}

/// A reviewed game is reported in figures, not paragraphs: where the figures are single words, no
/// label that the review writes holds more than twelve, and where anything could be analysed the
/// first of them gives the accuracy.
pub proof fn a_report_states_figures_not_paragraphs(view: PlayModel, report: Report, elo: u32)
    requires
        unbroken_quality(report.quality),
        forall|i: int|
            0 <= i < report.drillable@.len() ==> unbroken_flagged(#[trigger] report.drillable@[i]),
    ensures
        fits_label(after_review(view, report, elo).detail),
        forall|i: int|
            0 <= i < after_review(view, report, elo).figures.len() ==> fits_label(
                #[trigger] after_review(view, report, elo).figures[i],
            ),
        report.drillable@.len() > 0 ==> forall|i: int|
            0 <= i < after_review(view, report, elo).rows.len() ==> fits_label(
                (#[trigger] after_review(view, report, elo).rows[i]).0,
            ) && fits_label(after_review(view, report, elo).rows[i].1),
        !report.quality.empty ==> crate::text::holds_text(
            after_review(view, report, elo).figures[0],
            "Accuracy"@,
        ),
{
    reveal(quality_lines);
    sentences_fit();
    let quality = report.quality;
    counts_fit(quality);
    if let Some((phase, loss, moves)) = quality.weakest {
        phase_fits(phase@, loss@, moves);
    }
    if let Some(pressure) = quality.pressure {
        quick_fits(pressure);
        if let Some((error, clean)) = pressure.times {
            pace_fits(error@, clean@);
        }
    }
    assert forall|i: int| 0 <= i < report.drillable@.len() implies fits_label(
        flagged_text(#[trigger] report.drillable@[i]).0,
    ) && fits_label(flagged_text(report.drillable@[i]).1) by {
        flagged_fits(report.drillable@[i]);
    }
    reveal_strlit("Accuracy");
    reveal_strlit("Accuracy ");
    let line = accuracy_line(quality);
    assert(line.subrange(0, 8) =~= "Accuracy"@);
    assert(crate::text::stands_at(line, "Accuracy"@, 0));
}

/// The tab after the engine went for good. A worker that has gone cannot come back, so this is
/// said plainly and no more games are offered.
pub open spec fn engine_lost(view: PlayModel) -> PlayModel {
    if view.start_sensitive {
        PlayModel {
            thinking: false,
            start_sensitive: false,
            resign_visible: false,
            detail: "The engine is no longer running. Restart OMACHESS to play again — puzzles and progress are unaffected."@,
            ..view
        }
    } else {
        view
    }
}

/// The moment where the game turned, where there is one to practise.
pub open spec fn moment_of(view: PlayModel) -> Option<Moment> {
    match view.report {
        Some(report) => report.moment,
        None => None,
    }
}

/// What is said of the moment where the game turned.
pub open spec fn moment_text(moment: Moment) -> Seq<char> {
    "Move "@ + decimal((moment.ply / 2 + 1) as nat)
        + " is where the game turned — you gave away "@ + moment.lost@
        + "% here. Find the move; the answer is played for you and then you find the next one, all the way through the line."@
}

/// The tab with an exercise on the board.
pub open spec fn exercise_entered(
    view: PlayModel,
    exercise: Exercise,
    detail: Seq<char>,
) -> PlayModel {
    PlayModel {
        board: BoardModel {
            orientation: exercise.turn,
            pieces: crate::rules::placement_of(exercise.fen@),
            mate: None,
            last_move: None,
            selected: None,
            ..view.board
        },
        banner_visible: false,
        status: "Find the move."@,
        detail,
        figures: Seq::empty(),
        drill_button: false,
        drill: Some(exercise),
        ..view
    }
}

/// The tab with the player back in the position where the game turned.
pub open spec fn drill_started(view: PlayModel) -> PlayModel {
    match moment_of(view) {
        Some(moment) => exercise_entered(view, moment.exercise, moment_text(moment)),
        None => view,
    }
}

/// The tab with the exercise's position drawn, and the answer that was played highlighted so that
/// it is not missed.
#[verifier::opaque]
pub open spec fn exercise_drawn(view: PlayModel, reply: Option<Seq<char>>) -> PlayModel {
    match view.drill {
        None => view,
        Some(exercise) => PlayModel {
            board: BoardModel {
                pieces: crate::rules::placement_of(exercise.fen@),
                selected: None,
                last_move: match reply {
                    Some(uci) => match crate::rules::squares_in_text(uci) {
                        Some((from, to)) => Some(
                            (
                                crate::chess::nth_square(from as int),
                                crate::chess::nth_square(to as int),
                            ),
                        ),
                        None => view.board.last_move,
                    },
                    None => view.board.last_move,
                },
                check: checked_king(exercise.fen@),
                ..view.board
            },
            ..view
        },
    }
}

/// Where the solver is in the line, and what was just shown.
#[verifier::opaque]
pub open spec fn progress_text(
    drill: Option<Exercise>,
    finished: bool,
    revealed: Option<Seq<char>>,
) -> Seq<char> {
    let shown = match revealed {
        Some(answer) => "The move was "@ + answer + ". "@,
        None => ""@,
    };
    if finished {
        shown + "That is what the position was worth. Add it to training to see it again."@
    } else {
        match drill {
            Some(exercise) => shown + ("Move "@ + decimal((exercise.done + 1) as nat) + " of "@
                + decimal(exercise.total as nat) + " in the line."@),
            None => shown,
        }
    }
}

/// How long a wrong answer stays marked, in milliseconds.
pub const WRONG_MS: u64 = 500;

/// The tab with the board marked for a wrong answer.
pub open spec fn marked_wrong(view: PlayModel, exercise: Exercise) -> PlayModel {
    PlayModel {
        drill: Some(exercise),
        wrong: true,
        status: "Not that one. Look again."@,
        outbox: view.outbox.push(EffectModel::Sound(Cue::Wrong)).push(
            EffectModel::ClearWrongAfter(WRONG_MS),
        ),
        ..view
    }
}

/// The tab with the exercise drawn where it now stands.
pub open spec fn line_continued(
    view: PlayModel,
    exercise: Exercise,
    cue: Cue,
    reply: Option<Seq<char>>,
    status: Seq<char>,
    detail: Seq<char>,
) -> PlayModel {
    PlayModel {
        status,
        detail,
        ..exercise_drawn(
            PlayModel {
                drill: Some(exercise),
                outbox: view.outbox.push(EffectModel::Sound(cue)),
                ..view
            },
            reply,
        )
    }
}

/// The tab one step further along the line: after the right move, or after it was shown.
pub open spec fn gone_on(
    view: PlayModel,
    exercise: Exercise,
    revealed: Option<Seq<char>>,
    reply: Option<Seq<char>>,
    finished: bool,
) -> PlayModel {
    line_continued(
        view,
        exercise,
        if revealed is Some {
            Cue::Move
        } else {
            Cue::Solved
        },
        reply,
        match (revealed is Some, finished) {
            (false, true) => "That is the whole line."@,
            (false, false) => "Right. Now find the next one."@,
            (true, true) => "That was the line."@,
            (true, false) => "Shown — keep going from here."@,
        },
        progress_text(Some(exercise), finished, revealed),
    )
}

/// The tab after a move was offered to the exercise, which is now `exercise`.
pub open spec fn after_offer(view: PlayModel, outcome: Offer, exercise: Exercise) -> PlayModel {
    if view.drill is None {
        view
    } else {
        match outcome {
            // A misdrag is not an answer, so it costs nothing.
            Offer::Illegal => PlayModel { drill: Some(exercise), ..view },
            Offer::Correct { reply, finished } => gone_on(
                view,
                exercise,
                None,
                opt_text(reply),
                finished,
            ),
            Offer::Wrong { revealed, reply, finished } => if revealed is None {
                marked_wrong(view, exercise)
            } else {
                gone_on(view, exercise, opt_text(revealed), opt_text(reply), finished)
            },
        }
    }
}

/// The tab with a reviewed position on the board, so that it can be looked at.
pub open spec fn position_shown(view: PlayModel, row: int) -> PlayModel {
    match view.report {
        Some(report) => if 0 <= row < report.drillable@.len() {
            match report.drillable@[row].position {
                Some(fen) => PlayModel {
                    board: BoardModel {
                        pieces: crate::rules::placement_of(fen@),
                        ..view.board
                    },
                    status: "Reviewing — this is the position you misjudged."@,
                    ..view
                },
                None => view,
            }
        } else {
            view
        },
        None => view,
    }
}

/// The rating that the player's own mistakes are stored under: the player's own, and no lower
/// than the floor, because nothing easier is ever stored.
pub open spec fn rated(personal: u32, floor: u32) -> u32 {
    if personal < floor {
        floor
    } else {
        personal
    }
}

/// The tab with the collected mistakes on their way into the player's own deck.
pub open spec fn adding(view: PlayModel, personal: u32, floor: u32) -> PlayModel {
    match view.report {
        Some(report) => if report.drillable@.len() > 0 {
            PlayModel {
                outbox: view.outbox.push(
                    EffectModel::AddToTraining { rating: rated(personal, floor) },
                ),
                ..view
            }
        } else {
            view
        },
        None => view,
    }
}

/// Nothing easier than the floor is ever stored: whatever the player's rating, the mistakes of a
/// game are handed over once, rated at the floor at least, exactly where there are any.
pub proof fn nothing_easier_than_the_floor_is_stored(view: PlayModel, personal: u32, floor: u32)
    ensures
        rated(personal, floor) >= floor,
        ({
            let after = adding(view, personal, floor);
            if view.report matches Some(report) && report.drillable@.len() > 0 {
                after.outbox.len() == view.outbox.len() + 1 && after.outbox.drop_last()
                    == view.outbox && (after.outbox.last() matches EffectModel::AddToTraining {
                    rating,
                } && rating >= floor)
            } else {
                after.outbox == view.outbox
            }
        }),
{
    assert(adding(view, personal, floor).outbox != view.outbox ==> adding(
        view,
        personal,
        floor,
    ).outbox.drop_last() =~= view.outbox);
}

/// Nothing that happens while the engine thinks, and no wrong square, moves a piece: a click
/// changes the game only where the player may move and a legal move joins the squares.
pub proof fn only_legal_moves_change_the_game(
    view: PlayModel,
    square: Square,
    found: Option<FoundPlay>,
    thought: Thought,
    elo: u32,
)
    ensures
        !player_may_move(view) || drilling(view) || found is None ==> after_click(
            view,
            square,
            found,
            thought,
            elo,
        ).standing == view.standing,
{
}

/// A finished game is never taken for one still in progress: its headline shows, nobody is
/// thinking, it cannot be resigned again, and no further move is asked for.
pub proof fn a_finished_game_looks_finished(view: PlayModel, elo: u32)
    requires
        view.standing matches Some(standing) && standing.finished,
    ensures
        ({
            let after = asked_for_move(view, elo);
            &&& after.banner_visible
            &&& !after.thinking
            &&& !after.resign_visible
            &&& !after.clock
            &&& after.board.check is None
            &&& after == finished(view)
        }),
{
    reveal(asked_for_move);
    reveal(finished);
}

/// A game that ends is always reviewed where there is an engine to review it, won, lost, drawn or
/// resigned; and it is reviewed once.
pub proof fn every_finished_game_is_reviewed(view: PlayModel)
    requires
        view.engine is Some,
        view.standing is Some,
    ensures
        ({
            let after = finished(view);
            &&& after.outbox.len() == view.outbox.len() + 3
            &&& after.outbox.last() matches EffectModel::Ask(RequestModel::Review { .. })
            &&& after.outbox.take(view.outbox.len() as int) =~= view.outbox
        }),
{
    reveal(finished);
}

/// The engine is asked for a move only while a game runs in which it is not the player's turn,
/// and the request carries the whole game.
pub proof fn the_engine_moves_only_on_its_turn(view: PlayModel, elo: u32)
    ensures
        asked_for_move(view, elo).thinking && !view.thinking ==> {
            &&& view.standing matches Some(standing)
            &&& !standing.finished
            &&& !standing.player_turn
            &&& asked_for_move(view, elo).outbox == view.outbox.push(
                EffectModel::Ask(
                    RequestModel::Move {
                        fen: standing.game.initial_fen@,
                        moves: texts(standing.game.moves@),
                        elo,
                    },
                ),
            )
        },
{
    reveal(finished);
    reveal(asked_for_move);
}

/// A move that is no answer costs nothing, and an answer never touches the finished game.
pub proof fn an_exercise_leaves_the_game(view: PlayModel, outcome: Offer, exercise: Exercise)
    ensures
        after_offer(view, outcome, exercise).standing == view.standing,
        outcome is Illegal && view.drill is Some ==> after_offer(view, outcome, exercise) == (
        PlayModel { drill: Some(exercise), ..view }),
{
    reveal(exercise_drawn);
}

/// Where the game stands is what the tab holds and shows: after a move of either side the game is
/// the one that the move has led to, and the board shows its position, every square of it, with the
/// move marked and the king in check; the material and the opening are that game's. A move that is
/// not legal, or cannot be played, leaves all of it as it was.
pub proof fn the_board_shows_the_game(
    view: PlayModel,
    found: FoundPlay,
    thought: Thought,
    uci: Seq<char>,
    next: Standing,
    elo: u32,
)
    requires
        view.standing is Some,
        found.played == Some(next),
        !next.finished,
    ensures
        crate::rules::legal_in(view.standing->0.game.fen@, found.uci@) ==> shows_game(
            view,
            after_player(view, found, thought, elo),
            found.uci@,
            next,
        ),
        crate::rules::legal_in(view.standing->0.game.fen@, uci) ==> shows_game(
            view,
            after_engine(view, uci, Some(next), elo),
            uci,
            next,
        ),
        !crate::rules::legal_in(view.standing->0.game.fen@, found.uci@) ==> after_player(
            view,
            found,
            thought,
            elo,
        ) == view,
        !crate::rules::legal_in(view.standing->0.game.fen@, uci) ==> after_engine(
            view,
            uci,
            Some(next),
            elo,
        ) == (PlayModel { thinking: false, ..view }),
        after_engine(view, uci, None, elo) == (PlayModel { thinking: false, ..view }),
{
    reveal(player_moved);
    reveal(engine_followed);
    reveal(redrawn);
    reveal(asked_for_move);
    reveal_strlit("Material  ");
    reveal_strlit("Material  -");
    if next.balance < 0 {
        assert("Material  "@ + signed(next.balance as int) =~= "Material  -"@ + decimal(
            (-next.balance) as nat,
        ));
    }
}

/// Whether a tab shows the game that a move has led to from where another tab stood.
pub open spec fn shows_game(
    before: PlayModel,
    after: PlayModel,
    uci: Seq<char>,
    next: Standing,
) -> bool {
    &&& after.standing == Some(next)
    &&& after.board.pieces == crate::rules::placement_of(next.game.fen@)
    &&& after.board.check == checked_king(next.game.fen@)
    &&& after.board.orientation == before.board.orientation
    &&& crate::rules::squares_in_text(uci) matches Some((from, _)) ==> after.board.last_move == Some(
        (
            crate::chess::nth_square(from as int),
            crate::chess::nth_square(
                crate::rules::target_in(before.standing->0.game.fen@, uci) as int,
            ),
        ),
    )
    &&& next.balance == 0 ==> after.material == "Material  level"@
    &&& next.balance > 0 ==> after.material == "Material  +"@ + decimal(next.balance as nat)
    &&& next.balance < 0 ==> after.material == "Material  -"@ + decimal((-next.balance) as nat)
    &&& next.opening is None ==> after.opening == ""@
    &&& next.opening matches Some(found) ==> {
        let named = found.name@ + " ("@ + found.eco@ + ")"@;
        &&& next.game.moves@.len() <= found.plies ==> after.opening == named
        &&& next.game.moves@.len() > found.plies ==> after.opening == named
            + "\nout of book since move "@ + decimal((found.plies / 2 + 1) as nat)
    }
    &&& after.moves == sheet_text(next, after.times)
}

/// A new game begins from its own position, seen from the player's side, with nothing left over from
/// the one before: no moves, no times, no report, no exercise, nothing marked. The clock is started,
/// and the engine is asked for the first move exactly where that is not the player's.
pub proof fn a_new_game_begins_afresh(view: PlayModel, opened: Standing, elo: u32)
    requires
        !opened.finished,
        !view.thinking,
    ensures
        ({
            let after = game_started(view, opened, elo);
            &&& after.standing == Some(opened)
            &&& after.board.pieces == crate::rules::placement_of(opened.game.fen@)
            &&& after.board.orientation == opened.game.player
            &&& after.board.selected is None
            &&& after.board.last_move is None
            &&& after.board.check is None
            &&& after.board.mate is None
            &&& after.moves == ""@
            &&& after.times.len() == 0
            &&& after.report is None
            &&& after.figures.len() == 0
            &&& after.rows.len() == 0
            &&& after.drill is None
            &&& !after.drill_button
            &&& !after.add_button
            &&& !after.banner_visible
            &&& !after.review_visible
            &&& after.resign_visible
            &&& after.clock
            &&& after.detail == "Opponent capped near "@ + decimal(elo as nat) + " Elo."@
            &&& after.outbox[view.outbox.len() as int] == EffectModel::StartClock
            &&& after.thinking <==> !opened.player_turn && view.engine is Some
            &&& after.thinking ==> after.outbox.last() == EffectModel::Ask(
                RequestModel::Move {
                    fen: opened.game.initial_fen@,
                    moves: texts(opened.game.moves@),
                    elo,
                },
            )
            &&& !after.thinking ==> after.outbox == view.outbox.push(EffectModel::StartClock)
                && after.status == "Your move."@
        }),
{
    reveal(asked_for_move);
}

/// After a move of the player's it is the engine that is asked, exactly where the game runs on and
/// is not the player's to move: once, for the whole game that the move has led to, at the strength
/// that it is capped at. The player's time is written down where it was being taken, and the move
/// sounds as a check before a capture and as a capture before a plain move.
pub proof fn a_move_is_answered_at_the_capped_strength(
    view: PlayModel,
    found: FoundPlay,
    thought: Thought,
    next: Standing,
    elo: u32,
)
    requires
        view.standing matches Some(standing) && crate::rules::legal_in(
            standing.game.fen@,
            found.uci@,
        ),
        found.played == Some(next),
        !next.finished,
        !view.thinking,
    ensures
        ({
            let after = after_player(view, found, thought, elo);
            let heard = view.outbox.push(
                EffectModel::Sound(
                    if crate::rules::check_in(next.game.fen@) == Some(true) {
                        Cue::Check
                    } else if crate::rules::captures_in(view.standing->0.game.fen@, found.uci@) {
                        Cue::Capture
                    } else {
                        Cue::Move
                    },
                ),
            );
            &&& !after.clock
            &&& view.clock ==> after.times == view.times.push(thought)
            &&& !view.clock ==> after.times == view.times
            &&& after.thinking <==> !next.player_turn && view.engine is Some
            &&& after.thinking ==> after.outbox == heard.push(
                EffectModel::Ask(
                    RequestModel::Move {
                        fen: next.game.initial_fen@,
                        moves: texts(next.game.moves@),
                        elo,
                    },
                ),
            )
            &&& !after.thinking ==> after.outbox == heard
        }),
{
    reveal(player_moved);
    reveal(redrawn);
    reveal(asked_for_move);
}

/// The engine's move gives the turn back: the player's clock is started, nobody thinks, and no time
/// of the player's is written down for it.
pub proof fn the_engines_move_gives_the_turn_back(
    view: PlayModel,
    uci: Seq<char>,
    next: Standing,
    elo: u32,
)
    requires
        view.standing matches Some(standing) && crate::rules::legal_in(standing.game.fen@, uci),
        !next.finished,
        next.player_turn,
    ensures
        ({
            let after = after_engine(view, uci, Some(next), elo);
            &&& !after.thinking
            &&& after.clock
            &&& after.times == view.times
            &&& after.status == "Your move."@
            &&& after.outbox == view.outbox.push(
                EffectModel::Sound(
                    if crate::rules::check_in(next.game.fen@) == Some(true) {
                        Cue::Check
                    } else if crate::rules::captures_in(view.standing->0.game.fen@, uci) {
                        Cue::Capture
                    } else {
                        Cue::Move
                    },
                ),
            ).push(EffectModel::StartClock)
        }),
{
    reveal(engine_followed);
    reveal(redrawn);
    reveal(asked_for_move);
}

/// Whether a text ends with another.
pub open spec fn ends(text: Seq<char>, end: Seq<char>) -> bool {
    end.len() <= text.len() && text.subrange(text.len() - end.len(), text.len() as int) == end
}

/// Two joined texts end with the second.
proof fn ends_with_its_end(start: Seq<char>, end: Seq<char>)
    ensures
        ends(start + end, end),
{
    let whole = start + end;
    assert(whole.subrange(whole.len() - end.len(), whole.len() as int) =~= end);
}

/// The headline of a finished game is that of the side that won: it says that the player won exactly
/// where the player did, and is coloured as a good result exactly there. Beside the board a game that
/// was given up is told to have been, and no other is. The mated king is marked.
pub proof fn the_headline_fits_the_result(view: PlayModel, elo: u32)
    requires
        view.standing matches Some(standing) && standing.finished,
    ensures
        ({
            let after = asked_for_move(view, elo);
            let standing = view.standing->0;
            &&& after.banner_good == Some(standing.verdict == Some(Verdict::Won))
            &&& standing.verdict == Some(Verdict::Won) ==> ends(after.banner, "You won"@)
            &&& standing.verdict == Some(Verdict::Lost) ==> ends(after.banner, "You lost"@)
            &&& standing.verdict == Some(Verdict::Drawn) ==> ends(after.banner, "Draw"@)
            &&& standing.verdict is None ==> ends(after.banner, "Game over"@)
            &&& standing.reason matches Some((_, label)) ==> crate::text::begins(
                after.banner,
                label@,
            )
            &&& standing.reason is None ==> {
                &&& after.banner == "You won"@ <==> standing.verdict == Some(Verdict::Won)
                &&& after.banner == "You lost"@ <==> standing.verdict == Some(Verdict::Lost)
                &&& after.banner == "Draw"@ <==> standing.verdict == Some(Verdict::Drawn)
            }
            &&& after.status == "You resigned."@ <==> (standing.reason matches Some((reason, _))
                && reason == EndReason::Resigned)
            &&& after.status == "Neither side can win from here."@ <==> (
            standing.reason matches Some((reason, _)) && (reason == EndReason::Stalemate || reason
                == EndReason::InsufficientMaterial))
            &&& after.board.mate == standing.mated
            &&& after.board.pieces == view.board.pieces
            &&& after.outbox[view.outbox.len() as int] == EffectModel::Sound(Cue::End)
            &&& after.outbox[view.outbox.len() as int + 1] == EffectModel::StopClock
            &&& view.engine is Some ==> after.outbox.last() == EffectModel::Ask(
                RequestModel::Review {
                    fen: standing.game.initial_fen@,
                    moves: texts(standing.game.moves@),
                    player: standing.game.player,
                },
            )
            &&& view.engine is None ==> after.outbox.len() == view.outbox.len() + 2
        }),
{
    reveal(asked_for_move);
    reveal(finished);
    reveal_strlit("You won");
    reveal_strlit("You lost");
    reveal_strlit("Draw");
    reveal_strlit("Game over");
    reveal_strlit("You resigned.");
    reveal_strlit("Neither side can win from here.");
    reveal_strlit("The game is over.");
    assert("You won"@.len() == 7 && "You lost"@.len() == 8 && "Draw"@.len() == 4 && "Game over"@.len()
        == 9);
    assert("You resigned."@.len() == 13 && "Neither side can win from here."@.len() == 31
        && "The game is over."@.len() == 17);
    let standing = view.standing->0;
    let outcome = match standing.verdict {
        Some(Verdict::Won) => "You won"@,
        Some(Verdict::Lost) => "You lost"@,
        Some(Verdict::Drawn) => "Draw"@,
        None => "Game over"@,
    };
    match standing.reason {
        Some((reason, label)) => {
            ends_with_its_end(label@ + " — "@, outcome);
            crate::text::begins_with_its_start(label@, " — "@ + outcome);
            assert(headline(standing) =~= label@ + (" — "@ + outcome));
        },
        None => {
            ends_with_its_end(Seq::empty(), outcome);
            assert(Seq::<char>::empty() + outcome =~= outcome);
        },
    }
}

/// A game that was reviewed is written down as it went: as won, lost or drawn by its verdict, under
/// the strength that the opponent was capped at and the side that the player had. It is written down
/// once, exactly where anything of it could be analysed. Every flagged move is listed, with what was
/// played, what was better and what it cost.
pub proof fn a_reviewed_game_is_written_down_as_it_went(view: PlayModel, report: Report, elo: u32)
    requires
        view.standing is Some,
    ensures
        ({
            let after = after_review(view, report, elo);
            let standing = view.standing->0;
            &&& report.quality.empty ==> after.outbox == view.outbox
            &&& !report.quality.empty ==> {
                &&& after.outbox.len() == view.outbox.len() + 1
                &&& after.outbox.drop_last() == view.outbox
                &&& after.outbox.last() matches EffectModel::RecordGame {
                    player_white,
                    opponent_elo,
                    result,
                } && opponent_elo == elo && player_white == (standing.game.player == Color::White)
                    && {
                    &&& result == "won"@ <==> standing.verdict == Some(Verdict::Won)
                    &&& result == "lost"@ <==> standing.verdict == Some(Verdict::Lost)
                    &&& result == "drawn"@ <==> standing.verdict != Some(Verdict::Won)
                        && standing.verdict != Some(Verdict::Lost)
                }
            }
            &&& after.report == Some(report)
            &&& after.add_button <==> report.drillable@.len() > 0
            &&& report.drillable@.len() > 0 ==> {
                &&& after.review_visible
                &&& after.rows.len() == report.drillable@.len()
                &&& forall|i: int|
                    0 <= i < report.drillable@.len() ==> {
                        let flagged = #[trigger] report.drillable@[i];
                        after.rows[i].1 == "played "@ + flagged.played@ + ", better was "@
                            + flagged.best@ + " ("@ + flagged.cost@ + "% given away)"@
                            && after.rows[i].0 == "Move "@ + decimal((flagged.ply / 2 + 1) as nat)
                            + " — "@ + (match flagged.severity {
                            Some(label) => label@,
                            None => "inaccuracy"@,
                        })
                    }
            }
            &&& after.standing == view.standing
            &&& after.board == view.board
        }),
{
    reveal_strlit("won");
    reveal_strlit("lost");
    reveal_strlit("drawn");
    assert("won"@.len() == 3 && "lost"@.len() == 4 && "drawn"@.len() == 5);
    let after = after_review(view, report, elo);
    assert(!report.quality.empty ==> after.outbox.drop_last() =~= view.outbox);
    assert forall|i: int| 0 <= i < report.drillable@.len() implies after.rows[i] == flagged_text(
        #[trigger] report.drillable@[i],
    ) || report.drillable@.len() == 0 by {}
}

/// What a report counts is what was counted: so many blunders, mistakes and inaccuracies, the
/// accuracy and the loss per move, the weakest phase with its own loss, and the claim that the errors
/// came from rushing exactly where the link is significant.
pub proof fn a_report_counts_what_was_counted(quality: Quality)
    requires
        !quality.empty,
    ensures
        ({
            let lines = quality_lines(quality);
            &&& lines.len() >= 2
            &&& lines[0] == "Accuracy "@ + quality.accuracy@ + "%  ·  "@ + quality.per_move@
                + "% given away per move"@
            &&& lines[1] == decimal(quality.blunders as nat) + " blunder"@ + (if quality.blunders
                == 1 {
                ""@
            } else {
                "s"@
            }) + ", "@ + decimal(quality.mistakes as nat) + " mistake"@ + (if quality.mistakes
                == 1 {
                ""@
            } else {
                "s"@
            }) + ", "@ + decimal(quality.inaccuracies as nat) + " inaccurac"@ + (
            if quality.inaccuracies == 1 {
                "y"@
            } else {
                "ies"@
            })
            &&& quality.weakest matches Some((phase, loss, moves)) ==> lines.len() >= 3 && lines[2]
                == "Weakest phase: "@ + phase@ + " ("@ + loss@ + "% per move over "@ + decimal(
                moves as nat,
            ) + " moves)"@
            &&& quality.pressure is None && quality.weakest is None ==> lines.len() == 2
            &&& quality.pressure matches Some(pressure) ==> {
                &&& pressure.significant ==> lines.last()
                    == "Slowing down would cost you less than studying more tactics."@
                    && lines[lines.len() - 2]
                    == "Your mistakes really are concentrated in the moves you rush (p<0.05)."@
                &&& !pressure.significant ==> lines.last()
                    == "No reliable link between speed and error in this game."@
            }
        }),
        quality_lines(Quality { empty: true, ..quality }) == seq![
            "Not enough of the game could be analysed."@,
        ],
{
    reveal(quality_lines);
}

/// A flagged move is looked at in its own position: the board shows the position of the very row
/// that was asked for, where it has one, and nothing changes where there is no such row.
pub proof fn a_flagged_move_is_shown_in_its_position(view: PlayModel, row: int)
    ensures
        view.report matches Some(report) ==> {
            &&& 0 <= row < report.drillable@.len() ==> (report.drillable@[row].position matches Some(
                fen,
            ) ==> position_shown(view, row).board.pieces == crate::rules::placement_of(fen@))
            &&& !(0 <= row < report.drillable@.len()) ==> position_shown(view, row) == view
        },
        view.report is None ==> position_shown(view, row) == view,
        position_shown(view, row).standing == view.standing,
{
}

/// The moment where the game turned is practised in its own position, seen from the side to move,
/// with how much was given away there; the finished game stays as it was.
pub proof fn the_moment_is_practised_in_its_position(view: PlayModel)
    ensures
        view.report matches Some(report) ==> (report.moment matches Some(moment) ==> {
            let after = drill_started(view);
            &&& after.drill == Some(moment.exercise)
            &&& after.board.pieces == crate::rules::placement_of(moment.exercise.fen@)
            &&& after.board.orientation == moment.exercise.turn
            &&& after.board.last_move is None
            &&& after.board.selected is None
            &&& !after.drill_button
            &&& !after.banner_visible
            &&& after.status == "Find the move."@
            &&& after.standing == view.standing
            &&& after.detail == "Move "@ + decimal((moment.ply / 2 + 1) as nat)
                + " is where the game turned — you gave away "@ + moment.lost@
                + "% here. Find the move; the answer is played for you and then you find the next one, all the way through the line."@
        }),
        view.report is None ==> drill_started(view) == view,
        (view.report matches Some(report) && report.moment is None) ==> drill_started(view) == view,
{
}

/// What is said of an answer in the exercise fits it: a right one is said to be right, one that was
/// shown is said to have been shown, and a wrong one is marked and leaves the position. After a right
/// answer, or one that was shown, the board shows the position that the exercise is now at, with the
/// reply marked.
pub proof fn an_answer_in_the_exercise_is_told_as_it_was(
    view: PlayModel,
    outcome: Offer,
    exercise: Exercise,
)
    requires
        view.drill is Some,
    ensures
        ({
            let after = after_offer(view, outcome, exercise);
            &&& after.drill == Some(exercise)
            &&& outcome matches Offer::Correct { reply, finished } ==> {
                &&& finished ==> after.status == "That is the whole line."@
                &&& !finished ==> after.status == "Right. Now find the next one."@
                &&& after.outbox == view.outbox.push(EffectModel::Sound(Cue::Solved))
                &&& after.board.pieces == crate::rules::placement_of(exercise.fen@)
                &&& after.board.check == checked_king(exercise.fen@)
                &&& after.wrong == view.wrong
            }
            &&& outcome matches Offer::Wrong { revealed, reply, finished } ==> {
                &&& revealed is None ==> {
                    &&& after.status == "Not that one. Look again."@
                    &&& after.wrong
                    &&& after.board == view.board
                    &&& after.outbox == view.outbox.push(EffectModel::Sound(Cue::Wrong)).push(
                        EffectModel::ClearWrongAfter(500),
                    )
                }
                &&& revealed is Some ==> {
                    &&& finished ==> after.status == "That was the line."@
                    &&& !finished ==> after.status == "Shown — keep going from here."@
                    &&& after.outbox == view.outbox.push(EffectModel::Sound(Cue::Move))
                    &&& after.board.pieces == crate::rules::placement_of(exercise.fen@)
                }
            }
        }),
{
    reveal(exercise_drawn);
}

/// A click during a game picks up a piece of the side to move and no other, and a second click on it
/// puts it down. Neither touches the game.
pub proof fn a_click_picks_up_a_piece_of_ones_own(
    view: PlayModel,
    square: Square,
    found: Option<FoundPlay>,
    thought: Thought,
    elo: u32,
)
    requires
        view.drill is None,
        !view.thinking,
        view.standing matches Some(standing) && standing.may_move,
        view.board.selected is None || view.board.selected == Some(square),
    ensures
        ({
            let after = after_click(view, square, found, thought, elo);
            let standing = view.standing->0;
            let own = crate::rules::piece_on(standing.game.fen@, square) matches Some(piece)
                && piece.color == standing.game.turn;
            &&& after.board.selected == if view.board.selected is None && own {
                Some(square)
            } else {
                None
            }
            &&& after.standing == view.standing
            &&& after.board.pieces == view.board.pieces
            &&& after.outbox == view.outbox
            &&& after.thinking == view.thinking
        }),
{
}

/// With a piece picked up, a click on another square plays the legal move that joins the two, that
/// very move and no other. Where no move does, a click on another piece of one's own changes to that
/// and any other puts the piece down, and the game stays as it was.
pub proof fn a_second_click_moves(
    view: PlayModel,
    from: Square,
    square: Square,
    found: Option<FoundPlay>,
    thought: Thought,
    elo: u32,
)
    requires
        view.drill is None,
        !view.thinking,
        view.standing matches Some(standing) && standing.may_move,
        view.board.selected == Some(from),
        from != square,
    ensures
        ({
            let after = after_click(view, square, found, thought, elo);
            let standing = view.standing->0;
            let own = crate::rules::piece_on(standing.game.fen@, square) matches Some(piece)
                && piece.color == standing.game.turn;
            &&& found matches Some(play) ==> after == after_player(
                PlayModel { board: BoardModel { selected: None, ..view.board }, ..view },
                play,
                thought,
                elo,
            )
            &&& found is None ==> {
                &&& after.board.selected == if own {
                    Some(square)
                } else {
                    None
                }
                &&& after.standing == view.standing
                &&& after.board.pieces == view.board.pieces
                &&& after.outbox == view.outbox
            }
        }),
{
    let down = selecting(view, None);
    assert(down == (PlayModel { board: BoardModel { selected: None, ..view.board }, ..view }));
    assert(after_click(view, square, found, thought, elo) == game_clicked(
        view,
        square,
        found,
        thought,
        elo,
    ));
}

/// A drag during a game plays the move that joins its squares exactly where it begins on a piece of
/// the side to move on the player's turn; anything else leaves the game as it was.
pub proof fn a_drag_moves(
    view: PlayModel,
    from: Square,
    to: Square,
    found: Option<FoundPlay>,
    thought: Thought,
    elo: u32,
)
    requires
        view.drill is None,
    ensures
        ({
            let after = after_drag(view, from, to, found, thought, elo);
            let own = !view.thinking && (view.standing matches Some(standing) && standing.may_move
                && (crate::rules::piece_on(standing.game.fen@, from) matches Some(piece)
                && piece.color == standing.game.turn));
            &&& !own || found is None ==> after.standing == view.standing && after.board.pieces
                == view.board.pieces && after.thinking == view.thinking
            &&& own ==> (found matches Some(play) ==> after == after_player(
                PlayModel { board: BoardModel { selected: None, ..view.board }, ..view },
                play,
                thought,
                elo,
            ))
        }),
{
}

/// Giving up ends the game that is on the board, with the result it then has: the headline shows, the
/// game cannot be given up again, and it is reviewed where there is an engine. Without a game there is
/// nothing to give up.
pub proof fn giving_up_ends_the_game(view: PlayModel, after: Standing)
    ensures
        view.standing is None ==> resigned(view, after) == view,
        view.standing is Some ==> {
            let over = resigned(view, after);
            &&& over.standing == Some(after)
            &&& !over.resign_visible
            &&& over.banner_visible
            &&& !over.thinking
            &&& !over.clock
            &&& over.banner_good == Some(after.verdict == Some(Verdict::Won))
            &&& view.engine is Some ==> over.outbox.last() == EffectModel::Ask(
                RequestModel::Review {
                    fen: after.game.initial_fen@,
                    moves: texts(after.game.moves@),
                    player: after.game.player,
                },
            )
        },
{
    reveal(finished);
}

/// While the moment is being practised a click picks a square, a second one on it drops it, and one on
/// another square offers the move between the two to the exercise, as a drag does; the game that was
/// played is not touched.
pub proof fn practising_offers_moves_to_the_exercise(
    view: PlayModel,
    square: Square,
    from: Square,
    found: Option<FoundPlay>,
    thought: Thought,
    elo: u32,
)
    requires
        view.drill matches Some(exercise) && !exercise.solved,
    ensures
        ({
            let after = after_click(view, square, found, thought, elo);
            &&& after.standing == view.standing
            &&& view.board.selected is None ==> after.board.selected == Some(square) && after.outbox
                == view.outbox
            &&& view.board.selected == Some(square) ==> after.board.selected is None && after.outbox
                == view.outbox
            &&& view.board.selected matches Some(picked) ==> picked != square ==> after.outbox
                == view.outbox.push(EffectModel::OfferDrill { from: picked, to: square })
                && after.board.selected is None
        }),
        ({
            let after = after_drag(view, from, square, found, thought, elo);
            &&& after.standing == view.standing
            &&& after.outbox == view.outbox.push(EffectModel::OfferDrill { from, to: square })
        }),
{
}

/// An engine that has gone is said to have, once, and no more games are offered; without an engine at
/// the start none is offered either, and with one it is named with the strength it would be capped at.
pub proof fn no_game_is_offered_without_an_engine(view: PlayModel, elo: u32)
    ensures
        view.start_sensitive ==> {
            let after = engine_lost(view);
            &&& !after.start_sensitive
            &&& !after.resign_visible
            &&& !after.thinking
            &&& after.standing == view.standing
        },
        !view.start_sensitive ==> engine_lost(view) == view,
        engine_lost(engine_lost(view)) == engine_lost(view),
        idle_state(view, elo).start_sensitive <==> view.engine is Some,
        view.engine is None ==> idle_state(view, elo).status == "No engine found."@,
        view.engine matches Some(name) ==> idle_state(view, elo).status == "Ready when you are."@
            && idle_state(view, elo).detail == "Opponent: "@ + name + " capped near "@ + decimal(
            elo as nat,
        )
            + " Elo. No evaluation is shown while you play; your mistakes are collected and offered as puzzles afterwards."@,
{
}

/// How far along the line the solver is, is said behind the answer where one was shown: the next move's
/// number out of how many, until the line is done.
pub proof fn the_place_in_the_line_is_told(exercise: Exercise, answer: Seq<char>)
    requires
        exercise.done < usize::MAX,
    ensures
        progress_text(Some(exercise), false, None) == ""@ + ("Move "@ + decimal(
            (exercise.done + 1) as nat,
        ) + " of "@ + decimal(exercise.total as nat) + " in the line."@),
        progress_text(Some(exercise), false, Some(answer)) == "The move was "@ + answer + ". "@ + (
        "Move "@ + decimal((exercise.done + 1) as nat) + " of "@ + decimal(exercise.total as nat)
            + " in the line."@),
        progress_text(Some(exercise), true, Some(answer)) == "The move was "@ + answer + ". "@
            + "That is what the position was worth. Add it to training to see it again."@,
        progress_text(Some(exercise), true, None) == ""@
            + "That is what the position was worth. Add it to training to see it again."@,
{
    reveal(progress_text);
}

/// The reply in an exercise is marked by its own two squares, and nothing is marked anew where there is
/// none. A right answer is followed by what is said of the place in the line, and so is one that was
/// shown.
pub proof fn a_reply_is_marked_by_its_squares(
    view: PlayModel,
    exercise: Exercise,
    reply: Option<String>,
    revealed: Option<String>,
    finished: bool,
    from: Square,
    to: Square,
)
    requires
        view.drill is Some,
    ensures
        ({
            let right = after_offer(view, Offer::Correct { reply, finished }, exercise);
            let shown = after_offer(view, Offer::Wrong { revealed, reply, finished }, exercise);
            &&& right.detail == progress_text(Some(exercise), finished, None)
            &&& revealed is Some ==> shown.detail == progress_text(
                Some(exercise),
                finished,
                opt_text(revealed),
            )
            &&& reply is None ==> right.board.last_move == view.board.last_move
            &&& (reply matches Some(uci) && uci@ == crate::chess::square_name(from)
                + crate::chess::square_name(to)) ==> right.board.last_move == Some((from, to)) && (
            revealed is Some ==> shown.board.last_move == Some((from, to)))
            &&& right.board.selected is None
        }),
{
    reveal(exercise_drawn);
    crate::rules::a_moves_text_names_its_squares(from, to, 'q');
    crate::chess::square_round_trip(from);
    crate::chess::square_round_trip(to);
}

/// The opponent is capped at the strength suggested, and never below the least that an engine can be
/// capped at.
pub open spec fn capped(suggested: u32, least: u32) -> u32 {
    if suggested < least {
        least
    } else {
        suggested
    }
}

/// The side that stands at a place of the picker: White first.
pub open spec fn side_at(selected: u32) -> Color {
    if selected == 0 {
        Color::White
    } else {
        Color::Black
    }
}

/// A cap is the suggestion where an engine can be capped at it, and the least possible otherwise; so it
/// is never below either. The first side of the picker is White and every other Black. What is added to
/// training is rated at the player's own rating, or at the floor where that is higher.
pub proof fn a_cap_is_the_suggestion_or_the_least(suggested: u32, least: u32, selected: u32)
    ensures
        capped(suggested, least) >= least,
        capped(suggested, least) >= suggested,
        capped(suggested, least) == suggested || capped(suggested, least) == least,
        side_at(selected) == Color::White <==> selected == 0,
        rated(suggested, least) >= suggested,
        rated(suggested, least) >= least,
        rated(suggested, least) == suggested || rated(suggested, least) == least,
{
}

/// A new tab listens to its board and has nothing on it: no game, nothing under way, nothing said,
/// and nothing to press but the button that begins.
pub proof fn a_new_tab_waits_for_a_game(art: bool, engine: Option<Seq<char>>)
    ensures
        ({
            let fresh = fresh_play(art, engine);
            &&& fresh.board.hears_moves && fresh.board.hears_drags
            &&& fresh.board == (BoardModel { hears_moves: true, hears_drags: true, ..fresh_board(art) })
            &&& fresh.engine == engine
            &&& fresh.standing is None && fresh.report is None && fresh.drill is None
            &&& fresh.start_sensitive && !fresh.resign_visible
            &&& !fresh.review_visible && !fresh.drill_button && !fresh.add_button
            &&& !fresh.banner_visible && fresh.banner_good is None && fresh.banner == ""@
            &&& !fresh.thinking && !fresh.wrong && !fresh.clock
            &&& fresh.status == ""@ && fresh.detail == ""@ && fresh.moves == ""@
            &&& fresh.material == ""@ && fresh.opening == ""@
            &&& fresh.figures.len() == 0 && fresh.rows.len() == 0 && fresh.times.len() == 0
            &&& fresh.outbox.len() == 0
        }),
{
}

/// What the tab says goes with what it does: that the engine thinks while it is asked, that a finished
/// game is being reviewed while it is, that a flagged position is being looked at. The figures shown
/// after a review are those of its own report, and go when the moment is practised; what is added to
/// training is rated at the higher of the player's rating and the floor.
pub proof fn what_is_said_goes_with_what_is_done(
    view: PlayModel,
    report: Report,
    opened: Standing,
    elo: u32,
    row: int,
    personal: u32,
    floor: u32,
)
    requires
        !opened.finished,
    ensures
        after_review(view, report, elo).figures == quality_lines(report.quality),
        after_review(view, report, elo).detail == ""@,
        report.moment is Some ==> drill_started(after_review(view, report, elo)).figures.len() == 0,
        view.engine is Some && !opened.player_turn ==> game_started(view, opened, elo).status
            == "Thinking…"@,
        opened.balance == 0 ==> game_started(view, opened, elo).material == "Material  level"@,
        game_started(view, opened, elo).opening == ""@,
        view.engine is Some && view.standing is Some ==> finished(view).detail
            == "Reviewing the game at full strength…"@,
        view.start_sensitive ==> engine_lost(view).detail
            == "The engine is no longer running. Restart OMACHESS to play again — puzzles and progress are unaffected."@,
        view.engine is None ==> idle_state(view, elo).detail
            == "Install one and restart:  yay -S stockfish\nOMACHESS looks for `stockfish` on your PATH."@,
        (view.report matches Some(found) && 0 <= row < found.drillable@.len()
            && found.drillable@[row].position is Some) ==> position_shown(view, row).status
            == "Reviewing — this is the position you misjudged."@,
        (view.report matches Some(found) && found.drillable@.len() > 0) ==> adding(
            view,
            personal,
            floor,
        ).outbox == view.outbox.push(
            EffectModel::AddToTraining {
                rating: if personal > floor {
                    personal
                } else {
                    floor
                },
            },
        ),
{
    reveal(asked_for_move);
    reveal(finished);
}

/// The scoresheet gives every pair of moves in order, under its own number, with White's move before
/// Black's, and the player's own moves with the time that each of them took.
pub proof fn the_scoresheet_times_the_players_moves(standing: Standing, times: Seq<Thought>, i: int)
    requires
        0 <= i < standing.pairs@.len(),
    ensures
        sheet_text(standing, times) == joined(sheet_lines(standing, times), "\n"@),
        sheet_lines(standing, times).len() == standing.pairs@.len(),
        ({
            let pair = standing.pairs@[i];
            let line = sheet_lines(standing, times)[i];
            let white = standing.game.player == Color::White;
            let time = if i < times.len() {
                " ("@ + times[i].seconds@ + "s)"@
            } else {
                ""@
            };
            &&& pair.black is None && white ==> line == decimal(pair.number as nat) + ". "@
                + pair.white@ + time
            &&& pair.black is None && !white ==> line == decimal(pair.number as nat) + ". "@
                + pair.white@ + ""@
            &&& pair.black matches Some(black) ==> {
                &&& white ==> line == decimal(pair.number as nat) + ". "@ + pair.white@ + time
                    + "  "@ + black@ + ""@
                &&& !white ==> line == decimal(pair.number as nat) + ". "@ + pair.white@ + ""@
                    + "  "@ + black@ + time
            }
        }),
{
    reveal(sheet_text);
}

impl PlayView {
    /// The tab before any game. `engine` is the engine's name, where there is an engine, and
    /// `elo` the strength that it would be capped at.
    pub fn new(art: bool, engine: Option<String>, elo: u32) -> (r: PlayView)
        ensures
            r@ == idle_state(fresh_play(art, opt_text(engine)), elo),
    {
        let mut board = BoardView::new(art);
        board.connect_move();
        board.connect_drag();
        let mut view = PlayView {
            board,
            engine,
            standing: None,
            status: "".to_owned(),
            detail: "".to_owned(),
            figures: no_texts(),
            moves: "".to_owned(),
            start_sensitive: true,
            resign_visible: false,
            material: "".to_owned(),
            opening: "".to_owned(),
            rows: Vec::new(),
            review_visible: false,
            times: Vec::new(),
            clock: false,
            report: None,
            banner: "".to_owned(),
            banner_visible: false,
            banner_good: None,
            drill: None,
            drill_button: false,
            add_button: false,
            thinking: false,
            wrong: false,
            outbox: Vec::new(),
        };
        assert(row_texts(view.rows@) =~= Seq::<(Seq<char>, Seq<char>)>::empty());
        assert(view.times@ =~= Seq::<Thought>::empty());
        assert(effects(view.outbox@) =~= Seq::<EffectModel>::empty()) by {
            reveal(effects);
        }
        view.show_idle_state(elo);
        view
    }

    /// Say who the opponent would be.
    fn show_idle_state(&mut self, elo: u32)
        ensures
            final(self)@ == idle_state(old(self)@, elo),
    {
        let detail = match &self.engine {
            Some(name) => Some(
                glue5(
                    "Opponent: ",
                    name.as_str(),
                    " capped near ",
                    number(elo as u64).as_str(),
                    " Elo. No evaluation is shown while you play; your mistakes are collected and offered as puzzles afterwards.",
                ),
            ),
            None => None,
        };
        match detail {
            Some(detail) => {
                self.status = "Ready when you are.".to_owned();
                self.detail = detail;
                self.start_sensitive = true;
            },
            None => {
                self.status = "No engine found.".to_owned();
                self.detail =
                "Install one and restart:  yay -S stockfish\nOMACHESS looks for `stockfish` on your PATH.".to_owned();
                self.start_sensitive = false;
            },
        }
    }

    /// Start a game, which stands as `opened`, against an engine capped at `elo`.
    pub fn start_game(&mut self, opened: Standing, elo: u32)
        ensures
            final(self)@ == game_started(old(self)@, opened, elo),
    {
        self.set_up(opened, elo);
        self.request_engine_if_due(elo);
    }

    /// Put a new game on the board.
    fn set_up(&mut self, opened: Standing, elo: u32)
        ensures
            final(self)@ == set_up(old(self)@, opened, elo),
    {
        self.board.set_orientation(opened.game.player);
        self.board.set_position(opened.game.fen.as_str());
        self.board.select(None);
        self.board.set_last_move(None);
        self.board.set_check(None);
        self.board.set_mate(None);
        self.moves = "".to_owned();
        self.figures = no_texts();
        self.report = None;
        self.add_button = false;
        self.banner_visible = false;
        self.drill = None;
        self.drill_button = false;
        self.opening = "".to_owned();
        self.material = material(&opened);
        self.standing = Some(opened);
        self.times = Vec::new();
        assert(self.times@ =~= Seq::<Thought>::empty());
        self.clock = true;
        emit(&mut self.outbox, Effect::StartClock);
        self.resign_visible = true;
        self.review_visible = false;
        self.rows = Vec::new();
        assert(row_texts(self.rows@) =~= Seq::<(Seq<char>, Seq<char>)>::empty());
        self.status = "Your move.".to_owned();
        self.detail = glue3("Opponent capped near ", number(elo as u64).as_str(), " Elo.");
    }

    /// Give up. `after` is the game once it has been given up.
    pub fn resign_game(&mut self, after: Standing)
        ensures
            final(self)@ == resigned(old(self)@, after),
    {
        if self.standing.is_none() {
            return;
        }
        self.standing = Some(after);
        self.finish_game();
    }

    /// A square was clicked. `found` is the legal move from the selected square to it, and
    /// `thought` the time since the clock was started.
    pub fn on_square(
        &mut self,
        square: Square,
        found: Option<FoundPlay>,
        thought: Thought,
        elo: u32,
    )
        ensures
            final(self)@ == after_click(old(self)@, square, found, thought, elo),
    {
        if self.is_drilling() {
            self.click_exercise(square);
        } else if self.may_move() {
            self.click_game(square, found, thought, elo);
        }
    }

    /// A square was clicked during the exercise.
    fn click_exercise(&mut self, square: Square)
        ensures
            final(self)@ == exercise_clicked(old(self)@, square),
    {
        match self.board.selected() {
            None => self.board.select(Some(square)),
            Some(from) => if from == square {
                self.board.select(None);
            } else {
                self.board.select(None);
                emit(&mut self.outbox, Effect::OfferDrill { from, to: square });
            },
        }
    }

    /// A square was clicked during a game.
    fn click_game(
        &mut self,
        square: Square,
        found: Option<FoundPlay>,
        thought: Thought,
        elo: u32,
    )
        ensures
            final(self)@ == game_clicked(old(self)@, square, found, thought, elo),
    {
        let own = self.has_own_piece(square);
        match self.board.selected() {
            None => if own {
                self.board.select(Some(square));
            },
            Some(from) => if from == square {
                self.board.select(None);
            } else if own && found.is_none() {
                self.board.select(Some(square));
            } else {
                self.board.select(None);
                match found {
                    Some(found) => self.play_player_move(found, thought, elo),
                    None => {},
                }
            },
        }
    }

    /// A piece was dragged from one square to another. `found` is the legal move between them,
    /// and `thought` the time since the clock was started.
    pub fn on_drag(
        &mut self,
        from: Square,
        to: Square,
        found: Option<FoundPlay>,
        thought: Thought,
        elo: u32,
    )
        ensures
            final(self)@ == after_drag(old(self)@, from, to, found, thought, elo),
    {
        if self.is_drilling() {
            self.board.select(None);
            emit(&mut self.outbox, Effect::OfferDrill { from, to });
            return;
        }
        if !self.may_move() || !self.has_own_piece(from) {
            let text = glue3(
                "no move offered from ",
                square_caps(from).as_str(),
                ": not your turn or not your piece",
            );
            emit(&mut self.outbox, Effect::Trace(text));
            return;
        }
        match found {
            Some(found) => {
                self.board.select(None);
                self.play_player_move(found, thought, elo);
            },
            None => {
                let text = glue4(
                    "no legal move from ",
                    square_caps(from).as_str(),
                    " to ",
                    square_caps(to).as_str(),
                );
                emit(&mut self.outbox, Effect::Trace(text));
                self.board.select(None);
            },
        }
    }

    /// Whether the post-game exercise is waiting for an answer.
    pub fn is_drilling(&self) -> (r: bool)
        ensures
            r == drilling(self@),
    {
        match &self.drill {
            Some(exercise) => !exercise.solved,
            None => false,
        }
    }

    /// Whether the player may move.
    pub fn may_move(&self) -> (r: bool)
        ensures
            r == player_may_move(self@),
    {
        match &self.standing {
            Some(standing) => !self.thinking && standing.may_move,
            None => false,
        }
    }

    /// Whether a square holds a piece of the side to move.
    fn has_own_piece(&self, square: Square) -> (r: bool)
        ensures
            r == own_piece(self@, square),
    {
        match &self.standing {
            Some(standing) => crate::rules::holds_piece_of(
                standing.game.fen.as_str(),
                square,
                standing.game.turn,
            ),
            None => false,
        }
    }

    /// What a move does in the game as it stands.
    fn step_of(&self, uci: &str) -> (r: Option<Moved>)
        ensures
            r == match self@.standing {
                Some(standing) => moved_in(standing.game.fen@, uci@),
                None => None,
            },
    {
        match &self.standing {
            Some(standing) => moved(standing.game.fen.as_str(), uci),
            None => None,
        }
    }

    /// The player's move.
    fn play_player_move(&mut self, found: FoundPlay, thought: Thought, elo: u32)
        ensures
            final(self)@ == after_player(old(self)@, found, thought, elo),
    {
        match (self.step_of(found.uci.as_str()), found.played) {
            (Some(step), Some(next)) => self.make_move(step, next, thought, elo),
            _ => {},
        }
    }

    /// Put the player's move on the board.
    fn make_move(&mut self, step: Moved, next: Standing, thought: Thought, elo: u32)
        ensures
            final(self)@ == player_moved(old(self)@, step, next, thought, elo),
    {
        proof {
            reveal(player_moved);
        }
        let cue = cue(next.game.fen.as_str(), step.capture);
        self.adopt(next);
        self.note_time(thought);
        self.redraw(crate::rules::move_squares(step));
        self.post(Effect::Sound(cue));
        self.request_engine_if_due(elo);
    }

    /// The game as it now stands.
    fn adopt(&mut self, next: Standing)
        ensures
            final(self)@ == (PlayModel { standing: Some(next), ..old(self)@ }),
    {
        self.standing = Some(next);
    }

    /// The exercise as it now stands.
    fn adopt_exercise(&mut self, exercise: Exercise)
        ensures
            final(self)@ == (PlayModel { drill: Some(exercise), ..old(self)@ }),
    {
        self.drill = Some(exercise);
    }

    /// Leave something to be done.
    fn post(&mut self, effect: Effect)
        ensures
            final(self)@ == (PlayModel {
                outbox: old(self)@.outbox.push(effect@),
                ..old(self)@
            }),
    {
        emit(&mut self.outbox, effect);
    }

    /// Time the player's turn from now on.
    fn start_clock(&mut self)
        ensures
            final(self)@ == (PlayModel {
                clock: true,
                outbox: old(self)@.outbox.push(EffectModel::StartClock),
                ..old(self)@
            }),
    {
        self.clock = true;
        emit(&mut self.outbox, Effect::StartClock);
    }

    /// Say something beside the board, and something more under it.
    fn tell(&mut self, status: String, detail: String)
        ensures
            final(self)@ == (PlayModel { status: status@, detail: detail@, ..old(self)@ }),
    {
        self.status = status;
        self.detail = detail;
    }

    /// Write down how long the player thought, where it was being timed.
    fn note_time(&mut self, thought: Thought)
        ensures
            final(self)@ == timed(old(self)@, thought),
    {
        if self.clock {
            self.times.push(thought);
        }
        self.clock = false;
    }

    /// Draw the position after a move.
    fn redraw(&mut self, last: Option<(Square, Square)>)
        ensures
            final(self)@ == redrawn(old(self)@, last),
    {
        proof {
            reveal(redrawn);
        }
        let (fen, sheet, material, opening) = match &self.standing {
            Some(standing) => (
                standing.game.fen.clone(),
                format_moves(standing, &self.times),
                material(standing),
                opening(standing),
            ),
            None => {
                return;
            },
        };
        self.board.set_position(fen.as_str());
        self.board.set_last_move(last);
        self.board.set_check(check_square(fen.as_str()));
        self.moves = sheet;
        self.material = material;
        self.opening = opening;
    }

    /// Ask the engine for a move where one is due from it.
    fn request_engine_if_due(&mut self, elo: u32)
        ensures
            final(self)@ == asked_for_move(old(self)@, elo),
    {
        proof {
            reveal(asked_for_move);
        }
        let (finished, player_turn) = match &self.standing {
            Some(standing) => (standing.finished, standing.player_turn),
            None => {
                return;
            },
        };
        if finished {
            self.finish_game();
            return;
        }
        if player_turn {
            self.status = "Your move.".to_owned();
            return;
        }
        if self.engine.is_none() {
            return;
        }
        let request = match &self.standing {
            Some(standing) => Request::Move {
                fen: standing.game.initial_fen.clone(),
                moves: copy_texts(&standing.game.moves),
                elo,
            },
            None => {
                return;
            },
        };
        self.thinking = true;
        self.status = "Thinking…".to_owned();
        emit(&mut self.outbox, Effect::Ask(request));
    }

    /// Say how the game ended, and have it reviewed.
    fn finish_game(&mut self)
        ensures
            final(self)@ == finished(old(self)@),
    {
        proof {
            reveal(finished);
        }
        self.thinking = false;
        let (banner, good, status, mated, request) = match &self.standing {
            Some(standing) => {
                let good = match standing.verdict {
                    Some(Verdict::Won) => true,
                    _ => false,
                };
                let request = Request::Review {
                    fen: standing.game.initial_fen.clone(),
                    moves: copy_texts(&standing.game.moves),
                    player: standing.game.player,
                };
                (headline_of(standing), good, closing_of(standing), standing.mated, request)
            },
            None => {
                return;
            },
        };
        emit(&mut self.outbox, Effect::Sound(Cue::End));
        self.resign_visible = false;
        self.clock = false;
        emit(&mut self.outbox, Effect::StopClock);
        self.board.set_mate(mated);
        self.board.set_check(None);
        self.banner = banner;
        self.banner_good = Some(good);
        self.banner_visible = true;
        self.status = status.to_owned();
        if self.engine.is_none() {
            return;
        }
        self.detail = "Reviewing the game at full strength…".to_owned();
        emit(&mut self.outbox, Effect::Ask(request));
    }

    /// The engine moved. `played` is the game after its move, where that could be played.
    pub fn engine_moved(&mut self, uci: &str, played: Option<Standing>, elo: u32)
        ensures
            final(self)@ == after_engine(old(self)@, uci@, played, elo),
    {
        self.thinking = false;
        match (self.step_of(uci), played) {
            (Some(step), Some(next)) => self.follow_engine(step, next, elo),
            _ => {},
        }
    }

    /// Put the engine's move on the board.
    fn follow_engine(&mut self, step: Moved, next: Standing, elo: u32)
        ensures
            final(self)@ == engine_followed(old(self)@, step, next, elo),
    {
        proof {
            reveal(engine_followed);
        }
        let cue = cue(next.game.fen.as_str(), step.capture);
        self.adopt(next);
        self.redraw(crate::rules::move_squares(step));
        self.post(Effect::Sound(cue));
        self.start_clock();
        self.request_engine_if_due(elo);
    }

    /// The review came back.
    pub fn reviewed(&mut self, report: Report, elo: u32)
        ensures
            final(self)@ == after_review(old(self)@, report, elo),
    {
        self.record_game(report.quality.empty, elo);
        self.detail = "".to_owned();
        self.figures = describe(&report.quality);
        self.drill_button = report.has_moment;
        let some = report.drillable.len() > 0;
        if some {
            self.rows = review_rows(&report.drillable);
            self.review_visible = true;
            self.add_button = true;
        } else {
            self.add_button = false;
        }
        self.report = Some(report);
    }

    /// Store how well the game was played.
    fn record_game(&mut self, empty: bool, elo: u32)
        ensures
            forall|quality: Quality|
                quality.empty == empty ==> final(self)@ == #[trigger] recorded(
                    old(self)@,
                    quality,
                    elo,
                ),
    {
        if empty {
            return;
        }
        let (player_white, verdict) = match &self.standing {
            Some(standing) => (standing.game.player == Color::White, standing.verdict),
            None => {
                return;
            },
        };
        let result = match verdict {
            Some(Verdict::Won) => "won",
            Some(Verdict::Lost) => "lost",
            _ => "drawn",
        };
        emit(
            &mut self.outbox,
            Effect::RecordGame { player_white, opponent_elo: elo, result: result.to_owned() },
        );
    }

    /// A request to the engine failed.
    pub fn engine_failed(&mut self, message: &str)
        ensures
            final(self)@ == (PlayModel {
                thinking: false,
                status: "Engine: "@ + message@,
                ..old(self)@
            }),
    {
        self.thinking = false;
        self.status = glue2("Engine: ", message);
    }

    /// The engine thread is gone for good.
    pub fn engine_gone(&mut self)
        ensures
            final(self)@ == engine_lost(old(self)@),
    {
        if self.start_sensitive {
            self.thinking = false;
            self.start_sensitive = false;
            self.resign_visible = false;
            self.detail =
            "The engine is no longer running. Restart OMACHESS to play again — puzzles and progress are unaffected.".to_owned();
        }
    }

    /// Put the player back in the position where the game turned.
    pub fn start_drill(&mut self)
        ensures
            final(self)@ == drill_started(old(self)@),
    {
        match self.moment_found() {
            Some((exercise, detail)) => self.enter_exercise(exercise, detail),
            None => {},
        }
    }

    /// The moment where the game turned as an exercise, and what is said of it.
    fn moment_found(&self) -> (r: Option<(Exercise, String)>)
        ensures
            r is Some <==> moment_of(self@) is Some,
            r matches Some(found) ==> found.0 == moment_of(self@)->0.exercise && found.1@
                == moment_text(moment_of(self@)->0),
    {
        match &self.report {
            Some(report) => match &report.moment {
                Some(moment) => Some(
                    (
                        copy_exercise(&moment.exercise),
                        glue5(
                            "Move ",
                            number(moment.ply as u64 / 2 + 1).as_str(),
                            " is where the game turned — you gave away ",
                            moment.lost.as_str(),
                            "% here. Find the move; the answer is played for you and then you find the next one, all the way through the line.",
                        ),
                    ),
                ),
                None => None,
            },
            None => None,
        }
    }

    /// Put an exercise on the board.
    fn enter_exercise(&mut self, exercise: Exercise, detail: String)
        ensures
            final(self)@ == exercise_entered(old(self)@, exercise, detail@),
    {
        self.board.set_orientation(exercise.turn);
        self.board.set_position(exercise.fen.as_str());
        self.board.set_mate(None);
        self.board.set_last_move(None);
        self.board.select(None);
        self.banner_visible = false;
        self.status = "Find the move.".to_owned();
        self.detail = detail;
        self.figures = no_texts();
        self.drill_button = false;
        self.drill = Some(exercise);
    }

    /// A move was offered to the exercise: what came of it, and the exercise now.
    pub fn drill_offered(&mut self, outcome: Offer, exercise: Exercise)
        requires
            exercise.done < usize::MAX,
        ensures
            final(self)@ == after_offer(old(self)@, outcome, exercise),
    {
        if self.drill.is_some() {
            match outcome {
                Offer::Illegal => {
                    self.drill = Some(exercise);
                },
                Offer::Correct { reply, finished } => {
                    self.go_on(exercise, None, reply, finished);
                },
                Offer::Wrong { revealed, reply, finished } => if revealed.is_none() {
                    self.mark_wrong(exercise);
                } else {
                    self.go_on(exercise, revealed, reply, finished);
                },
            }
        }
    }

    /// Mark the board for a wrong answer.
    fn mark_wrong(&mut self, exercise: Exercise)
        ensures
            final(self)@ == marked_wrong(old(self)@, exercise),
    {
        self.drill = Some(exercise);
        emit(&mut self.outbox, Effect::Sound(Cue::Wrong));
        self.wrong = true;
        emit(&mut self.outbox, Effect::ClearWrongAfter(WRONG_MS));
        self.status = "Not that one. Look again.".to_owned();
    }

    /// Go on along the line, after the right move or after it was shown.
    fn go_on(
        &mut self,
        exercise: Exercise,
        revealed: Option<String>,
        reply: Option<String>,
        finished: bool,
    )
        requires
            exercise.done < usize::MAX,
        ensures
            final(self)@ == gone_on(
                old(self)@,
                exercise,
                opt_text(revealed),
                opt_text(reply),
                finished,
            ),
    {
        let text = describe_drill(&exercise, finished, &revealed);
        let (cue, status) = match (revealed.is_some(), finished) {
            (false, true) => (Cue::Solved, "That is the whole line."),
            (false, false) => (Cue::Solved, "Right. Now find the next one."),
            (true, true) => (Cue::Move, "That was the line."),
            (true, false) => (Cue::Move, "Shown — keep going from here."),
        };
        self.continue_line(exercise, cue, reply, status.to_owned(), text);
    }

    /// Draw the exercise where it now stands, and say so.
    fn continue_line(
        &mut self,
        exercise: Exercise,
        cue: Cue,
        reply: Option<String>,
        status: String,
        detail: String,
    )
        ensures
            final(self)@ == line_continued(
                old(self)@,
                exercise,
                cue,
                opt_text(reply),
                status@,
                detail@,
            ),
    {
        self.adopt_exercise(exercise);
        self.post(Effect::Sound(cue));
        let ghost sounded = self@;
        assert(sounded == (PlayModel {
            drill: Some(exercise),
            outbox: old(self)@.outbox.push(EffectModel::Sound(cue)),
            ..old(self)@
        }));
        self.show_drill_position(&reply);
        let ghost drawn = self@;
        assert(drawn == exercise_drawn(sounded, opt_text(reply)));
        self.tell(status, detail);
        assert(self@ == (PlayModel { status: status@, detail: detail@, ..drawn }));
    }

    /// Take the mark of a wrong answer down.
    pub fn wrong_over(&mut self)
        ensures
            final(self)@ == (PlayModel { wrong: false, ..old(self)@ }),
    {
        self.wrong = false;
    }

    /// Redraw the exercise position after the line has moved on.
    fn show_drill_position(&mut self, reply: &Option<String>)
        ensures
            final(self)@ == exercise_drawn(old(self)@, opt_text(*reply)),
    {
        proof {
            reveal(exercise_drawn);
        }
        let fen = match &self.drill {
            Some(exercise) => exercise.fen.clone(),
            None => {
                return;
            },
        };
        self.board.set_position(fen.as_str());
        self.board.select(None);
        let last = match reply {
            Some(uci) => match crate::rules::uci_squares(uci.as_str()) {
                Some(squares) => Some(squares),
                None => self.board.last_move(),
            },
            None => self.board.last_move(),
        };
        // The answer that was played is highlighted, so it is not missed.
        self.board.set_last_move(last);
        self.board.set_check(check_square(fen.as_str()));
    }

    /// Put the position of a flagged move on the board.
    pub fn show_position(&mut self, row: usize)
        ensures
            final(self)@ == position_shown(old(self)@, row as int),
    {
        let fen = match &self.report {
            Some(report) => if row < report.drillable.len() {
                match &report.drillable[row].position {
                    Some(fen) => fen.clone(),
                    None => {
                        return;
                    },
                }
            } else {
                return;
            },
            None => {
                return;
            },
        };
        self.board.set_position(fen.as_str());
        self.status = "Reviewing — this is the position you misjudged.".to_owned();
    }

    /// Turn the collected mistakes into puzzles in the player's own deck. `personal` is the
    /// player's rating, and `floor` the lowest that is stored.
    pub fn add_found_to_training(&mut self, personal: u32, floor: u32)
        ensures
            final(self)@ == adding(old(self)@, personal, floor),
    {
        let some = match &self.report {
            Some(report) => report.drillable.len() > 0,
            None => false,
        };
        if some {
            let rating: u32 = training_rating(personal, floor);
            emit(&mut self.outbox, Effect::AddToTraining { rating });
        }
    }

    /// What became of the mistakes: how many were added, or why none could be.
    pub fn added_to_training(&mut self, outcome: Result<u64, String>)
        ensures
            final(self)@ == match outcome {
                Ok(count) => PlayModel {
                    detail: "Added "@ + decimal(count as nat)
                        + " of your own positions to training."@,
                    add_button: false,
                    ..old(self)@
                },
                Err(why) => PlayModel { detail: "Could not save: "@ + why@, ..old(self)@ },
            },
    {
        match outcome {
            Ok(count) => {
                self.detail = glue3(
                    "Added ",
                    number(count).as_str(),
                    " of your own positions to training.",
                );
                self.add_button = false;
            },
            Err(why) => {
                self.detail = glue2("Could not save: ", why.as_str());
            },
        }
    }

    /// Take everything that is to be done.
    pub fn take_effects(&mut self) -> (r: Vec<Effect>)
        ensures
            effects(r@) == old(self)@.outbox,
            final(self)@ == (PlayModel { outbox: Seq::empty(), ..old(self)@ }),
    {
        crate::effect::drain(&mut self.outbox)
    }
}

/// The same exercise again.
fn copy_exercise(exercise: &Exercise) -> (r: Exercise)
    ensures
        r == *exercise,
{
    Exercise {
        fen: exercise.fen.clone(),
        turn: exercise.turn,
        done: exercise.done,
        total: exercise.total,
        solved: exercise.solved,
    }
}

/// The rating that the player's own mistakes are stored under.
pub fn training_rating(personal: u32, floor: u32) -> (r: u32)
    ensures
        r >= floor,
        r >= personal,
        r == personal || r == floor,
        r == rated(personal, floor),
{
    if personal < floor {
        floor
    } else {
        personal
    }
}

/// The side that the player picked.
pub fn chosen_side(selected: u32) -> (r: Color)
    ensures
        r == side_at(selected),
{
    if selected == 0 {
        Color::White
    } else {
        Color::Black
    }
}

/// The strength to cap the opponent at: what the player's rating suggests, and never below what
/// the engine is willing to do.
pub fn capped_elo(suggested: u32, least: u32) -> (r: u32)
    ensures
        r == capped(suggested, least),
{
    if suggested < least {
        least
    } else {
        suggested
    }
}

/// The sound that a move deserves, given the position after it.
fn cue(after: &str, capture: bool) -> (r: Cue)
    ensures
        r == cue_for(after@, capture),
{
    if crate::rules::in_check(after) {
        Cue::Check
    } else if capture {
        Cue::Capture
    } else {
        Cue::Move
    }
}

/// The headline of a finished game.
fn headline_of(standing: &Standing) -> (r: String)
    ensures
        r@ == headline(*standing),
{
    let outcome = match standing.verdict {
        Some(Verdict::Won) => "You won",
        Some(Verdict::Lost) => "You lost",
        Some(Verdict::Drawn) => "Draw",
        None => "Game over",
    };
    match &standing.reason {
        Some((_, label)) => glue3(label.as_str(), " — ", outcome),
        None => outcome.to_owned(),
    }
}

/// What is said beside the board of a finished game.
fn closing_of(standing: &Standing) -> (r: &'static str)
    ensures
        r@ == closing(*standing),
{
    match &standing.reason {
        Some((EndReason::Checkmate, _)) => "The game is over.",
        Some((EndReason::Resigned, _)) => "You resigned.",
        Some((EndReason::Stalemate, _)) => "Neither side can win from here.",
        Some((EndReason::InsufficientMaterial, _)) => "Neither side can win from here.",
        None => "The game is over.",
    }
}

/// The material difference.
fn material(standing: &Standing) -> (r: String)
    ensures
        r@ == material_text(Some(*standing)),
{
    let balance = standing.balance;
    if balance > 0 {
        let mut text = "Material  +".to_owned();
        push_signed(&mut text, balance as i64);
        text
    } else if balance < 0 {
        let mut text = "Material  ".to_owned();
        push_signed(&mut text, balance as i64);
        text
    } else {
        "Material  level".to_owned()
    }
}

/// Name the line being played, and say when it left the book.
fn opening(standing: &Standing) -> (r: String)
    ensures
        r@ == opening_text(Some(*standing)),
{
    match &standing.opening {
        Some(found) => {
            let mut text = glue4(found.name.as_str(), " (", found.eco.as_str(), ")");
            if standing.game.moves.len() > found.plies {
                text.append("\nout of book since move ");
                push_number(&mut text, (found.plies / 2 + 1) as u64);
            }
            text
        },
        None => "".to_owned(),
    }
}

/// How long the move of a line took.
fn stamp_of(times: &Vec<Thought>, mine: bool, n: usize) -> (r: String)
    ensures
        r@ == stamp(times@, mine, n as int),
{
    if mine && n < times.len() {
        glue3(" (", times[n].seconds.as_str(), "s)")
    } else {
        "".to_owned()
    }
}

/// A line of the scoresheet.
fn pair_line(pair: &MovePair, index: usize, white: bool, times: &Vec<Thought>) -> (r: String)
    ensures
        r@ == pair_text(*pair, index as int, white, times@),
{
    let mut text = glue4(
        number(pair.number).as_str(),
        ". ",
        pair.white.as_str(),
        stamp_of(times, white, index).as_str(),
    );
    match &pair.black {
        Some(black) => {
            text.append("  ");
            text.append(black.as_str());
            text.append(stamp_of(times, !white, index).as_str());
        },
        None => {},
    }
    text
}

/// The scoresheet, with the time spent on each of the player's own moves, which is the same
/// quantity the trainer measures.
pub fn format_moves(standing: &Standing, times: &Vec<Thought>) -> (r: String)
    ensures
        r@ == sheet_text(*standing, times@),
{
    proof {
        reveal(sheet_text);
    }
    let white = standing.game.player == Color::White;
    let mut lines: Vec<String> = Vec::new();
    let mut i: usize = 0;
    while i < standing.pairs.len()
        invariant
            i <= standing.pairs.len(),
            white == (standing.game.player == Color::White),
            texts(lines@) == sheet_lines(*standing, times@).take(i as int),
        decreases standing.pairs.len() - i,
    {
        let ghost before = texts(lines@);
        lines.push(pair_line(&standing.pairs[i], i, white, times));
        assert(texts(lines@) =~= before.push(sheet_lines(*standing, times@)[i as int]));
        i += 1;
        assert(texts(lines@) =~= sheet_lines(*standing, times@).take(i as int));
    }
    assert(sheet_lines(*standing, times@).take(i as int) =~= sheet_lines(*standing, times@));
    crate::text::join(&lines, "\n")
}

/// The quality of a game, stated without reference to who won.
///
/// A win against a weak opponent and a loss against a strong one say little about how well you
/// played. The win probability you gave away per move says a great deal, and it is comparable
/// between games.
pub fn describe(quality: &Quality) -> (r: Vec<String>)
    ensures
        texts(r@) == quality_lines(*quality),
{
    proof {
        reveal(quality_lines);
    }
    if quality.empty {
        return one_text("Not enough of the game could be analysed.".to_owned());
    }
    let mut lines = one_text(
        glue5(
            "Accuracy ",
            quality.accuracy.as_str(),
            "%  ·  ",
            quality.per_move.as_str(),
            "% given away per move",
        ),
    );
    let mut errors = number(quality.blunders);
    errors.append(" blunder");
    push_plural(&mut errors, quality.blunders);
    errors.append(", ");
    push_number(&mut errors, quality.mistakes);
    errors.append(" mistake");
    push_plural(&mut errors, quality.mistakes);
    errors.append(", ");
    push_number(&mut errors, quality.inaccuracies);
    errors.append(" inaccurac");
    errors.append(
        if quality.inaccuracies == 1 {
            "y"
        } else {
            "ies"
        },
    );
    put_text(&mut lines, errors);
    match &quality.weakest {
        Some((phase, loss, moves)) => {
            let mut weakest = glue5(
                "Weakest phase: ",
                phase.as_str(),
                " (",
                loss.as_str(),
                "% per move over ",
            );
            push_number(&mut weakest, *moves);
            weakest.append(" moves)");
            put_text(&mut lines, weakest);
        },
        None => {},
    }
    match &quality.pressure {
        Some(pressure) => put_texts(&mut lines, describe_pressure(pressure)),
        None => {},
    }
    assert(texts(lines@) =~= quality_lines(*quality));
    lines
}

/// The link between speed and error.
fn describe_pressure(pressure: &Pressure) -> (r: Vec<String>)
    ensures
        texts(r@) == pressure_lines(*pressure),
{
    let mut quick = glue5(
        "Quick moves (under ",
        pressure.median.as_str(),
        "s) gave away ",
        pressure.quick.as_str(),
        "% each; considered moves ",
    );
    quick.append(pressure.considered.as_str());
    quick.append("%.");
    let mut lines = one_text(quick);
    match &pressure.times {
        Some((error, clean)) => put_text(
            &mut lines,
            glue5(
                "Your errors took ",
                error.as_str(),
                "s to play; your sound moves ",
                clean.as_str(),
                "s.",
            ),
        ),
        None => {},
    }
    if pressure.significant {
        put_text(
            &mut lines,
            "Your mistakes really are concentrated in the moves you rush (p<0.05).".to_owned(),
        );
        put_text(
            &mut lines,
            "Slowing down would cost you less than studying more tactics.".to_owned(),
        );
    } else {
        put_text(&mut lines, "No reliable link between speed and error in this game.".to_owned());
    }
    assert(texts(lines@) =~= pressure_lines(*pressure));
    lines
}

/// List every flagged move, so the player can see what went wrong rather than being told only how
/// many times it did.
fn review_rows(list: &Vec<Flagged>) -> (r: Vec<(String, String)>)
    ensures
        row_texts(r@) == flagged_rows(list@),
{
    let mut rows: Vec<(String, String)> = Vec::new();
    let mut i: usize = 0;
    while i < list.len()
        invariant
            i <= list.len(),
            rows@.len() == i,
            forall|j: int|
                0 <= j < i ==> (#[trigger] rows@[j]).0@ == flagged_text(list@[j]).0 && rows@[j].1@
                    == flagged_text(list@[j]).1,
        decreases list.len() - i,
    {
        let flagged = &list[i];
        let severity = match &flagged.severity {
            Some(label) => label.as_str(),
            None => "inaccuracy",
        };
        let heading = glue4("Move ", number(flagged.ply as u64 / 2 + 1).as_str(), " — ", severity);
        let mut line = glue5(
            "played ",
            flagged.played.as_str(),
            ", better was ",
            flagged.best.as_str(),
            " (",
        );
        line.append(flagged.cost.as_str());
        line.append("% given away)");
        rows.push((heading, line));
        i += 1;
    }
    assert(row_texts(rows@) =~= flagged_rows(list@));
    rows
}

/// Where the solver is in the line, and what was just shown.
fn describe_drill(exercise: &Exercise, finished: bool, revealed: &Option<String>) -> (r: String)
    requires
        exercise.done < usize::MAX,
    ensures
        r@ == progress_text(Some(*exercise), finished, opt_text(*revealed)),
{
    proof {
        reveal(progress_text);
    }
    let mut text = match revealed {
        Some(answer) => glue3("The move was ", answer.as_str(), ". "),
        None => "".to_owned(),
    };
    if finished {
        text.append("That is what the position was worth. Add it to training to see it again.");
    } else {
        text.append(
            glue5(
                "Move ",
                number((exercise.done + 1) as u64).as_str(),
                " of ",
                number(exercise.total as u64).as_str(),
                " in the line.",
            ).as_str(),
        );
    }
    text
}

} // verus!
