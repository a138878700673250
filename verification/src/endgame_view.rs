//! Converting theoretical endgames against the best defence the engine has.
//!
//! Everything else here measures against something arguable. This does not: the position is a win
//! or it is not, the tablebase said which, and either you converted it or you did not. It is the
//! plainest evidence of skill the application can produce.

use crate::announce::Tone;
use crate::board::{fresh_board, BoardModel, BoardView, Spot};
use crate::chess::{opt_game, Color, GameModel, GameState, Role, Square};
use crate::effect::{effects, emit, Activity, Effect, EffectModel};
use crate::engine_worker::{Request, RequestModel};
use crate::exercise::{
    has_own_piece, is_white, last_played, opt_played, say_squares, Ended, FoundModel, FoundMove,
    Objective, Played, PlayedModel, DEFENCE_MS,
};
use crate::rules::Moved;
use crate::sound::Cue;
use crate::text::{copy_texts, decimal, glue2, glue3, number, plural, push_plural};
use vstd::prelude::*;
use vstd::string::*;

verus! {

/// An endgame worth being able to play.
pub struct Endgame {
    pub key: String,
    pub name: String,
    /// How it is done, in a sentence.
    pub idea: String,
    pub objective: Objective,
    /// How many moves the mate takes with best play, where it is known.
    pub dtm: Option<u32>,
    /// The position, where it can be set up.
    pub position: Option<String>,
    /// The position as a game with the player as White, where it can be set up.
    pub opened: Option<Played>,
}

/// What an [`Endgame`] holds.
pub struct EndgameModel {
    pub key: Seq<char>,
    pub name: Seq<char>,
    pub idea: Seq<char>,
    pub objective: Objective,
    pub dtm: Option<u32>,
    pub position: Option<Seq<char>>,
    pub opened: Option<PlayedModel>,
}

impl View for Endgame {
    type V = EndgameModel;

    open spec fn view(&self) -> EndgameModel {
        EndgameModel {
            key: self.key@,
            name: self.name@,
            idea: self.idea@,
            objective: self.objective,
            dtm: self.dtm,
            position: crate::text::opt_text(self.position),
            opened: opt_played(self.opened),
        }
    }
}

/// What each of some endgames holds.
pub open spec fn catalogue(list: Seq<Endgame>) -> Seq<EndgameModel> {
    Seq::new(list.len(), |i: int| list[i]@)
}

/// The endgame tab.
pub struct EndgameView {
    pub board: BoardView,
    pub has_engine: bool,
    /// Everything that can be practised. It is never empty.
    pub endgames: Vec<Endgame>,
    pub game: Option<GameState>,
    /// How many moves are left before the fifty-move draw of that game.
    pub left: u32,
    /// Which endgame is loaded.
    pub current: usize,
    pub title: String,
    pub objective: String,
    pub idea: String,
    pub status: String,
    pub record: String,
    pub countdown: String,
    pub thinking: bool,
    /// Set once the attempt has been judged, so it is recorded exactly once.
    pub settled: bool,
    /// The sitting these attempts belong to.
    pub sitting: Option<i64>,
    /// The move that the promotion picker was raised for.
    pub promotion: Option<(Square, Square)>,
    pub outbox: Vec<Effect>,
}

/// What an [`EndgameView`] holds.
pub struct EndgameTab {
    pub board: BoardModel,
    pub has_engine: bool,
    pub endgames: Seq<EndgameModel>,
    pub game: Option<GameModel>,
    pub left: u32,
    pub current: nat,
    pub title: Seq<char>,
    pub objective: Seq<char>,
    pub idea: Seq<char>,
    pub status: Seq<char>,
    pub record: Seq<char>,
    pub countdown: Seq<char>,
    pub thinking: bool,
    pub settled: bool,
    pub sitting: Option<i64>,
    pub promotion: Option<(Square, Square)>,
    pub outbox: Seq<EffectModel>,
}

impl View for EndgameView {
    type V = EndgameTab;

    open spec fn view(&self) -> EndgameTab {
        EndgameTab {
            board: self.board@,
            has_engine: self.has_engine,
            endgames: catalogue(self.endgames@),
            game: opt_game(self.game),
            left: self.left,
            current: self.current as nat,
            title: self.title@,
            objective: self.objective@,
            idea: self.idea@,
            status: self.status@,
            record: self.record@,
            countdown: self.countdown@,
            thinking: self.thinking,
            settled: self.settled,
            sitting: self.sitting,
            promotion: self.promotion,
            outbox: effects(self.outbox@),
        }
    }
}

/// A tab that has shown nothing yet.
pub open spec fn fresh_tab(art: bool, has_engine: bool, endgames: Seq<EndgameModel>) -> EndgameTab {
    EndgameTab {
        board: BoardModel { hears_moves: true, hears_drags: true, ..fresh_board(art) },
        has_engine,
        endgames,
        game: None,
        left: 0,
        current: 0,
        title: ""@,
        objective: ""@,
        idea: ""@,
        status: ""@,
        record: ""@,
        countdown: ""@,
        thinking: false,
        settled: true,
        sitting: None,
        promotion: None,
        outbox: Seq::empty(),
    }
}

/// The endgame now loaded.
pub open spec fn loaded(view: EndgameTab) -> EndgameModel {
    view.endgames[if view.current < view.endgames.len() {
        view.current as int
    } else {
        view.endgames.len() - 1
    }]
}

/// What an endgame asks.
pub open spec fn objective_text(endgame: EndgameModel) -> Seq<char> {
    match endgame.objective {
        Objective::Win => match endgame.dtm {
            Some(dtm) => "Win it — mate in "@ + decimal(dtm as nat) + " with best play"@,
            None => "Win it"@,
        },
        Objective::Draw => "Hold the draw"@,
    }
}

/// The tab showing what an endgame asks.
pub open spec fn described(view: EndgameTab, index: nat) -> EndgameTab {
    let chosen = EndgameTab {
        current: if index < view.endgames.len() {
            index
        } else {
            (view.endgames.len() - 1) as nat
        },
        ..view
    };
    let endgame = loaded(chosen);
    EndgameTab {
        title: endgame.name,
        objective: objective_text(endgame),
        idea: endgame.idea,
        board: match endgame.position {
            Some(fen) => BoardModel {
                pieces: crate::rules::placement_of(fen),
                orientation: Color::White,
                ..view.board
            },
            None => view.board,
        },
        status: ""@,
        countdown: ""@,
        outbox: view.outbox.push(EffectModel::ReadRecord),
        ..chosen
    }
}

/// What is said of the record of past attempts.
pub open spec fn record_text(attempts: u64, achieved: u64) -> Seq<char> {
    if attempts == 0 {
        "Not attempted yet."@
    } else {
        "Converted "@ + decimal(achieved as nat) + " of "@ + decimal(attempts as nat)
            + " attempt"@ + plural(attempts as int) + "."@
    }
}

/// How much of the fifty-move budget is left.
pub open spec fn countdown_text(objective: Objective, left: u32) -> Seq<char> {
    match objective {
        Objective::Win => decimal(left as nat) + " moves before the fifty-move draw."@,
        Objective::Draw => decimal(left as nat) + " moves to survive."@,
    }
}

/// The tab with its countdown up to date.
pub open spec fn counted(view: EndgameTab) -> EndgameTab {
    EndgameTab {
        countdown: match view.game {
            Some(_) => countdown_text(loaded(view).objective, view.left),
            None => ""@,
        },
        ..view
    }
}

/// The tab with a game begun.
pub open spec fn begun_with(view: EndgameTab, game: GameModel, left: u32) -> EndgameTab {
    counted(
        EndgameTab {
            board: BoardModel {
                pieces: crate::rules::placement_of(game.fen),
                orientation: Color::White,
                last_move: None,
                mate: None,
                ..view.board
            },
            outbox: (if view.sitting is None {
                view.outbox.push(EffectModel::BeginSession(Activity::Endgame))
            } else {
                view.outbox
            }).push(EffectModel::ClearBanner).push(EffectModel::StartClock),
            game: Some(game),
            left,
            settled: false,
            thinking: false,
            status: "Your move. The engine defends at full strength."@,
            ..view
        },
    )
}

/// The tab with the attempt begun.
pub open spec fn begun(view: EndgameTab) -> EndgameTab {
    match loaded(view).opened {
        Some(opened) => begun_with(view, opened.game, opened.left),
        None => EndgameTab { status: "This position could not be set up."@, ..view },
    }
}

/// What is said of a finished endgame. Holding a draw and failing to win are one result and
/// opposite outcomes.
pub open spec fn verdict_text(objective: Objective, winner: Option<Color>) -> Seq<char> {
    match (objective, winner) {
        (Objective::Win, Some(Color::White)) => "Converted."@,
        (Objective::Win, None) => "Drawn — the win was there and it got away. Try it again."@,
        (Objective::Win, Some(_)) => "Lost a won position."@,
        (Objective::Draw, None) => "Held."@,
        (Objective::Draw, Some(Color::White)) => "Won a position that was only level."@,
        (Objective::Draw, Some(_)) => {
            "Lost a position that was a draw. That is the one to study."@
        },
    }
}

/// The tab with the endgame judged, where it has finished. It is written down once.
pub open spec fn judged(view: EndgameTab, ended: Option<Ended>) -> EndgameTab {
    match (view.game, ended) {
        (Some(game), Some(end)) => if view.settled {
            view
        } else {
            let endgame = loaded(view);
            let verdict = verdict_text(endgame.objective, end.winner);
            EndgameTab {
                settled: true,
                status: verdict,
                countdown: ""@,
                outbox: view.outbox.push(
                    EffectModel::RecordEndgame {
                        key: endgame.key,
                        achieved: end.achieved,
                        moves: game.moves.len() as u32,
                    },
                ).push(
                    EffectModel::Say(
                        if end.achieved {
                            Tone::Won
                        } else {
                            Tone::Lost
                        },
                        verdict,
                    ),
                ).push(EffectModel::ReadRecord),
                ..view
            }
        },
        _ => view,
    }
}

/// The tab waiting for the engine's move.
pub open spec fn awaiting_engine(view: EndgameTab) -> EndgameTab {
    if !view.has_engine {
        EndgameTab { status: "No engine, so there is nothing to play against."@, ..view }
    } else {
        match view.game {
            Some(game) => EndgameTab {
                thinking: true,
                outbox: view.outbox.push(
                    EffectModel::Ask(
                        RequestModel::BestMove {
                            fen: game.initial_fen,
                            moves: game.moves,
                            millis: DEFENCE_MS,
                        },
                    ),
                ),
                ..view
            },
            None => view,
        }
    }
}

/// The sound of a move.
pub open spec fn move_cue(capture: bool) -> Cue {
    if capture {
        Cue::Capture
    } else {
        Cue::Move
    }
}

/// The tab with the player's move on the board and in the log.
pub open spec fn advanced(
    view: EndgameTab,
    from: Square,
    to: Square,
    capture: bool,
    played: PlayedModel,
) -> EndgameTab {
    counted(
        EndgameTab {
            game: Some(played.game),
            left: played.left,
            board: BoardModel {
                pieces: crate::rules::placement_of(played.game.fen),
                last_move: Some((from, to)),
                ..view.board
            },
            outbox: view.outbox.push(EffectModel::Sound(move_cue(capture))).push(
                EffectModel::LogMove {
                    sitting: view.sitting,
                    activity: Activity::Endgame,
                    subject: loaded(view).key,
                    ply: crate::exercise::last_ply(played.game),
                    uci: crate::exercise::last_uci(played.game),
                    detail: crate::exercise::budget_detail(played.left),
                },
            ),
            ..view
        },
    )
}

/// The tab with a move refused.
pub open spec fn refused(view: EndgameTab, from: Square, to: Square, why: Seq<char>) -> EndgameTab {
    EndgameTab {
        outbox: view.outbox.push(
            EffectModel::Say(Tone::Rejected, crate::exercise::squares_text(from, to, why)),
        ),
        ..view
    }
}

/// The tab after the player moved from one square to another. `found` is the legal move that
/// joins them, if there is one.
pub open spec fn after_play(
    view: EndgameTab,
    from: Square,
    to: Square,
    found: Option<FoundModel>,
) -> EndgameTab {
    match view.game {
        None => view,
        Some(game) => if game.turn != game.player {
            view
        } else {
            match found {
                None => refused(view, from, to, " is not a legal move here"@),
                Some(found) => match found.played {
                    None => refused(view, from, to, " cannot be played in this position"@),
                    Some(played) => {
                        let capture = crate::rules::piece_on(game.fen, to) is Some;
                        let next = advanced(view, from, to, capture, played);
                        if played.ended is Some {
                            judged(next, played.ended)
                        } else {
                            awaiting_engine(next)
                        }
                    },
                },
            }
        },
    }
}

/// The tab after a move that may first ask what a pawn becomes.
pub open spec fn after_move(
    view: EndgameTab,
    from: Square,
    to: Square,
    choices: Seq<Role>,
    spot: Spot,
    found: Option<FoundModel>,
) -> EndgameTab {
    if view.thinking || view.settled {
        view
    } else if view.game is Some && choices.len() > 1 {
        EndgameTab {
            board: BoardModel {
                picker: crate::board::picker_for(
                    view.board,
                    to,
                    crate::exercise::plays_white(view.game),
                    choices,
                    spot,
                ),
                ..view.board
            },
            promotion: Some((from, to)),
            ..view
        }
    } else {
        after_play(view, from, to, found)
    }
}

/// The tab after a click on a square.
pub open spec fn after_click(
    view: EndgameTab,
    square: Square,
    choices: Seq<Role>,
    spot: Spot,
    found: Option<FoundModel>,
) -> EndgameTab {
    if view.thinking || view.settled {
        view
    } else {
        match view.board.selected {
            None => if crate::exercise::owns(view.game, square) {
                EndgameTab {
                    board: BoardModel { selected: Some(square), ..view.board },
                    ..view
                }
            } else {
                view
            },
            Some(from) => {
                let dropped = EndgameTab {
                    board: BoardModel { selected: None, ..view.board },
                    ..view
                };
                if from == square {
                    dropped
                } else {
                    after_move(dropped, from, square, choices, spot, found)
                }
            },
        }
    }
}

/// The tab after a piece was chosen in the promotion picker.
pub open spec fn after_choice(view: EndgameTab, role: Role, found: Option<FoundModel>) -> EndgameTab {
    match view.promotion {
        Some((from, to)) => if crate::board::offers(view.board, role) {
            after_play(
                EndgameTab { board: BoardModel { picker: None, ..view.board }, ..view },
                from,
                to,
                found,
            )
        } else {
            view
        },
        None => view,
    }
}

/// The tab with the engine's move on the board.
pub open spec fn followed(view: EndgameTab, moved: Moved, played: PlayedModel) -> EndgameTab {
    judged(
        counted(
            EndgameTab {
                game: Some(played.game),
                left: played.left,
                board: BoardModel {
                    pieces: crate::rules::placement_of(played.game.fen),
                    last_move: match moved.from {
                        Some(from) => Some((from, moved.to)),
                        None => view.board.last_move,
                    },
                    ..view.board
                },
                outbox: view.outbox.push(EffectModel::Sound(move_cue(moved.capture))),
                ..view
            },
        ),
        played.ended,
    )
}

/// The tab after the engine moved.
pub open spec fn after_engine(
    view: EndgameTab,
    uci: Seq<char>,
    played: Option<PlayedModel>,
) -> EndgameTab {
    let idle = EndgameTab { thinking: false, ..view };
    match view.game {
        None => idle,
        Some(game) => match crate::rules::moved_in(game.fen, uci) {
            None => idle,
            Some(moved) => match played {
                None => EndgameTab {
                    status: "The engine offered a move that is not legal here."@,
                    ..idle
                },
                Some(played) => followed(idle, moved, played),
            },
        },
    }
}

/// An attempt is written down exactly once: judging an endgame that has already been judged adds
/// nothing, and judging one that has not adds exactly one record of it.
pub proof fn an_attempt_is_recorded_once(view: EndgameTab, ended: Option<Ended>, again: Option<Ended>)
    ensures
        ended is Some && view.game is Some ==> judged(judged(view, ended), again) == judged(
            view,
            ended,
        ),
        ended is Some && view.game is Some && !view.settled ==> {
            let after = judged(view, ended);
            &&& after.settled
            &&& after.outbox.len() == view.outbox.len() + 3
            &&& after.outbox[view.outbox.len() as int] is RecordEndgame
            &&& after.outbox.take(view.outbox.len() as int) =~= view.outbox
        },
        view.settled ==> judged(view, ended) == view,
{
}

/// One result reads differently against different objectives: a draw is said in other words where
/// it held a level position than where it lost a won one.
pub proof fn the_same_result_reads_differently(winner: Option<Color>)
    ensures
        verdict_text(Objective::Win, winner) != verdict_text(Objective::Draw, winner),
{
    reveal_strlit("Converted.");
    reveal_strlit("Drawn — the win was there and it got away. Try it again.");
    reveal_strlit("Lost a won position.");
    reveal_strlit("Held.");
    reveal_strlit("Won a position that was only level.");
    reveal_strlit("Lost a position that was a draw. That is the one to study.");
    assert("Converted."@[0] != "Won a position that was only level."@[0]);
    assert("Drawn — the win was there and it got away. Try it again."@[0] != "Held."@[0]);
    assert("Lost a won position."@.len()
        != "Lost a position that was a draw. That is the one to study."@.len());
}

/// What a finished endgame is told to be fits what it asked and who won. Of one to be won,
/// "Converted." is said exactly where White won and "Lost a won position." exactly where Black did;
/// of one to be held, "Held." exactly where nobody won. No two outcomes of one objective read alike.
pub proof fn the_verdict_fits_the_winner(winner: Option<Color>, other: Option<Color>)
    ensures
        verdict_text(Objective::Win, winner) == "Converted."@ <==> winner == Some(Color::White),
        verdict_text(Objective::Win, winner) == "Lost a won position."@ <==> winner == Some(
            Color::Black,
        ),
        verdict_text(Objective::Draw, winner) == "Held."@ <==> winner is None,
        verdict_text(Objective::Draw, winner)
            == "Lost a position that was a draw. That is the one to study."@ <==> winner == Some(
            Color::Black,
        ),
        verdict_text(Objective::Draw, winner) == "Won a position that was only level."@ <==> winner
            == Some(Color::White),
        verdict_text(Objective::Win, winner)
            == "Drawn — the win was there and it got away. Try it again."@ <==> winner is None,
        verdict_text(Objective::Win, winner) == verdict_text(Objective::Win, other) <==> winner
            == other,
        verdict_text(Objective::Draw, winner) == verdict_text(Objective::Draw, other) <==> winner
            == other,
{
    reveal_strlit("Converted.");
    reveal_strlit("Drawn — the win was there and it got away. Try it again.");
    reveal_strlit("Lost a won position.");
    reveal_strlit("Held.");
    reveal_strlit("Won a position that was only level.");
    reveal_strlit("Lost a position that was a draw. That is the one to study.");
    assert("Converted."@.len() == 10 && "Lost a won position."@.len() == 20 && "Held."@.len() == 5);
    assert("Drawn — the win was there and it got away. Try it again."@.len() == 56);
    assert("Won a position that was only level."@.len() == 35);
    assert("Lost a position that was a draw. That is the one to study."@.len() == 58);
}

/// An endgame that has finished is judged by how it ended, whoever made the last move. The verdict
/// shown is the verdict announced; it is announced as a success exactly where what was asked was
/// achieved, and the endgame loaded is written down with exactly that and with the moves played.
pub proof fn a_finished_endgame_is_judged_by_its_end(
    view: EndgameTab,
    from: Square,
    to: Square,
    found: FoundModel,
    uci: Seq<char>,
    played: PlayedModel,
    end: Ended,
)
    requires
        !view.settled,
        view.game is Some,
        view.endgames.len() > 0,
        view.current < view.endgames.len(),
        found.played == Some(played),
        played.ended == Some(end),
    ensures
        view.game->0.turn == view.game->0.player ==> tells_the_end(
            view,
            after_play(view, from, to, Some(found)),
            played,
            end,
        ),
        crate::rules::moved_in(view.game->0.fen, uci) is Some ==> tells_the_end(
            view,
            after_engine(view, uci, Some(played)),
            played,
            end,
        ),
{
    the_verdict_fits_the_winner(end.winner, end.winner);
}

/// Whether a tab tells of the end of the endgame that another one had loaded.
pub open spec fn tells_the_end(
    before: EndgameTab,
    after: EndgameTab,
    played: PlayedModel,
    end: Ended,
) -> bool {
    let endgame = before.endgames[before.current as int];
    let count = after.outbox.len() as int;
    &&& after.settled
    &&& after.countdown == ""@
    &&& count >= 3
    &&& after.outbox[count - 3] == (EffectModel::RecordEndgame {
        key: endgame.key,
        achieved: end.achieved,
        moves: played.game.moves.len() as u32,
    })
    &&& after.outbox[count - 2] == EffectModel::Say(
        if end.achieved {
            Tone::Won
        } else {
            Tone::Lost
        },
        after.status,
    )
    &&& endgame.objective == Objective::Win ==> {
        &&& after.status == "Converted."@ <==> end.winner == Some(Color::White)
        &&& after.status == "Lost a won position."@ <==> end.winner == Some(Color::Black)
    }
    &&& endgame.objective == Objective::Draw ==> {
        &&& after.status == "Held."@ <==> end.winner is None
        &&& after.status == "Lost a position that was a draw. That is the one to study."@
            <==> end.winner == Some(Color::Black)
    }
}

/// The board shows the position that the tab is about: on every square the piece that it has there.
/// Choosing an endgame shows its position, its name and its idea, with White at the bottom; beginning
/// it begins from its own game; a move of either side shows the position it leads to, with the move
/// marked.
pub proof fn the_board_shows_the_position(
    view: EndgameTab,
    index: nat,
    from: Square,
    to: Square,
    found: FoundModel,
    uci: Seq<char>,
    played: PlayedModel,
)
    requires
        found.played == Some(played),
    ensures
        index < view.endgames.len() ==> {
            let after = described(view, index);
            let endgame = view.endgames[index as int];
            &&& after.title == endgame.name
            &&& after.idea == endgame.idea
            &&& after.status == ""@
            &&& after.countdown == ""@
            &&& endgame.position matches Some(fen) ==> after.board.pieces
                == crate::rules::placement_of(fen) && after.board.orientation == Color::White
            &&& after.outbox == view.outbox.push(EffectModel::ReadRecord)
        },
        view.current < view.endgames.len() ==> (view.endgames[view.current as int].opened matches Some(
            opened,
        ) ==> {
            let after = begun(view);
            &&& after.game == Some(opened.game)
            &&& after.left == opened.left
            &&& after.board.pieces == crate::rules::placement_of(opened.game.fen)
            &&& after.board.orientation == Color::White
            &&& after.board.last_move is None
            &&& after.board.mate is None
            &&& !after.settled
            &&& !after.thinking
            &&& after.outbox.last() == EffectModel::StartClock
        }),
        view.current < view.endgames.len() && view.endgames[view.current as int].opened is None
            ==> begun(view) == (EndgameTab {
            status: "This position could not be set up."@,
            ..view
        }),
        view.game matches Some(game) ==> {
            &&& game.turn == game.player ==> {
                let after = after_play(view, from, to, Some(found));
                &&& after.game == Some(played.game)
                &&& after.left == played.left
                &&& after.board.pieces == crate::rules::placement_of(played.game.fen)
                &&& after.board.last_move == Some((from, to))
                &&& after.board.orientation == view.board.orientation
            }
            &&& crate::rules::legal_in(game.fen, uci) ==> {
                let after = after_engine(view, uci, Some(played));
                &&& after.game == Some(played.game)
                &&& after.left == played.left
                &&& after.board.pieces == crate::rules::placement_of(played.game.fen)
                &&& crate::rules::squares_in_text(uci) matches Some((origin, _))
                    ==> after.board.last_move == Some(
                    (
                        crate::chess::nth_square(origin as int),
                        crate::chess::nth_square(
                            crate::rules::target_in(game.fen, uci) as int,
                        ),
                    ),
                )
                &&& !after.thinking
            }
        },
{
}

/// A move that does not finish the endgame is answered by the engine: it is asked, once, for its
/// best move in the game that the move has led to, the whole of it, and the tab waits. Every move of
/// the player's sounds, as a capture exactly where it took something, and is written down with its
/// number and its text, under the endgame that is loaded.
pub proof fn the_engine_answers_the_game_played(
    view: EndgameTab,
    from: Square,
    to: Square,
    found: FoundModel,
    played: PlayedModel,
)
    requires
        view.game matches Some(game) && game.turn == game.player,
        view.current < view.endgames.len(),
        found.played == Some(played),
        played.ended is None,
        played.game.moves.len() > 0,
    ensures
        ({
            let after = after_play(view, from, to, Some(found));
            let taken = crate::rules::piece_on(view.game->0.fen, to) is Some;
            let log = EffectModel::LogMove {
                sitting: view.sitting,
                activity: Activity::Endgame,
                subject: view.endgames[view.current as int].key,
                ply: (played.game.moves.len() - 1) as u32,
                uci: played.game.moves.last(),
                detail: "{\"moves_until_fifty\":"@ + decimal(played.left as nat) + "}"@,
            };
            let heard = view.outbox.push(
                EffectModel::Sound(
                    if taken {
                        Cue::Capture
                    } else {
                        Cue::Move
                    },
                ),
            ).push(log);
            &&& view.has_engine ==> after.thinking && after.outbox == heard.push(
                EffectModel::Ask(
                    RequestModel::BestMove {
                        fen: played.game.initial_fen,
                        moves: played.game.moves,
                        millis: 700,
                    },
                ),
            )
            &&& !view.has_engine ==> after.thinking == view.thinking && after.outbox == heard
            &&& after.settled == view.settled
        }),
{
}

/// A move that cannot be made is refused in words and changes nothing else: not the game, not the
/// board, and nothing is written down.
pub proof fn an_impossible_move_is_refused(
    view: EndgameTab,
    from: Square,
    to: Square,
    found: Option<FoundModel>,
)
    requires
        found matches Some(found) ==> found.played is None,
    ensures
        ({
            let after = after_play(view, from, to, found);
            &&& after.game == view.game
            &&& after.board == view.board
            &&& after.settled == view.settled
            &&& after.thinking == view.thinking
            &&& (view.game matches Some(game) && game.turn == game.player) ==> {
                &&& after.outbox.len() == view.outbox.len() + 1
                &&& after.outbox.drop_last() == view.outbox
                &&& after.outbox.last() matches EffectModel::Say(tone, _) && tone == Tone::Rejected
            }
            &&& (view.game matches Some(game) && game.turn != game.player) ==> after == view
        }),
{
    assert(after_play(view, from, to, found).outbox != view.outbox ==> after_play(
        view,
        from,
        to,
        found,
    ).outbox.drop_last() =~= view.outbox);
}

/// How much is left is counted for the game on the board, and is said to be a limit where the
/// endgame is to be won and a distance where it is to be held.
pub proof fn the_countdown_counts_what_is_left(objective: Objective, left: u32, other: u32)
    ensures
        countdown_text(Objective::Win, left) == decimal(left as nat)
            + " moves before the fifty-move draw."@,
        countdown_text(Objective::Draw, left) == decimal(left as nat) + " moves to survive."@,
        crate::text::begins(countdown_text(objective, left), decimal(left as nat)),
{
    crate::text::begins_with_its_start(
        decimal(left as nat),
        " moves before the fifty-move draw."@,
    );
    crate::text::begins_with_its_start(decimal(left as nat), " moves to survive."@);
}

/// What an endgame asks is said: to be won exactly where it is to be won, with how many moves the
/// mate takes where that is known, and held exactly where it is to be held.
pub proof fn what_is_asked_is_said(endgame: EndgameModel)
    ensures
        objective_text(endgame) == "Hold the draw"@ <==> endgame.objective == Objective::Draw,
        crate::text::begins(objective_text(endgame), "Win it"@) <==> endgame.objective
            == Objective::Win,
        endgame.objective == Objective::Win && endgame.dtm is None ==> objective_text(endgame)
            == "Win it"@,
        endgame.objective == Objective::Win ==> (endgame.dtm matches Some(dtm) ==> objective_text(
            endgame,
        ) == "Win it — mate in "@ + decimal(dtm as nat) + " with best play"@),
{
    reveal_strlit("Hold the draw");
    reveal_strlit("Win it");
    reveal_strlit("Win it — mate in ");
    assert("Hold the draw"@[0] != "Win it"@[0]);
    crate::text::begins_alike(objective_text(endgame), "Win it"@);
    match (endgame.objective, endgame.dtm) {
        (Objective::Win, Some(dtm)) => {
            let text = objective_text(endgame);
            assert(text[0] == "Win it — mate in "@[0]);
            assert(text.subrange(0, 6) =~= "Win it"@);
        },
        (Objective::Win, None) => {
            assert(objective_text(endgame).subrange(0, 6) =~= "Win it"@);
        },
        _ => {},
    }
}

/// What is said of the record: so many converted out of so many attempts, or that there were none.
pub proof fn the_record_counts_conversions_out_of_attempts(attempts: u64, achieved: u64)
    ensures
        attempts == 0 ==> record_text(attempts, achieved) == "Not attempted yet."@,
        attempts == 1 ==> record_text(attempts, achieved) == "Converted "@ + decimal(
            achieved as nat,
        ) + " of "@ + decimal(1) + " attempt"@ + ""@ + "."@,
        attempts > 1 ==> record_text(attempts, achieved) == "Converted "@ + decimal(achieved as nat)
            + " of "@ + decimal(attempts as nat) + " attempt"@ + "s"@ + "."@,
{
}

/// A click picks up a piece of the player's own and no other; a second click on it puts it down,
/// and one on another square moves it there. While the engine thinks, and once the endgame has been
/// judged, a click does nothing. A pawn that has a choice to make raises the picker before it moves.
pub proof fn a_click_picks_up_or_moves(
    view: EndgameTab,
    square: Square,
    choices: Seq<Role>,
    spot: Spot,
    found: Option<FoundModel>,
)
    ensures
        ({
            let after = after_click(view, square, choices, spot, found);
            let own = view.game matches Some(game) && (crate::rules::piece_on(
                game.fen,
                square,
            ) matches Some(piece) && piece.color == game.player);
            &&& view.thinking || view.settled ==> after == view
            &&& !view.thinking && !view.settled && view.board.selected is None ==> {
                &&& own ==> after.board.selected == Some(square)
                &&& !own ==> after.board.selected is None
                &&& after.game == view.game
                &&& after.outbox == view.outbox
            }
            &&& !view.thinking && !view.settled && view.board.selected == Some(square) ==> {
                &&& after.board.selected is None
                &&& after.game == view.game
                &&& after.outbox == view.outbox
            }
            &&& view.board.selected matches Some(from) ==> from != square && !view.thinking
                && !view.settled ==> {
                &&& choices.len() <= 1 ==> after == after_play(
                    EndgameTab { board: BoardModel { selected: None, ..view.board }, ..view },
                    from,
                    square,
                    found,
                )
                &&& choices.len() > 1 && view.game is Some ==> after.promotion == Some(
                    (from, square),
                ) && after.game == view.game && after.outbox == view.outbox
            }
        }),
{
}

/// A pawn that has a choice to make raises the picker before anything is played; a piece that the
/// picker offers then plays the move that it was asked about, and one that it does not offer changes
/// nothing. A move of the engine's that cannot be played changes nothing but what is said.
pub proof fn a_promotion_waits_for_its_piece(
    view: EndgameTab,
    from: Square,
    to: Square,
    choices: Seq<Role>,
    spot: Spot,
    role: Role,
    found: Option<FoundModel>,
    uci: Seq<char>,
)
    requires
        !view.thinking,
        !view.settled,
        view.game is Some,
        choices.len() > 1,
        spot.width > 0 && spot.height > 0,
    ensures
        ({
            let asked = after_move(view, from, to, choices, spot, found);
            let chosen = after_choice(asked, role, found);
            &&& asked.promotion == Some((from, to))
            &&& asked.game == view.game
            &&& asked.outbox == view.outbox
            &&& asked.board.picker is Some
            &&& asked.board.picker->0.color == view.game->0.player
            &&& !choices.contains(role) ==> chosen == asked
            &&& choices.contains(role) ==> chosen == after_play(
                EndgameTab { board: BoardModel { picker: None, ..asked.board }, ..asked },
                from,
                to,
                found,
            )
        }),
        ({
            let after = after_engine(view, uci, None);
            &&& after.game == view.game
            &&& after.board == view.board
            &&& after.outbox == view.outbox
            &&& !after.thinking
        }),
{
    crate::board::the_picker_offers_what_can_be_chosen(
        view.board,
        to,
        crate::exercise::plays_white(view.game),
        choices,
        spot,
        role,
    );
}

/// The countdown shown is that of the game on the board, before and after every move: as many moves as
/// the game has left, for the endgame that is loaded.
pub proof fn the_countdown_shown_is_the_games(
    view: EndgameTab,
    from: Square,
    to: Square,
    found: FoundModel,
    played: PlayedModel,
)
    requires
        view.game matches Some(game) && game.turn == game.player,
        view.current < view.endgames.len(),
        found.played == Some(played),
        played.ended is None,
    ensures
        ({
            let after = after_play(view, from, to, Some(found));
            let objective = view.endgames[view.current as int].objective;
            &&& objective == Objective::Win ==> after.countdown == decimal(played.left as nat)
                + " moves before the fifty-move draw."@
            &&& objective == Objective::Draw ==> after.countdown == decimal(played.left as nat)
                + " moves to survive."@
            &&& after.current == view.current
            &&& after.endgames == view.endgames
        }),
        view.endgames[view.current as int].opened matches Some(opened) ==> {
            let after = begun(view);
            let objective = view.endgames[view.current as int].objective;
            &&& objective == Objective::Win ==> after.countdown == decimal(opened.left as nat)
                + " moves before the fifty-move draw."@
            &&& objective == Objective::Draw ==> after.countdown == decimal(opened.left as nat)
                + " moves to survive."@
        },
{
}

/// A new tab listens to its board and has the catalogue, but no game, no sitting and nothing said.
pub proof fn a_new_tab_waits_for_an_endgame(
    art: bool,
    has_engine: bool,
    endgames: Seq<EndgameModel>,
)
    ensures
        ({
            let fresh = fresh_tab(art, has_engine, endgames);
            &&& fresh.board.hears_moves && fresh.board.hears_drags
            &&& fresh.board == (BoardModel { hears_moves: true, hears_drags: true, ..fresh_board(art) })
            &&& fresh.has_engine == has_engine && fresh.endgames == endgames
            &&& fresh.game is None && fresh.sitting is None && fresh.promotion is None
            &&& !fresh.thinking && fresh.settled && fresh.current == 0 && fresh.left == 0
            &&& fresh.title == ""@ && fresh.objective == ""@ && fresh.idea == ""@
            &&& fresh.status == ""@ && fresh.record == ""@ && fresh.countdown == ""@
            &&& fresh.outbox.len() == 0
        }),
{
}

/// Choosing an endgame says what it asks; beginning it opens a sitting where there is none yet and
/// starts the clock. A refused move is told by its squares and the reason. The engine's move sounds, as a
/// capture exactly where it took something, and leaves the countdown at what the game then has left.
pub proof fn what_happens_is_said_and_heard(
    view: EndgameTab,
    index: nat,
    from: Square,
    to: Square,
    found: FoundModel,
    uci: Seq<char>,
    played: PlayedModel,
)
    requires
        found.played is None,
        played.ended is None,
        view.current < view.endgames.len(),
    ensures
        index < view.endgames.len() ==> described(view, index).objective == objective_text(
            view.endgames[index as int],
        ),
        view.endgames[view.current as int].opened is Some ==> {
            let after = begun(view);
            &&& after.status == "Your move. The engine defends at full strength."@
            &&& view.sitting is None ==> after.outbox == view.outbox.push(
                EffectModel::BeginSession(Activity::Endgame),
            ).push(EffectModel::ClearBanner).push(EffectModel::StartClock)
            &&& view.sitting is Some ==> after.outbox == view.outbox.push(
                EffectModel::ClearBanner,
            ).push(EffectModel::StartClock)
        },
        view.game matches Some(game) ==> {
            &&& game.turn == game.player ==> {
                &&& after_play(view, from, to, None).outbox == view.outbox.push(
                    EffectModel::Say(
                        Tone::Rejected,
                        crate::chess::square_name(from) + " to "@ + crate::chess::square_name(to)
                            + " is not a legal move here"@,
                    ),
                )
                &&& after_play(view, from, to, Some(found)).outbox == view.outbox.push(
                    EffectModel::Say(
                        Tone::Rejected,
                        crate::chess::square_name(from) + " to "@ + crate::chess::square_name(to)
                            + " cannot be played in this position"@,
                    ),
                )
            }
            &&& crate::rules::legal_in(game.fen, uci) ==> {
                let after = after_engine(view, uci, Some(played));
                &&& after.outbox == view.outbox.push(
                    EffectModel::Sound(
                        if crate::rules::captures_in(game.fen, uci) {
                            Cue::Capture
                        } else {
                            Cue::Move
                        },
                    ),
                )
                &&& view.endgames[view.current as int].objective == Objective::Win
                    ==> after.countdown == decimal(played.left as nat)
                    + " moves before the fifty-move draw."@
                &&& view.endgames[view.current as int].objective == Objective::Draw
                    ==> after.countdown == decimal(played.left as nat) + " moves to survive."@
                &&& after_engine(view, uci, None).status
                    == "The engine offered a move that is not legal here."@
            }
        },
{
}

/// Whatever index is asked for, an endgame of the catalogue is loaded, and it is the one asked
/// for where there is such a one.
pub proof fn the_picker_never_leaves_the_catalogue(view: EndgameTab, index: nat)
    requires
        view.endgames.len() > 0,
    ensures
        described(view, index).current < view.endgames.len(),
        index < view.endgames.len() ==> loaded(described(view, index))
            == view.endgames[index as int],
        described(view, index).endgames == view.endgames,
{
}

impl EndgameView {
    /// The tab, with everything that can be practised.
    pub fn new(art: bool, has_engine: bool, endgames: Vec<Endgame>) -> (r: EndgameView)
        requires
            endgames@.len() > 0,
        ensures
            r@ == described(fresh_tab(art, has_engine, catalogue(endgames@)), 0),
    {
        let mut board = BoardView::new(art);
        board.connect_drag();
        board.connect_move();
        let mut view = EndgameView {
            board,
            has_engine,
            endgames,
            game: None,
            left: 0,
            current: 0,
            title: "".to_owned(),
            objective: "".to_owned(),
            idea: "".to_owned(),
            status: "".to_owned(),
            record: "".to_owned(),
            countdown: "".to_owned(),
            thinking: false,
            settled: true,
            sitting: None,
            promotion: None,
            outbox: Vec::new(),
        };
        proof {
            assert(effects(view.outbox@) =~= Seq::<EffectModel>::empty()) by {
                reveal(effects);
            }
        }
        view.describe(0);
        view
    }

    /// The endgame now loaded.
    fn entry(&self) -> (r: &Endgame)
        requires
            self@.endgames.len() > 0,
        ensures
            r@ == loaded(self@),
    {
        if self.current < self.endgames.len() {
            &self.endgames[self.current]
        } else {
            &self.endgames[self.endgames.len() - 1]
        }
    }

    /// Show what an endgame asks before it is started.
    pub fn describe(&mut self, index: usize)
        requires
            old(self)@.endgames.len() > 0,
        ensures
            final(self)@ == described(old(self)@, index as nat),
    {
        self.current = if index < self.endgames.len() {
            index
        } else {
            self.endgames.len() - 1
        };
        let (title, objective, idea, position) = self.describe_entry();
        self.title = title;
        self.objective = objective;
        self.idea = idea;
        match position {
            Some(fen) => {
                self.board.set_position(fen.as_str());
                self.board.set_orientation(Color::White);
            },
            None => {},
        }
        self.status = "".to_owned();
        self.countdown = "".to_owned();
        emit(&mut self.outbox, Effect::ReadRecord);
    }

    /// What is said of the endgame now loaded, and its position.
    fn describe_entry(&self) -> (r: (String, String, String, Option<String>))
        requires
            self@.endgames.len() > 0,
        ensures
            r.0@ == loaded(self@).name,
            r.1@ == objective_text(loaded(self@)),
            r.2@ == loaded(self@).idea,
            crate::text::opt_text(r.3) == loaded(self@).position,
    {
        let entry = self.entry();
        let objective = match entry.objective {
            Objective::Win => match entry.dtm {
                Some(dtm) => glue3(
                    "Win it — mate in ",
                    number(dtm as u64).as_str(),
                    " with best play",
                ),
                None => "Win it".to_owned(),
            },
            Objective::Draw => "Hold the draw".to_owned(),
        };
        let position = match &entry.position {
            Some(fen) => Some(fen.clone()),
            None => None,
        };
        (entry.name.clone(), objective, entry.idea.clone(), position)
    }

    /// The record of past attempts was read: how many there were, and how many of them reached
    /// what was asked.
    pub fn show_record(&mut self, attempts: u64, achieved: u64)
        ensures
            final(self)@ == (EndgameTab { record: record_text(attempts, achieved), ..old(self)@ }),
    {
        self.record = if attempts == 0 {
            "Not attempted yet.".to_owned()
        } else {
            let mut text = "Converted ".to_owned();
            crate::text::push_number(&mut text, achieved);
            text.append(" of ");
            crate::text::push_number(&mut text, attempts);
            text.append(" attempt");
            push_plural(&mut text, attempts);
            text.append(".");
            text
        };
    }

    /// A sitting was opened.
    pub fn session_opened(&mut self, id: i64)
        ensures
            final(self)@ == (EndgameTab { sitting: Some(id), ..old(self)@ }),
    {
        self.sitting = Some(id);
    }

    /// Begin the attempt.
    pub fn begin(&mut self)
        requires
            old(self)@.endgames.len() > 0,
        ensures
            final(self)@ == begun(old(self)@),
    {
        match self.opened() {
            Some((game, left)) => self.begin_game(game, left),
            None => {
                self.status = "This position could not be set up.".to_owned();
            },
        }
    }

    /// The endgame now loaded as a game, with its fifty-move budget.
    fn opened(&self) -> (r: Option<(GameState, u32)>)
        requires
            self@.endgames.len() > 0,
        ensures
            r is Some <==> loaded(self@).opened is Some,
            r matches Some(opened) ==> opened.0@ == loaded(self@).opened->0.game && opened.1
                == loaded(self@).opened->0.left,
    {
        match &self.entry().opened {
            Some(opened) => Some((opened.game.copy(), opened.left)),
            None => None,
        }
    }

    /// Begin playing a game out.
    fn begin_game(&mut self, game: GameState, left: u32)
        requires
            old(self)@.endgames.len() > 0,
        ensures
            final(self)@ == begun_with(old(self)@, game@, left),
    {
        self.board.set_position(game.fen.as_str());
        self.board.set_orientation(Color::White);
        self.board.set_last_move(None);
        self.board.set_mate(None);
        if self.sitting.is_none() {
            emit(&mut self.outbox, Effect::BeginSession(Activity::Endgame));
        }
        emit(&mut self.outbox, Effect::ClearBanner);
        emit(&mut self.outbox, Effect::StartClock);
        self.game = Some(game);
        self.left = left;
        self.settled = false;
        self.thinking = false;
        self.status = "Your move. The engine defends at full strength.".to_owned();
        self.update_countdown();
    }

    /// Say how much of the fifty-move budget is left.
    fn update_countdown(&mut self)
        requires
            old(self)@.endgames.len() > 0,
        ensures
            final(self)@ == counted(old(self)@),
    {
        self.countdown = if self.game.is_none() {
            "".to_owned()
        } else {
            match self.entry().objective {
                Objective::Win => glue2(
                    number(self.left as u64).as_str(),
                    " moves before the fifty-move draw.",
                ),
                Objective::Draw => glue2(number(self.left as u64).as_str(), " moves to survive."),
            }
        };
    }

    /// Clicking a piece and then where it should go. `choices`, `spot` and `found` are those of a
    /// move from the selected square to this one.
    pub fn on_square(
        &mut self,
        square: Square,
        choices: &Vec<Role>,
        spot: Spot,
        found: Option<FoundMove>,
    )
        requires
            old(self)@.endgames.len() > 0,
            crate::board::picker_fits(old(self)@.board, square, choices@, spot),
        ensures
            final(self)@ == after_click(
                old(self)@,
                square,
                choices@,
                spot,
                crate::exercise::opt_found(found),
            ),
    {
        if self.thinking || self.settled {
            return;
        }
        match self.board.selected() {
            None => {
                // Only own pieces can be picked up, or the first click selects an empty square
                // and the second looks like it did nothing.
                if has_own_piece(&self.game, square) {
                    self.board.select(Some(square));
                }
            },
            Some(from) => {
                self.board.select(None);
                if from != square {
                    self.play(from, square, choices, spot, found);
                }
            },
        }
    }

    /// The player's move, asking first when a pawn reaches the last rank. `choices` are the
    /// pieces that the pawn could become, `spot` the place of the target square on the screen,
    /// and `found` the legal move between the squares.
    pub fn play(
        &mut self,
        from: Square,
        to: Square,
        choices: &Vec<Role>,
        spot: Spot,
        found: Option<FoundMove>,
    )
        requires
            old(self)@.endgames.len() > 0,
            crate::board::picker_fits(old(self)@.board, to, choices@, spot),
        ensures
            final(self)@ == after_move(
                old(self)@,
                from,
                to,
                choices@,
                spot,
                crate::exercise::opt_found(found),
            ),
    {
        if self.thinking || self.settled {
            return;
        }
        if self.game.is_some() && choices.len() > 1 {
            let white = is_white(&self.game);
            self.board.ask_promotion(to, white, choices, spot);
            self.promotion = Some((from, to));
            return;
        }
        self.play_promoting(from, to, found);
    }

    /// A piece was chosen in the promotion picker.
    pub fn choose_promotion(&mut self, role: Role, found: Option<FoundMove>)
        requires
            old(self)@.endgames.len() > 0,
        ensures
            final(self)@ == after_choice(old(self)@, role, crate::exercise::opt_found(found)),
    {
        match self.promotion {
            Some((from, to)) => match self.board.click_promotion_choice(role) {
                Ok(_) => self.play_promoting(from, to, found),
                Err(_) => {},
            },
            None => {},
        }
    }

    /// The player's move, with nothing left to ask.
    fn play_promoting(&mut self, from: Square, to: Square, found: Option<FoundMove>)
        requires
            old(self)@.endgames.len() > 0,
        ensures
            final(self)@ == after_play(old(self)@, from, to, crate::exercise::opt_found(found)),
    {
        let capture = match &self.game {
            Some(game) => {
                // The player is always White in these, but the side is named rather than assumed.
                if game.turn != game.player {
                    return;
                }
                crate::rules::piece_at(game.fen.as_str(), to).is_some()
            },
            None => {
                return;
            },
        };
        match found {
            None => self.refuse(from, to, " is not a legal move here"),
            Some(found) => match found.played {
                None => self.refuse(from, to, " cannot be played in this position"),
                Some(played) => {
                    let ended = played.ended;
                    self.advance(from, to, capture, played);
                    if ended.is_some() {
                        self.judge(ended);
                    } else {
                        self.ask_engine();
                    }
                },
            },
        }
    }

    /// Refuse a move.
    fn refuse(&mut self, from: Square, to: Square, why: &str)
        ensures
            final(self)@ == refused(old(self)@, from, to, why@),
    {
        emit(&mut self.outbox, Effect::Say(Tone::Rejected, say_squares(from, to, why)));
    }

    /// Put the player's move on the board and in the log.
    fn advance(&mut self, from: Square, to: Square, capture: bool, played: Played)
        requires
            old(self)@.endgames.len() > 0,
        ensures
            final(self)@ == advanced(old(self)@, from, to, capture, played@),
    {
        self.board.set_position(played.game.fen.as_str());
        self.board.set_last_move(Some((from, to)));
        let cue = if capture {
            Cue::Capture
        } else {
            Cue::Move
        };
        emit(&mut self.outbox, Effect::Sound(cue));
        let (ply, uci) = last_played(&played.game);
        let subject = self.entry().key.clone();
        // The fifty-move budget is the thing under pressure in a conversion, so how much of it
        // was left is what makes the move readable later.
        let detail = crate::exercise::budget_text(played.left);
        self.game = Some(played.game);
        self.left = played.left;
        emit(
            &mut self.outbox,
            Effect::LogMove {
                sitting: self.sitting,
                activity: Activity::Endgame,
                subject,
                ply,
                uci,
                detail,
            },
        );
        self.update_countdown();
    }

    /// Judge the position if it has finished.
    fn judge(&mut self, ended: Option<Ended>)
        requires
            old(self)@.endgames.len() > 0,
        ensures
            final(self)@ == judged(old(self)@, ended),
    {
        let end = match ended {
            Some(end) => end,
            None => {
                return;
            },
        };
        let moves: u32 = match &self.game {
            Some(game) => game.moves.len() as u32,
            None => {
                return;
            },
        };
        if self.settled {
            return;
        }
        self.settled = true;
        let key = self.entry().key.clone();
        emit(&mut self.outbox, Effect::RecordEndgame { key, achieved: end.achieved, moves });
        let verdict = match (self.entry().objective, end.winner) {
            (Objective::Win, Some(Color::White)) => "Converted.",
            (Objective::Win, None) => "Drawn — the win was there and it got away. Try it again.",
            (Objective::Win, Some(_)) => "Lost a won position.",
            (Objective::Draw, None) => "Held.",
            (Objective::Draw, Some(Color::White)) => "Won a position that was only level.",
            (Objective::Draw, Some(_)) => {
                "Lost a position that was a draw. That is the one to study."
            },
        };
        self.status = verdict.to_owned();
        let tone = if end.achieved {
            Tone::Won
        } else {
            Tone::Lost
        };
        emit(&mut self.outbox, Effect::Say(tone, verdict.to_owned()));
        self.countdown = "".to_owned();
        emit(&mut self.outbox, Effect::ReadRecord);
    }

    /// Ask the engine for its move.
    fn ask_engine(&mut self)
        ensures
            final(self)@ == awaiting_engine(old(self)@),
    {
        if !self.has_engine {
            self.status = "No engine, so there is nothing to play against.".to_owned();
            return;
        }
        let request = match &self.game {
            Some(game) => Request::BestMove {
                fen: game.initial_fen.clone(),
                moves: copy_texts(&game.moves),
                millis: DEFENCE_MS,
            },
            None => {
                return;
            },
        };
        self.thinking = true;
        emit(&mut self.outbox, Effect::Ask(request));
    }

    /// The engine moved. `played` is the game after its move, where that could be played.
    pub fn engine_moved(&mut self, uci: &str, played: Option<Played>)
        requires
            old(self)@.endgames.len() > 0,
        ensures
            final(self)@ == after_engine(old(self)@, uci@, opt_played(played)),
    {
        self.thinking = false;
        match self.engine_squares(uci) {
            Some(moved) => match played {
                None => {
                    self.status = "The engine offered a move that is not legal here.".to_owned();
                },
                Some(played) => self.follow_engine(moved, played),
            },
            None => {},
        }
    }

    /// What a move of the engine does on the board.
    fn engine_squares(&self, uci: &str) -> (r: Option<Moved>)
        ensures
            r == match self@.game {
                Some(game) => crate::rules::moved_in(game.fen, uci@),
                None => None,
            },
    {
        match &self.game {
            Some(game) => crate::rules::moved(game.fen.as_str(), uci),
            None => None,
        }
    }

    /// Put the engine's move on the board.
    fn follow_engine(&mut self, moved: Moved, played: Played)
        requires
            old(self)@.endgames.len() > 0,
        ensures
            final(self)@ == followed(old(self)@, moved, played@),
    {
        let ended = played.ended;
        self.board.set_position(played.game.fen.as_str());
        match moved.from {
            Some(from) => self.board.set_last_move(Some((from, moved.to))),
            None => {},
        }
        let cue = if moved.capture {
            Cue::Capture
        } else {
            Cue::Move
        };
        emit(&mut self.outbox, Effect::Sound(cue));
        self.game = Some(played.game);
        self.left = played.left;
        self.update_countdown();
        self.judge(ended);
    }

    /// The engine stopped.
    pub fn engine_failed(&mut self, why: &str)
        ensures
            final(self)@ == (EndgameTab {
                thinking: false,
                status: "The engine stopped: "@ + why@,
                ..old(self)@
            }),
    {
        self.thinking = false;
        self.status = glue2("The engine stopped: ", why);
    }

    /// Take everything that is to be done.
    pub fn take_effects(&mut self) -> (r: Vec<Effect>)
        ensures
            effects(r@) == old(self)@.outbox,
            final(self)@ == (EndgameTab { outbox: Seq::empty(), ..old(self)@ }),
    {
        crate::effect::drain(&mut self.outbox)
    }
}

} // verus!
