//! Studying a game move by move, with the engine explaining as you go.
//!
//! Any recorded game works: your own, or the games of the masters. The engine evaluates the
//! position in front of you at a much deeper search than the bulk review uses, because here there
//! is exactly one position to think about and time to spend on it.

use crate::board::{fresh_board, BoardModel, BoardView};
use crate::chess::{Color, Square};
use crate::effect::{effects, emit, Activity, Effect, EffectModel};
use crate::engine_worker::{Request, RequestModel};
use crate::rules::{check_square, checked_king, san_line, to_san};
use crate::text::{
    copy_texts, decimal, first_words, first_words_of, glue2, glue3, glue4, glue5, joined, number,
    opt_text, push_number, texts,
};
use vstd::prelude::*;
use vstd::string::*;

verus! {

/// How deep the engine looks at a position being studied. Far deeper than the bulk review,
/// because there is one position and no hurry.
pub const STUDY_DEPTH: u32 = 22;

/// How many of a game's opening moves it is identified by in the log.
pub const SUBJECT_WORDS: usize = 6;

/// Who played a game, and how it ended.
pub struct Heading {
    pub white: String,
    pub black: String,
    pub result: String,
}

/// A point of a game being walked through.
pub struct Point {
    pub fen: String,
    pub turn: Color,
    pub last: Option<(Square, Square)>,
    /// The moves so far, in notation.
    pub played: Vec<String>,
    /// The moves so far, in the notation that engines read.
    pub moves: Vec<String>,
    /// The move that was played here.
    pub next_san: Option<String>,
    pub index: usize,
    pub total: usize,
    pub at_start: bool,
    pub at_end: bool,
    /// The opening that the moves so far make up, and its code.
    pub opening: Option<(String, String)>,
}

/// What the engine thinks a position is worth, from the side to move.
#[derive(Debug, Clone, Copy, PartialEq, Eq, Structural)]
pub enum Score {
    /// Hundredths of a pawn.
    Cp(i32),
    /// Moves to mate, negative where the side to move is mated.
    Mate(i32),
}

/// What the engine found in a position.
pub struct Analysis {
    pub score: Option<Score>,
    pub best_move: Option<String>,
    /// The line that the engine expects.
    pub pv: Vec<String>,
    pub depth: u32,
}

/// A step through a game.
#[derive(Debug, Clone, Copy, PartialEq, Eq, Structural)]
pub enum Step {
    Start,
    Back,
    Forward,
    End,
}

/// A key, as far as the study tab cares.
#[derive(Debug, Clone, Copy, PartialEq, Eq, Structural)]
pub enum WalkKey {
    Left,
    Right,
    Home,
    End,
    Other,
}

/// The step that a key makes.
pub open spec fn key_step(key: WalkKey) -> Option<Step> {
    match key {
        WalkKey::Left => Some(Step::Back),
        WalkKey::Right => Some(Step::Forward),
        WalkKey::Home => Some(Step::Start),
        WalkKey::End => Some(Step::End),
        WalkKey::Other => None,
    }
}

/// A key steps forward, back, to the start or to the end exactly where it is the key that points
/// there, and any other key does not step.
pub proof fn keys_step_where_they_point(key: WalkKey)
    ensures
        key_step(key) == Some(Step::Forward) <==> key == WalkKey::Right,
        key_step(key) == Some(Step::Back) <==> key == WalkKey::Left,
        key_step(key) == Some(Step::Start) <==> key == WalkKey::Home,
        key_step(key) == Some(Step::End) <==> key == WalkKey::End,
        key_step(key) is None <==> key == WalkKey::Other,
{
}

/// The step that a key makes. Arrow keys walk the game, which is how anyone reads through one.
pub fn step_for_key(key: WalkKey) -> (r: Option<Step>)
    ensures
        r == key_step(key),
{
    match key {
        WalkKey::Left => Some(Step::Back),
        WalkKey::Right => Some(Step::Forward),
        WalkKey::Home => Some(Step::Start),
        WalkKey::End => Some(Step::End),
        WalkKey::Other => None,
    }
}

/// The study tab.
pub struct StudyView {
    pub board: BoardView,
    pub has_engine: bool,
    /// The sitting these positions belong to.
    pub sitting: Option<i64>,
    /// Whether the position on the board is being timed. Dwell is the whole signal here: a study
    /// session has no right answers to score, only where the attention went.
    pub arrived: bool,
    pub games: Vec<Heading>,
    pub point: Option<Point>,
    /// The picker's lines.
    pub offered: Vec<String>,
    pub picker_visible: bool,
    pub heading: String,
    pub opening: String,
    pub evaluation: String,
    pub best: String,
    pub variation: String,
    pub moves: String,
    pub prev_sensitive: bool,
    pub next_sensitive: bool,
    /// Identifies the request for the position on the board, so a slow reply for a position
    /// already left behind is discarded instead of shown.
    pub token: u64,
    /// Whether the engine is busy. Only one request is ever outstanding: queueing one per
    /// keypress builds a backlog of answers nobody will ever see.
    pub busy: bool,
    /// Set when the board moved on while the engine was busy, so the position actually on screen
    /// is asked about as soon as it is free.
    pub pending: bool,
    pub outbox: Vec<Effect>,
}

/// What a [`StudyView`] holds.
pub struct StudyModel {
    pub board: BoardModel,
    pub has_engine: bool,
    pub sitting: Option<i64>,
    pub arrived: bool,
    pub games: Seq<Heading>,
    pub point: Option<Point>,
    pub offered: Seq<Seq<char>>,
    pub picker_visible: bool,
    pub heading: Seq<char>,
    pub opening: Seq<char>,
    pub evaluation: Seq<char>,
    pub best: Seq<char>,
    pub variation: Seq<char>,
    pub moves: Seq<char>,
    pub prev_sensitive: bool,
    pub next_sensitive: bool,
    pub token: u64,
    pub busy: bool,
    pub pending: bool,
    pub outbox: Seq<EffectModel>,
}

impl View for StudyView {
    type V = StudyModel;

    open spec fn view(&self) -> StudyModel {
        StudyModel {
            board: self.board@,
            has_engine: self.has_engine,
            sitting: self.sitting,
            arrived: self.arrived,
            games: self.games@,
            point: self.point,
            offered: texts(self.offered@),
            picker_visible: self.picker_visible,
            heading: self.heading@,
            opening: self.opening@,
            evaluation: self.evaluation@,
            best: self.best@,
            variation: self.variation@,
            moves: self.moves@,
            prev_sensitive: self.prev_sensitive,
            next_sensitive: self.next_sensitive,
            token: self.token,
            busy: self.busy,
            pending: self.pending,
            outbox: effects(self.outbox@),
        }
    }
}

/// A tab with no game to study.
pub open spec fn fresh_study(art: bool, has_engine: bool) -> StudyModel {
    StudyModel {
        board: fresh_board(art),
        has_engine,
        sitting: None,
        arrived: false,
        games: Seq::empty(),
        point: None,
        offered: Seq::empty(),
        picker_visible: false,
        heading: if has_engine {
            "Open a PGN to study it — your games, or anyone's."@
        } else {
            "No engine found. Install stockfish to study with analysis."@
        },
        opening: ""@,
        evaluation: ""@,
        best: ""@,
        variation: ""@,
        moves: ""@,
        prev_sensitive: false,
        next_sensitive: false,
        token: 0,
        busy: false,
        pending: false,
        outbox: Seq::empty(),
    }
}

/// A player's name, or a question mark for a player without one.
pub open spec fn named(name: Seq<char>) -> Seq<char> {
    if name.len() == 0 {
        "?"@
    } else {
        name
    }
}

/// A game's line in the picker.
pub open spec fn game_label(index: int, game: Heading) -> Seq<char> {
    decimal((index + 1) as nat) + ". "@ + named(game.white@) + " vs "@ + named(game.black@) + " · "@
        + game.result@
}

/// The picker's lines.
pub open spec fn game_labels(games: Seq<Heading>) -> Seq<Seq<char>> {
    Seq::new(games.len(), |i: int| game_label(i, games[i]))
}

/// Who is playing the game on the board.
pub open spec fn heading_text(game: Heading) -> Seq<char> {
    game.white@ + " vs "@ + game.black@ + " · "@ + game.result@
}

/// The first moves of the scoresheet, by pairs.
pub open spec fn sheet_upto(san: Seq<Seq<char>>, pairs: nat) -> Seq<char>
    decreases pairs,
{
    if pairs == 0 {
        ""@
    } else {
        let k = (pairs - 1) as nat;
        let first = sheet_upto(san, k) + decimal(pairs) + ". "@ + san[2 * k as int];
        if 2 * k + 1 < san.len() {
            first + " "@ + san[2 * k as int + 1] + "\n"@
        } else {
            first + "\n"@
        }
    }
}

/// The scoresheet, with the current point marked where it is the start.
pub open spec fn sheet_text(san: Seq<Seq<char>>, index: nat) -> Seq<char> {
    let sheet = sheet_upto(san, (san.len() + 1) / 2);
    if index == 0 {
        sheet + "(start)"@
    } else {
        sheet
    }
}

/// The opening that the moves so far make up.
pub open spec fn opening_text(opening: Option<(String, String)>) -> Seq<char> {
    match opening {
        Some((name, eco)) => name@ + " ("@ + eco@ + ")"@,
        None => ""@,
    }
}

/// The next of a row of numbers that runs round.
pub open spec fn next_token(token: u64) -> u64 {
    if token == u64::MAX {
        0
    } else {
        (token + 1) as u64
    }
}

/// The tab asking about the position on the board, unless the engine is already busy, in which
/// case it notes that it should be asked again the moment it is free.
pub open spec fn requesting(view: StudyModel) -> StudyModel {
    if !view.has_engine {
        view
    } else if view.busy {
        StudyModel { pending: true, ..view }
    } else {
        match view.point {
            Some(point) => StudyModel {
                token: next_token(view.token),
                busy: true,
                pending: false,
                outbox: view.outbox.push(question(point, next_token(view.token))),
                ..view
            },
            None => view,
        }
    }
}

/// The tab with a point of the game drawn.
pub open spec fn drawn(view: StudyModel, point: Point) -> StudyModel {
    StudyModel {
        board: BoardModel {
            orientation: Color::White,
            pieces: crate::rules::placement_of(point.fen@),
            last_move: point.last,
            check: checked_king(point.fen@),
            ..view.board
        },
        prev_sensitive: !point.at_start,
        next_sensitive: !point.at_end,
        moves: sheet_text(texts(point.played@), point.index as nat),
        opening: opening_text(point.opening),
        evaluation: "Move "@ + decimal(point.index as nat) + " of "@ + decimal(point.total as nat),
        best: match point.next_san {
            Some(san) => "Played here: "@ + san@,
            None => "End of the game."@,
        },
        variation: if view.has_engine {
            "Thinking…"@
        } else {
            ""@
        },
        point: Some(point),
        ..view
    }
}

/// The tab at a point of the game, with the engine asked what it thinks of it.
pub open spec fn refreshed(view: StudyModel, point: Point) -> StudyModel {
    requesting(drawn(view, point))
}

/// The tab with a game opened.
pub open spec fn opened(view: StudyModel, game: Heading, point: Point) -> StudyModel {
    refreshed(
        StudyModel {
            heading: heading_text(game),
            arrived: true,
            outbox: (if view.sitting is None {
                view.outbox.push(EffectModel::BeginSession(Activity::Study))
            } else {
                view.outbox
            }).push(EffectModel::StartClock),
            ..view
        },
        point,
    )
}

/// How replaying a game went.
pub enum Replay {
    Ready(Point),
    Failed(String),
}

/// The tab after a game was picked.
pub open spec fn game_loaded(view: StudyModel, index: int, replay: Replay) -> StudyModel {
    if 0 <= index < view.games.len() {
        match replay {
            Replay::Ready(point) => opened(view, view.games[index], point),
            Replay::Failed(why) => StudyModel {
                heading: "Could not replay it: "@ + why@,
                ..view
            },
        }
    } else {
        view
    }
}

/// The tab after a file was read.
pub open spec fn file_loaded(view: StudyModel, games: Seq<Heading>, replay: Replay) -> StudyModel {
    if games.len() == 0 {
        StudyModel { heading: "No playable games in that file."@, ..view }
    } else {
        game_loaded(
            StudyModel {
                offered: game_labels(games),
                picker_visible: games.len() > 1,
                games,
                ..view
            },
            0,
            replay,
        )
    }
}

/// The direction of a step, as the log keeps it.
pub open spec fn direction(step: Step) -> Seq<char> {
    match step {
        Step::Forward => "forward"@,
        Step::Back => "back"@,
        Step::Start => "start"@,
        Step::End => "end"@,
    }
}

/// The tab with the time spent at the point being left written down.
pub open spec fn dwell_logged(view: StudyModel, step: Step) -> StudyModel {
    let effect = match (view.arrived, view.sitting, view.point) {
        (true, Some(sitting), Some(point)) => EffectModel::LogMove {
            sitting: Some(sitting),
            activity: Activity::Study,
            subject: first_words_of(joined(texts(point.played@), " "@), SUBJECT_WORDS as int),
            ply: point.index as u32,
            uci: if point.moves@.len() > 0 {
                point.moves@.last()@
            } else {
                ""@
            },
            detail: "{\"direction\":\""@ + direction(step) + "\"}"@,
        },
        _ => EffectModel::StartClock,
    };
    StudyModel { arrived: true, outbox: view.outbox.push(effect), ..view }
}

/// The tab after a step through the game, which leads to `after`.
pub open spec fn stepped(view: StudyModel, step: Step, after: Point) -> StudyModel {
    let logged = dwell_logged(view, step);
    if view.point is None {
        logged
    } else {
        refreshed(logged, after)
    }
}

/// What a position is worth, from White's point of view, as every chess book does, rather than
/// from whoever happens to be moving.
pub open spec fn score_text(score: Score, mover: Color) -> Seq<char> {
    match score {
        Score::Mate(n) => {
            let n = if mover == Color::White {
                n as int
            } else {
                -(n as int)
            };
            if n >= 0 {
                "Mate in "@ + decimal(n as nat) + " for White"@
            } else {
                "Mate in "@ + decimal((-n) as nat) + " for Black"@
            }
        },
        Score::Cp(cp) => pawns_text(
            if mover == Color::White {
                cp as int
            } else {
                -(cp as int)
            },
        ),
    }
}

/// Hundredths of a pawn in pawns, with a sign; level where it is nearly so.
pub open spec fn pawns_text(cp: int) -> Seq<char> {
    let size = if cp < 0 {
        -cp
    } else {
        cp
    };
    if size < 15 {
        "Level"@
    } else {
        (if cp < 0 {
            "-"@
        } else {
            "+"@
        }) + decimal((size / 100) as nat) + "."@ + decimal(((size / 10) % 10) as nat) + decimal(
            (size % 10) as nat,
        )
    }
}

/// The engine's choice beside the move that was played.
pub open spec fn choice_text(played: Option<Seq<char>>, choice: Option<Seq<char>>) -> Seq<char> {
    let shown = match choice {
        Some(san) => san,
        None => ""@,
    };
    match played {
        Some(played) => if choice == Some(played) {
            played + " — the engine's choice too."@
        } else {
            "Played: "@ + played + "    Engine prefers: "@ + shown
        },
        None => "Engine prefers: "@ + shown,
    }
}

/// The line that the engine expects.
pub open spec fn variation_text(depth: u32, line: Seq<Seq<char>>) -> Seq<char> {
    if line.len() == 0 {
        ""@
    } else {
        "depth "@ + decimal(depth as nat) + " · "@ + joined(line, " "@)
    }
}

/// The first of some strings.
pub open spec fn first_of(line: Seq<Seq<char>>) -> Option<Seq<char>> {
    if line.len() > 0 {
        Some(line[0])
    } else {
        None
    }
}

/// The tab with what the engine found.
pub open spec fn explained(view: StudyModel, analysis: Analysis) -> StudyModel {
    match view.point {
        None => view,
        Some(point) => StudyModel {
            evaluation: match analysis.score {
                Some(score) => score_text(score, point.turn),
                None => view.evaluation,
            },
            best: match analysis.best_move {
                Some(best) => choice_text(
                    opt_text(point.next_san),
                    first_of(san_line(point.fen@, seq![best@])),
                ),
                None => view.best,
            },
            variation: variation_text(
                analysis.depth,
                san_line(point.fen@, texts(analysis.pv@)),
            ),
            ..view
        },
    }
}

/// The tab after the engine answered. An answer about a position already left behind is not
/// shown: the board has moved on since the question where another one waits to be put.
pub open spec fn after_evaluation(view: StudyModel, token: u64, analysis: Analysis) -> StudyModel {
    let free = StudyModel { busy: false, ..view };
    let shown = if token == view.token && !view.pending {
        explained(free, analysis)
    } else {
        free
    };
    if shown.pending {
        requesting(shown)
    } else {
        shown
    }
}

/// Whether a score can be stated: its opposite must be a number too.
pub open spec fn statable(analysis: Analysis) -> bool {
    analysis.score matches Some(Score::Mate(n)) ==> n > i32::MIN
}

/// The same evaluation is said of the same position whoever is to move: a score for Black reads
/// as its opposite for White.
pub proof fn evaluations_do_not_depend_on_the_mover(cp: i32, opposite: i32)
    requires
        opposite == -(cp as int),
    ensures
        score_text(Score::Cp(cp), Color::White) == score_text(Score::Cp(opposite), Color::Black),
        score_text(Score::Mate(cp), Color::White) == score_text(
            Score::Mate(opposite),
            Color::Black,
        ),
{
}

/// Nearly equal is called level, from either side.
pub proof fn near_equality_is_level(cp: i32, mover: Color)
    ensures
        -15 < cp < 15 ==> score_text(Score::Cp(cp), mover) == "Level"@,
{
}

/// Only one question is ever outstanding: while the engine is busy nothing more is asked, and
/// what was put off is asked as soon as it is free.
pub proof fn only_one_question_is_outstanding(view: StudyModel, token: u64, analysis: Analysis)
    ensures
        view.busy ==> requesting(view).outbox == view.outbox,
        view.busy && view.has_engine ==> requesting(view).pending,
        !view.busy && view.has_engine && view.point is Some ==> requesting(view).busy && requesting(
            view,
        ).outbox.len() == view.outbox.len() + 1,
        view.pending && view.has_engine && view.point is Some ==> {
            let after = after_evaluation(view, token, analysis);
            &&& after.busy
            &&& !after.pending
            &&& after.outbox.len() == view.outbox.len() + 1
        },
{
}

/// What the tab says of a position: its evaluation, the engine's choice and the expected line.
pub open spec fn said(view: StudyModel) -> (Seq<char>, Seq<char>, Seq<char>) {
    (view.evaluation, view.best, view.variation)
}

/// The question about a point of the game, under a number.
pub open spec fn question(point: Point, token: u64) -> EffectModel {
    EffectModel::Ask(
        RequestModel::Evaluate {
            fen: crate::exercise::start_position(),
            moves: texts(point.moves@),
            depth: STUDY_DEPTH,
            token,
        },
    )
}

/// The answer to the question outstanding is not shown once the reader has stepped on: what is
/// said of the position stepped to stays as it was, and that position is asked about instead,
/// once.
pub proof fn an_answer_about_a_position_left_behind_is_dropped(
    view: StudyModel,
    step: Step,
    after: Point,
    analysis: Analysis,
)
    requires
        view.has_engine,
        view.busy,
        view.point is Some,
    ensures
        ({
            let moved = stepped(view, step, after);
            let now = after_evaluation(moved, view.token, analysis);
            &&& said(now) == said(moved)
            &&& now.point == Some(after)
            &&& now.outbox == moved.outbox.push(question(after, now.token))
            &&& now.busy
            &&& !now.pending
        }),
{
}

/// The same holds of another game: the answer to the question outstanding is not shown once
/// another game has been opened.
pub proof fn an_answer_about_a_game_left_behind_is_dropped(
    view: StudyModel,
    index: int,
    after: Point,
    analysis: Analysis,
)
    requires
        view.has_engine,
        view.busy,
        0 <= index < view.games.len(),
    ensures
        ({
            let moved = game_loaded(view, index, Replay::Ready(after));
            let now = after_evaluation(moved, view.token, analysis);
            &&& said(now) == said(moved)
            &&& now.point == Some(after)
            &&& now.outbox == moved.outbox.push(question(after, now.token))
            &&& now.busy
            &&& !now.pending
        }),
{
}

/// An answer is shown only where it answers the last question put and the board has not moved on
/// since.
pub proof fn a_stale_evaluation_is_not_shown(view: StudyModel, token: u64, analysis: Analysis)
    requires
        token != view.token || view.pending,
    ensures
        said(after_evaluation(view, token, analysis)) == said(view),
{
}

/// The answer to the question outstanding is shown where the board has stayed.
pub proof fn an_answer_about_the_board_is_shown(view: StudyModel, analysis: Analysis)
    requires
        !view.pending,
    ensures
        said(after_evaluation(view, view.token, analysis)) == said(explained(view, analysis)),
{
}

/// Every question has a number of its own, unlike the one before.
pub proof fn tokens_change(view: StudyModel)
    requires
        view.has_engine,
        !view.busy,
        view.point is Some,
    ensures
        requesting(view).token != view.token,
{
}

/// What the board of a tab shows: on every square the piece that the position of a point has there,
/// White at the bottom, with the point's move marked and its check.
pub open spec fn shows_point(view: StudyModel, point: Point) -> bool {
    &&& view.point == Some(point)
    &&& view.board.pieces == crate::rules::placement_of(point.fen@)
    &&& view.board.orientation == Color::White
    &&& view.board.last_move == point.last
    &&& view.board.check == checked_king(point.fen@)
}

/// After a game is opened, and after every step through it, the board shows the position of the
/// point that was opened or stepped to, square by square. Going on is offered exactly where the
/// game goes on, and going back exactly where something was played; nothing else of the board
/// changes, and an answer of the engine leaves it as it is.
pub proof fn the_board_shows_the_point(
    view: StudyModel,
    index: int,
    games: Seq<Heading>,
    step: Step,
    point: Point,
    token: u64,
    analysis: Analysis,
)
    ensures
        0 <= index < view.games.len() ==> {
            let after = game_loaded(view, index, Replay::Ready(point));
            &&& shows_point(after, point)
            &&& after.next_sensitive == !point.at_end
            &&& after.prev_sensitive == !point.at_start
            &&& after.heading == view.games[index].white@ + " vs "@ + view.games[index].black@
                + " · "@ + view.games[index].result@
        },
        games.len() > 0 ==> {
            let after = file_loaded(view, games, Replay::Ready(point));
            &&& shows_point(after, point)
            &&& after.next_sensitive == !point.at_end
            &&& after.prev_sensitive == !point.at_start
            &&& after.games == games
            &&& after.offered.len() == games.len()
            &&& after.picker_visible <==> games.len() > 1
            &&& after.heading == games[0].white@ + " vs "@ + games[0].black@ + " · "@
                + games[0].result@
        },
        view.point is Some ==> {
            let after = stepped(view, step, point);
            &&& shows_point(after, point)
            &&& after.next_sensitive == !point.at_end
            &&& after.prev_sensitive == !point.at_start
            &&& after.heading == view.heading
            &&& after.games == view.games
        },
        view.point is None ==> stepped(view, step, point).board == view.board,
        after_evaluation(view, token, analysis).board == view.board,
        after_evaluation(view, token, analysis).point == view.point,
{
}

/// The engine is asked about the very position on the board: the game from its start, move by move
/// as far as it has been stepped, to the depth that studying takes, under the number that the tab
/// then waits for. It is asked whenever a game is opened or stepped through while it is free.
pub proof fn the_engine_is_asked_about_the_board(
    view: StudyModel,
    index: int,
    step: Step,
    point: Point,
)
    requires
        view.has_engine,
        !view.busy,
    ensures
        0 <= index < view.games.len() ==> {
            let after = game_loaded(view, index, Replay::Ready(point));
            &&& after.busy
            &&& after.token != view.token
            &&& after.outbox.last() == EffectModel::Ask(
                RequestModel::Evaluate {
                    fen: "rnbqkbnr/pppppppp/8/8/8/8/PPPPPPPP/RNBQKBNR w KQkq - 0 1"@,
                    moves: texts(point.moves@),
                    depth: 22,
                    token: after.token,
                },
            )
        },
        view.point is Some ==> {
            let after = stepped(view, step, point);
            &&& after.busy
            &&& after.token != view.token
            &&& after.outbox.len() == view.outbox.len() + 2
            &&& after.outbox.last() == EffectModel::Ask(
                RequestModel::Evaluate {
                    fen: "rnbqkbnr/pppppppp/8/8/8/8/PPPPPPPP/RNBQKBNR w KQkq - 0 1"@,
                    moves: texts(point.moves@),
                    depth: 22,
                    token: after.token,
                },
            )
        },
{
}

/// What is said of a point: which of how many moves it is, what was played there, and that the game
/// ends where nothing was. The scoresheet is that of the moves played so far.
pub proof fn a_point_says_where_it_is(view: StudyModel, step: Step, point: Point)
    requires
        view.point is Some,
    ensures
        ({
            let after = stepped(view, step, point);
            &&& after.evaluation == "Move "@ + decimal(point.index as nat) + " of "@ + decimal(
                point.total as nat,
            )
            &&& point.next_san is None ==> after.best == "End of the game."@
            &&& point.next_san matches Some(san) ==> after.best == "Played here: "@ + san@
            &&& after.variation == if view.has_engine {
                "Thinking…"@
            } else {
                ""@
            }
            &&& point.opening is None ==> after.opening == ""@
            &&& point.opening matches Some((name, eco)) ==> after.opening == name@ + " ("@ + eco@
                + ")"@
            &&& after.moves == sheet_text(texts(point.played@), point.index as nat)
        }),
{
}

/// Leaving a point writes down how long it was looked at, under that point and not the next: its
/// place in the game, the move that led to it, and the way the reader went. It is written down only
/// where the time was being taken in a sitting.
pub proof fn leaving_a_point_is_written_down(
    view: StudyModel,
    step: Step,
    point: Point,
    sitting: i64,
    after: Point,
)
    requires
        view.point == Some(point),
    ensures
        ({
            let moved = stepped(view, step, after);
            let at = view.outbox.len() as int;
            &&& moved.outbox.len() > at
            &&& moved.outbox.take(at) == view.outbox
            &&& moved.arrived
            &&& view.arrived && view.sitting == Some(sitting) ==> (
            moved.outbox[at] matches EffectModel::LogMove {
                sitting: of,
                activity,
                ply,
                uci,
                detail,
                ..
            } && of == Some(sitting) && activity == Activity::Study && ply == point.index as u32 && {
                &&& point.moves@.len() > 0 ==> uci == point.moves@.last()@
                &&& step == Step::Forward ==> detail == "{\"direction\":\""@ + "forward"@ + "\"}"@
                &&& step == Step::Back ==> detail == "{\"direction\":\""@ + "back"@ + "\"}"@
                &&& step == Step::Start ==> detail == "{\"direction\":\""@ + "start"@ + "\"}"@
                &&& step == Step::End ==> detail == "{\"direction\":\""@ + "end"@ + "\"}"@
            })
            &&& !view.arrived || view.sitting is None ==> moved.outbox[at]
                == EffectModel::StartClock
        }),
{
    let logged = dwell_logged(view, step).outbox;
    let moved = stepped(view, step, after).outbox;
    assert(moved.take(view.outbox.len() as int) =~= view.outbox);
    assert(moved[view.outbox.len() as int] == logged[view.outbox.len() as int]);
}

/// The engine's choice is told to be the move that was played exactly where the two are one move,
/// and the two are set side by side where they differ.
pub proof fn the_engines_choice_stands_beside_the_move_played(
    played: Seq<char>,
    choice: Seq<char>,
)
    ensures
        played == choice ==> choice_text(Some(played), Some(choice)) == played
            + " — the engine's choice too."@,
        played != choice ==> choice_text(Some(played), Some(choice)) == "Played: "@ + played
            + "    Engine prefers: "@ + choice,
        choice_text(None, Some(choice)) == "Engine prefers: "@ + choice,
{
}

/// What the engine found is told of the position on the board: its score from the side to move
/// there, its choice in that position's own notation, and its line likewise, no further than it can
/// be played. What it did not find stays as it was said.
pub proof fn what_the_engine_found_is_told_of_the_board(
    view: StudyModel,
    point: Point,
    analysis: Analysis,
)
    requires
        view.point == Some(point),
        !view.pending,
    ensures
        ({
            let after = after_evaluation(view, view.token, analysis);
            &&& !after.busy
            &&& analysis.score matches Some(score) ==> after.evaluation == score_text(
                score,
                point.turn,
            )
            &&& analysis.score is None ==> after.evaluation == view.evaluation
            &&& analysis.best_move is None ==> after.best == view.best
            &&& analysis.best_move matches Some(best) ==> crate::rules::legal_in(
                point.fen@,
                best@,
            ) ==> after.best == choice_text(
                opt_text(point.next_san),
                Some(crate::rules::san_in(point.fen@, best@)),
            )
            &&& san_line(point.fen@, texts(analysis.pv@)).len() > 0 ==> after.variation == "depth "@
                + decimal(analysis.depth as nat) + " · "@ + joined(
                san_line(point.fen@, texts(analysis.pv@)),
                " "@,
            )
            &&& san_line(point.fen@, texts(analysis.pv@)).len() == 0 ==> after.variation == ""@
        }),
{
    match analysis.best_move {
        Some(best) => {
            let line = seq![best@];
            assert(line[0] == best@);
        },
        None => {},
    }
}

/// A score reads from White's side: it is for White, with a plus, exactly where it is in White's
/// favour, and for Black, with a minus, exactly where it is in Black's, whoever is to move.
pub proof fn a_score_reads_from_whites_side(n: i32, mover: Color)
    requires
        n > i32::MIN,
    ensures
        ({
            let white = if mover == Color::White {
                n as int
            } else {
                -(n as int)
            };
            &&& white >= 0 ==> score_text(Score::Mate(n), mover) == "Mate in "@ + decimal(
                white as nat,
            ) + " for White"@
            &&& white < 0 ==> score_text(Score::Mate(n), mover) == "Mate in "@ + decimal(
                (-white) as nat,
            ) + " for Black"@
            &&& white >= 15 ==> crate::text::begins(score_text(Score::Cp(n), mover), "+"@)
            &&& white <= -15 ==> crate::text::begins(score_text(Score::Cp(n), mover), "-"@)
            &&& -15 < white < 15 ==> score_text(Score::Cp(n), mover) == "Level"@
            &&& white >= 15 ==> score_text(Score::Cp(n), mover) == "+"@ + decimal(
                (white / 100) as nat,
            ) + "."@ + decimal(((white / 10) % 10) as nat) + decimal((white % 10) as nat)
            &&& white <= -15 ==> score_text(Score::Cp(n), mover) == "-"@ + decimal(
                ((-white) / 100) as nat,
            ) + "."@ + decimal((((-white) / 10) % 10) as nat) + decimal(((-white) % 10) as nat)
        }),
{
    let white = if mover == Color::White {
        n as int
    } else {
        -(n as int)
    };
    let size = if white < 0 {
        -white
    } else {
        white
    };
    let rest = decimal((size / 100) as nat) + "."@ + decimal(((size / 10) % 10) as nat) + decimal(
        (size % 10) as nat,
    );
    crate::text::begins_with_its_start("+"@, rest);
    crate::text::begins_with_its_start("-"@, rest);
    if size >= 15 {
        let sign = if white < 0 {
            "-"@
        } else {
            "+"@
        };
        assert(score_text(Score::Cp(n), mover) =~= sign + rest);
    }
}

/// The scoresheet gives the moves by pairs, numbered from one, White's before Black's: two more moves
/// are one more line, and a last move of White's stands alone.
pub proof fn the_scoresheet_goes_by_pairs(
    san: Seq<Seq<char>>,
    white: Seq<char>,
    black: Seq<char>,
)
    requires
        san.len() % 2 == 0,
    ensures
        ({
            let pairs = (san.len() / 2) as nat;
            &&& sheet_text(san.push(white), 1) == sheet_text(san, 1) + decimal(pairs + 1) + ". "@
                + white + "\n"@
            &&& sheet_text(san.push(white).push(black), 1) == sheet_text(san, 1) + decimal(
                pairs + 1,
            ) + ". "@ + white + " "@ + black + "\n"@
            &&& sheet_text(san, 0) == sheet_text(san, 1) + "(start)"@
        }),
{
    let pairs = (san.len() / 2) as nat;
    let one = san.push(white);
    let two = one.push(black);
    sheets_agree(san, one, pairs);
    sheets_agree(san, two, pairs);
    assert((san.len() + 1) / 2 == pairs);
    assert((one.len() + 1) / 2 == pairs + 1);
    assert((two.len() + 1) / 2 == pairs + 1);
    assert(one[2 * pairs as int] == white);
    assert(two[2 * pairs as int] == white && two[2 * pairs as int + 1] == black);
}

/// Scoresheets of games that begin alike begin alike.
proof fn sheets_agree(a: Seq<Seq<char>>, b: Seq<Seq<char>>, pairs: nat)
    requires
        2 * pairs <= a.len() <= b.len(),
        forall|i: int| 0 <= i < a.len() ==> a[i] == b[i],
    ensures
        sheet_upto(a, pairs) == sheet_upto(b, pairs),
    decreases pairs,
{
    if pairs > 0 {
        sheets_agree(a, b, (pairs - 1) as nat);
    }
}

/// A file without a game, a game that cannot be replayed and a game that is not there change nothing of
/// the board; the first two are said. Every game of a file has its line in the picker, at its own place,
/// with a player without a name marked as one.
pub proof fn a_game_that_cannot_be_opened_leaves_the_board(
    view: StudyModel,
    games: Seq<Heading>,
    index: int,
    replay: Replay,
    why: String,
)
    ensures
        file_loaded(view, Seq::empty(), replay) == (StudyModel {
            heading: "No playable games in that file."@,
            ..view
        }),
        0 <= index < view.games.len() ==> game_loaded(view, index, Replay::Failed(why)) == (
        StudyModel { heading: "Could not replay it: "@ + why@, ..view }),
        !(0 <= index < view.games.len()) ==> game_loaded(view, index, replay) == view,
        0 <= index < games.len() ==> {
            let offered = file_loaded(view, games, replay).offered;
            let game = games[index];
            &&& offered.len() == games.len()
            &&& game.white@.len() > 0 && game.black@.len() > 0 ==> offered[index] == decimal(
                (index + 1) as nat,
            ) + ". "@ + game.white@ + " vs "@ + game.black@ + " · "@ + game.result@
            &&& game.white@.len() == 0 && game.black@.len() > 0 ==> offered[index] == decimal(
                (index + 1) as nat,
            ) + ". "@ + "?"@ + " vs "@ + game.black@ + " · "@ + game.result@
            &&& game.white@.len() > 0 && game.black@.len() == 0 ==> offered[index] == decimal(
                (index + 1) as nat,
            ) + ". "@ + game.white@ + " vs "@ + "?"@ + " · "@ + game.result@
        },
{
}

/// A new tab has no game and no sitting, asks the engine nothing, and lets nobody step.
pub proof fn a_new_tab_waits_for_a_record(art: bool, has_engine: bool)
    ensures
        ({
            let fresh = fresh_study(art, has_engine);
            &&& fresh.board == fresh_board(art)
            &&& fresh.has_engine == has_engine
            &&& fresh.sitting is None && fresh.point is None && !fresh.arrived
            &&& fresh.games.len() == 0 && fresh.offered.len() == 0 && !fresh.picker_visible
            &&& !fresh.prev_sensitive && !fresh.next_sensitive
            &&& !fresh.busy && !fresh.pending
            &&& fresh.opening == ""@ && fresh.evaluation == ""@ && fresh.best == ""@
            &&& fresh.variation == ""@ && fresh.moves == ""@
            &&& fresh.outbox.len() == 0
        }),
{
}

/// Opening a game opens a sitting where there is none yet, and starts the clock of its first point;
/// a point that is left is written down under its game's first moves. While the engine is busy, or where
/// there is none, nothing is asked.
pub proof fn opening_a_game_starts_its_clock(
    view: StudyModel,
    index: int,
    point: Point,
    step: Step,
    after: Point,
)
    requires
        0 <= index < view.games.len(),
    ensures
        ({
            let opened = game_loaded(view, index, Replay::Ready(point));
            let at = view.outbox.len() as int;
            &&& opened.arrived
            &&& view.sitting is None ==> opened.outbox.len() >= at + 2 && opened.outbox[at]
                == EffectModel::BeginSession(Activity::Study) && opened.outbox[at + 1]
                == EffectModel::StartClock
            &&& view.sitting is Some ==> opened.outbox.len() >= at + 1 && opened.outbox[at]
                == EffectModel::StartClock
            &&& view.busy || !view.has_engine ==> opened.outbox.last() == EffectModel::StartClock
                && opened.token == view.token
            &&& view.busy && view.has_engine ==> opened.pending
        }),
        view.arrived && view.sitting is Some && view.point is Some ==> stepped(
            view,
            step,
            after,
        ).outbox[view.outbox.len() as int]->LogMove_subject == first_words_of(
            joined(texts(view.point->0.played@), " "@),
            6,
        ),
        fresh_study(true, true).heading == "Open a PGN to study it — your games, or anyone's."@,
        fresh_study(true, false).heading
            == "No engine found. Install stockfish to study with analysis."@,
{
}

impl StudyView {
    /// A tab with no game to study.
    pub fn new(art: bool, has_engine: bool) -> (r: StudyView)
        ensures
            r@ == fresh_study(art, has_engine),
    {
        let heading = if has_engine {
            "Open a PGN to study it — your games, or anyone's."
        } else {
            "No engine found. Install stockfish to study with analysis."
        };
        let view = StudyView {
            board: BoardView::new(art),
            has_engine,
            sitting: None,
            arrived: false,
            games: Vec::new(),
            point: None,
            offered: Vec::new(),
            picker_visible: false,
            heading: heading.to_owned(),
            opening: "".to_owned(),
            evaluation: "".to_owned(),
            best: "".to_owned(),
            variation: "".to_owned(),
            moves: "".to_owned(),
            prev_sensitive: false,
            next_sensitive: false,
            token: 0,
            busy: false,
            pending: false,
            outbox: Vec::new(),
        };
        assert(texts(view.offered@) =~= Seq::<Seq<char>>::empty());
        assert(view.games@ =~= Seq::<Heading>::empty());
        assert(effects(view.outbox@) =~= Seq::<EffectModel>::empty()) by {
            reveal(effects);
        }
        view
    }

    /// The file could not be read.
    pub fn unreadable(&mut self, why: &str)
        ensures
            final(self)@ == (StudyModel {
                heading: "Could not read that file: "@ + why@,
                ..old(self)@
            }),
    {
        self.heading = glue2("Could not read that file: ", why);
    }

    /// The file is not a record of games.
    pub fn unparsable(&mut self, why: &str)
        ensures
            final(self)@ == (StudyModel {
                heading: "Could not read that PGN: "@ + why@,
                ..old(self)@
            }),
    {
        self.heading = glue2("Could not read that PGN: ", why);
    }

    /// A file was read: the games in it, and how replaying the first of them went.
    pub fn load_file(&mut self, games: Vec<Heading>, replay: Replay)
        requires
            games@.len() < usize::MAX,
        ensures
            final(self)@ == file_loaded(old(self)@, games@, replay),
    {
        if games.len() == 0 {
            self.heading = "No playable games in that file.".to_owned();
        } else {
            self.offer_games(games);
            self.load_game(0, replay);
        }
    }

    /// List the games of a file.
    fn offer_games(&mut self, games: Vec<Heading>)
        requires
            games@.len() < usize::MAX,
        ensures
            final(self)@ == (StudyModel {
                offered: game_labels(games@),
                picker_visible: games@.len() > 1,
                games: games@,
                ..old(self)@
            }),
    {
        self.offered = list_games(&games);
        self.picker_visible = games.len() > 1;
        self.games = games;
    }

    /// A game was picked; `replay` says how replaying it went.
    pub fn load_game(&mut self, index: usize, replay: Replay)
        ensures
            final(self)@ == game_loaded(old(self)@, index as int, replay),
    {
        if index < self.games.len() {
            match replay {
                Replay::Ready(point) => {
                    let heading = {
                        let game = &self.games[index];
                        glue5(
                            game.white.as_str(),
                            " vs ",
                            game.black.as_str(),
                            " · ",
                            game.result.as_str(),
                        )
                    };
                    self.open_game(heading);
                    self.refresh(point);
                },
                Replay::Failed(why) => {
                    self.heading = glue2("Could not replay it: ", why.as_str());
                },
            }
        }
    }

    /// Name the game on the board, and start timing it.
    fn open_game(&mut self, heading: String)
        ensures
            final(self)@ == (StudyModel {
                heading: heading@,
                arrived: true,
                outbox: (if old(self)@.sitting is None {
                    old(self)@.outbox.push(EffectModel::BeginSession(Activity::Study))
                } else {
                    old(self)@.outbox
                }).push(EffectModel::StartClock),
                ..old(self)@
            }),
    {
        self.heading = heading;
        self.arrived = true;
        if self.sitting.is_none() {
            emit(&mut self.outbox, Effect::BeginSession(Activity::Study));
            emit(&mut self.outbox, Effect::StartClock);
        } else {
            emit(&mut self.outbox, Effect::StartClock);
        }
    }

    /// A sitting was opened.
    pub fn session_opened(&mut self, id: i64)
        ensures
            final(self)@ == (StudyModel { sitting: Some(id), ..old(self)@ }),
    {
        self.sitting = Some(id);
    }

    /// A step through the game, which leads to `after`.
    pub fn step(&mut self, step: Step, after: Point)
        ensures
            final(self)@ == stepped(old(self)@, step, after),
    {
        let walking = self.point.is_some();
        self.log_dwell(step);
        if walking {
            self.refresh(after);
        }
    }

    /// Record how long the position being left was looked at.
    ///
    /// There is nothing to score in study, no right answer and no clock, so attention is the
    /// measurement: which positions were sat with, and which were stepped straight past.
    fn log_dwell(&mut self, step: Step)
        ensures
            final(self)@ == dwell_logged(old(self)@, step),
    {
        let effect = self.dwell(step);
        self.arrived = true;
        emit(&mut self.outbox, effect);
    }

    /// What is to be written down of the point being left.
    fn dwell(&self, step: Step) -> (r: Effect)
        ensures
            dwell_logged(self@, step).outbox == self@.outbox.push(r@),
    {
        let way = match step {
            Step::Forward => "forward",
            Step::Back => "back",
            Step::Start => "start",
            Step::End => "end",
        };
        match (self.arrived, self.sitting, &self.point) {
            (true, Some(sitting), Some(point)) => {
                // The subject is the game; a whole move list would make the log unreadable, so it
                // is identified by its opening moves.
                let subject = first_words(
                    crate::text::join(&point.played, " ").as_str(),
                    SUBJECT_WORDS,
                );
                let count = point.moves.len();
                let uci = if count > 0 {
                    point.moves[count - 1].clone()
                } else {
                    "".to_owned()
                };
                Effect::LogMove {
                    sitting: Some(sitting),
                    activity: Activity::Study,
                    subject,
                    ply: point.index as u32,
                    uci,
                    detail: glue3("{\"direction\":\"", way, "\"}"),
                }
            },
            _ => Effect::StartClock,
        }
    }

    /// Redraw everything for the position now being looked at, and ask the engine what it thinks
    /// of it.
    fn refresh(&mut self, point: Point)
        ensures
            final(self)@ == refreshed(old(self)@, point),
    {
        self.draw(point);
        self.request_evaluation();
    }

    /// Draw a point of the game.
    fn draw(&mut self, point: Point)
        ensures
            final(self)@ == drawn(old(self)@, point),
    {
        self.board.set_orientation(Color::White);
        self.board.set_position(point.fen.as_str());
        self.board.set_last_move(point.last);
        self.board.set_check(check_square(point.fen.as_str()));
        self.prev_sensitive = !point.at_start;
        self.next_sensitive = !point.at_end;
        self.moves = format_moves(&point.played, point.index);
        self.opening = match &point.opening {
            Some((name, eco)) => glue4(name.as_str(), " (", eco.as_str(), ")"),
            None => "".to_owned(),
        };
        self.evaluation = glue4(
            "Move ",
            number(point.index as u64).as_str(),
            " of ",
            number(point.total as u64).as_str(),
        );
        self.best = match &point.next_san {
            Some(san) => glue2("Played here: ", san.as_str()),
            None => "End of the game.".to_owned(),
        };
        self.variation = if self.has_engine {
            "Thinking…".to_owned()
        } else {
            "".to_owned()
        };
        self.point = Some(point);
    }

    /// Ask about the position on the board, unless the engine is already busy, in which case note
    /// that it should be asked again the moment it is free.
    fn request_evaluation(&mut self)
        ensures
            final(self)@ == requesting(old(self)@),
    {
        if !self.has_engine {
            return;
        }
        if self.busy {
            self.pending = true;
            return;
        }
        // Tag the request so a reply for a position already left cannot be shown against this one.
        let token: u64 = if self.token == u64::MAX {
            0
        } else {
            self.token + 1
        };
        let request = match &self.point {
            Some(point) => Request::Evaluate {
                fen: crate::exercise::start_fen().to_owned(),
                moves: copy_texts(&point.moves),
                depth: 22,
                token,
            },
            None => {
                return;
            },
        };
        self.token = token;
        self.busy = true;
        self.pending = false;
        emit(&mut self.outbox, Effect::Ask(request));
    }

    /// The engine answered.
    pub fn evaluated(&mut self, token: u64, analysis: &Analysis)
        requires
            statable(*analysis),
        ensures
            final(self)@ == after_evaluation(old(self)@, token, *analysis),
    {
        self.busy = false;
        if token == self.token && !self.pending {
            self.show_evaluation(analysis);
            self.ask_again();
        } else {
            self.ask_again();
        }
    }

    /// Ask about the position on the board where that was put off.
    fn ask_again(&mut self)
        ensures
            final(self)@ == if old(self)@.pending {
                requesting(old(self)@)
            } else {
                old(self)@
            },
    {
        if self.pending {
            self.request_evaluation();
        }
    }

    /// Show what the engine found.
    fn show_evaluation(&mut self, analysis: &Analysis)
        requires
            statable(*analysis),
        ensures
            final(self)@ == explained(old(self)@, *analysis),
    {
        let (evaluation, best, variation) = match &self.point {
            Some(point) => (
                match analysis.score {
                    Some(score) => describe_score(score, point.turn),
                    None => self.evaluation.clone(),
                },
                match &analysis.best_move {
                    Some(best) => describe_best(point, best),
                    None => self.best.clone(),
                },
                describe_variation(analysis.depth, &to_san(point.fen.as_str(), &analysis.pv)),
            ),
            None => {
                return;
            },
        };
        self.evaluation = evaluation;
        self.best = best;
        self.variation = variation;
    }

    /// A request to the engine failed.
    pub fn engine_failed(&mut self, message: &str)
        ensures
            final(self)@ == (StudyModel {
                busy: false,
                variation: "Engine: "@ + message@,
                ..old(self)@
            }),
    {
        self.busy = false;
        self.variation = glue2("Engine: ", message);
    }

    /// Take everything that is to be done.
    pub fn take_effects(&mut self) -> (r: Vec<Effect>)
        ensures
            effects(r@) == old(self)@.outbox,
            final(self)@ == (StudyModel { outbox: Seq::empty(), ..old(self)@ }),
    {
        crate::effect::drain(&mut self.outbox)
    }
}

/// The picker's lines.
fn list_games(games: &Vec<Heading>) -> (r: Vec<String>)
    requires
        games@.len() < usize::MAX,
    ensures
        texts(r@) == game_labels(games@),
{
    let mut labels: Vec<String> = Vec::new();
    let mut i: usize = 0;
    while i < games.len()
        invariant
            i <= games.len(),
            games@.len() < usize::MAX,
            labels@.len() == i,
            forall|j: int| 0 <= j < i ==> (#[trigger] labels@[j])@ == game_label(j, games@[j]),
        decreases games.len() - i,
    {
        let game = &games[i];
        let mut label = glue5(
            number((i + 1) as u64).as_str(),
            ". ",
            name_or_mark(game.white.as_str()),
            " vs ",
            name_or_mark(game.black.as_str()),
        );
        label.append(" · ");
        label.append(game.result.as_str());
        labels.push(label);
        i += 1;
    }
    assert(texts(labels@) =~= game_labels(games@));
    labels
}

/// A player's name, or a question mark for a player without one.
fn name_or_mark(name: &str) -> (r: &str)
    ensures
        r@ == named(name@),
{
    if name.unicode_len() == 0 {
        "?"
    } else {
        name
    }
}

/// The engine's choice in a position, beside the move that was played there.
fn describe_best(point: &Point, best: &String) -> (r: String)
    ensures
        r@ == choice_text(
            opt_text(point.next_san),
            first_of(san_line(point.fen@, seq![best@])),
        ),
{
    let mut line: Vec<String> = Vec::new();
    line.push(best.clone());
    assert(texts(line@) =~= seq![best@]);
    let san = to_san(point.fen.as_str(), &line);
    let choice: Option<&String> = if san.len() > 0 {
        Some(&san[0])
    } else {
        None
    };
    describe_choice(&point.next_san, choice)
}

/// Say the engine's choice beside the move that was played.
pub fn describe_choice(played: &Option<String>, choice: Option<&String>) -> (r: String)
    ensures
        r@ == choice_text(
            opt_text(*played),
            match choice {
                Some(san) => Some(san@),
                None => None,
            },
        ),
{
    let shown = match choice {
        Some(san) => san.as_str(),
        None => "",
    };
    match played {
        Some(played) => {
            let same = match choice {
                Some(san) => *san == *played,
                None => false,
            };
            if same {
                glue2(played.as_str(), " — the engine's choice too.")
            } else {
                glue4("Played: ", played.as_str(), "    Engine prefers: ", shown)
            }
        },
        None => glue2("Engine prefers: ", shown),
    }
}

/// Say the line that the engine expects.
pub fn describe_variation(depth: u32, line: &Vec<String>) -> (r: String)
    ensures
        r@ == variation_text(depth, texts(line@)),
{
    if line.len() == 0 {
        "".to_owned()
    } else {
        glue4(
            "depth ",
            number(depth as u64).as_str(),
            " · ",
            crate::text::join(line, " ").as_str(),
        )
    }
}

/// State the evaluation from White's point of view, as every chess book does, rather than from
/// whoever happens to be moving.
pub fn describe_score(score: Score, mover: Color) -> (r: String)
    requires
        score matches Score::Mate(n) ==> n > i32::MIN,
    ensures
        r@ == score_text(score, mover),
{
    match score {
        Score::Mate(n) => {
            let n: i32 = if mover == Color::White {
                n
            } else {
                -n
            };
            if n >= 0 {
                glue3("Mate in ", number(n as u64).as_str(), " for White")
            } else {
                glue3("Mate in ", number((-n) as u64).as_str(), " for Black")
            }
        },
        Score::Cp(cp) => {
            let cp: i64 = if mover == Color::White {
                cp as i64
            } else {
                -(cp as i64)
            };
            let size: u64 = if cp < 0 {
                (-cp) as u64
            } else {
                cp as u64
            };
            if size < 15 {
                "Level".to_owned()
            } else {
                let mut text = if cp < 0 {
                    "-".to_owned()
                } else {
                    "+".to_owned()
                };
                push_number(&mut text, size / 100);
                text.append(".");
                push_number(&mut text, (size / 10) % 10);
                push_number(&mut text, size % 10);
                text
            }
        },
    }
}

/// The scoresheet, with the current point marked.
pub fn format_moves(san: &Vec<String>, index: usize) -> (r: String)
    ensures
        r@ == sheet_text(texts(san@), index as nat),
{
    let mut out = "".to_owned();
    let mut k: usize = 0;
    let len = san.len();
    while k < len - k
        invariant
            len == san@.len(),
            2 * k <= len + 1,
            k <= len,
            out@ == sheet_upto(texts(san@), k as nat),
        decreases len + 1 - 2 * k,
    {
        push_number(&mut out, k as u64 + 1);
        out.append(". ");
        out.append(san[2 * k].as_str());
        if 2 * k < len - 1 {
            out.append(" ");
            out.append(san[2 * k + 1].as_str());
        }
        out.append("\n");
        k += 1;
        assert(out@ =~= sheet_upto(texts(san@), k as nat));
    }
    assert(k == (len + 1) / 2);
    if index == 0 {
        out.append("(start)");
    }
    out
}

} // verus!
