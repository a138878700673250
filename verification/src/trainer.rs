//! The puzzle-solving tab: board, clock, and the record of each attempt.

use crate::board::{fresh_board, BoardModel, BoardView, Spot};
use crate::chess::{square_name, Color, Piece, Role, Square};
use crate::engine_worker::{Request, RequestModel};
use crate::numbers::{clock, clock_text, describe_wait, humanise, span_text, wait_text};
use crate::rules::{check_square, checked_king, mate_square, mated_king, moved_in, squares_moved};
use crate::text::{
    begins, begins_alike, begins_with_its_start, decimal, glue2, glue3, glue4, glue5, joined, number,
    opt_text, plural, push_number, push_plural, texts,
};
use vstd::prelude::*;
use vstd::string::*;

verus! {

/// How deep the refutation is searched. Deeper than a move in a game needs to be, because this
/// one is being explained rather than played, and the solver is no longer on a clock that counts.
pub const LESSON_DEPTH: u32 = 18;

/// Wrong moves before the answer is shown. The attempt already counts as failed by then, so there
/// is nothing left to protect.
pub const REVEAL_AFTER_MISSES: u32 = 2;

/// How many engine replies are handled at one look.
pub const LESSON_BUDGET: u32 = 16;

/// How long the result of a puzzle stays before the next one comes, in milliseconds.
pub const NEXT_PUZZLE_MS: u64 = 1_400;

/// How long a right and a wrong board-vision answer stay, in milliseconds.
pub const VISION_RIGHT_MS: u64 = 500;

pub const VISION_WRONG_MS: u64 = 2_200;

/// The three ways the tab works, in the order the picker lists them.
#[derive(Debug, Clone, Copy, PartialEq, Eq, Structural)]
pub enum Mode {
    Learn,
    Repeat,
    Vision,
}

/// The key that the store keeps a mode under.
pub open spec fn key_of(mode: Mode) -> Seq<char> {
    match mode {
        Mode::Learn => "learn"@,
        Mode::Repeat => "repeat"@,
        Mode::Vision => "vision"@,
    }
}

/// A mode's line in the picker.
pub open spec fn mode_title(mode: Mode) -> Seq<char> {
    match mode {
        Mode::Learn => "Learn"@,
        Mode::Repeat => "Repeat & measure"@,
        Mode::Vision => "Board vision"@,
    }
}

/// The mode at a place in the picker.
pub open spec fn mode_at(index: int) -> Mode {
    if index == 1 {
        Mode::Repeat
    } else if index == 2 {
        Mode::Vision
    } else {
        Mode::Learn
    }
}

/// A mode's place in the picker.
pub open spec fn place_of(mode: Mode) -> int {
    match mode {
        Mode::Learn => 0,
        Mode::Repeat => 1,
        Mode::Vision => 2,
    }
}

/// The mode that a key stands for. Whatever is not known is learning.
pub open spec fn mode_named(key: Seq<char>) -> Mode {
    if key == "repeat"@ {
        Mode::Repeat
    } else if key == "vision"@ {
        Mode::Vision
    } else {
        Mode::Learn
    }
}

impl Mode {
    /// The mode at a place in the picker.
    pub fn at(index: u32) -> (r: Mode)
        ensures
            r == mode_at(index as int),
    {
        match index {
            1 => Mode::Repeat,
            2 => Mode::Vision,
            _ => Mode::Learn,
        }
    }

    /// A mode's place in the picker.
    pub fn index(self) -> (r: u32)
        ensures
            r == place_of(self),
    {
        match self {
            Mode::Learn => 0,
            Mode::Repeat => 1,
            Mode::Vision => 2,
        }
    }

    /// The key that the store keeps a mode under.
    pub fn key(self) -> (r: &'static str)
        ensures
            r@ == key_of(self),
    {
        match self {
            Mode::Learn => "learn",
            Mode::Repeat => "repeat",
            Mode::Vision => "vision",
        }
    }

    /// A mode's line in the picker.
    pub fn title(self) -> (r: &'static str)
        ensures
            r@ == mode_title(self),
    {
        match self {
            Mode::Learn => "Learn",
            Mode::Repeat => "Repeat & measure",
            Mode::Vision => "Board vision",
        }
    }

    /// The mode that a key stands for.
    pub fn from_key(key: &String) -> (r: Mode)
        ensures
            r == mode_named(key@),
    {
        if *key == "repeat".to_owned() {
            Mode::Repeat
        } else if *key == "vision".to_owned() {
            Mode::Vision
        } else {
            Mode::Learn
        }
    }
}

/// A mode is found again by its key and by its place in the picker.
pub proof fn modes_are_found_again(mode: Mode)
    ensures
        mode_named(key_of(mode)) == mode,
        mode_at(place_of(mode)) == mode,
{
    reveal_strlit("learn");
    reveal_strlit("repeat");
    reveal_strlit("vision");
    assert("learn"@.len() == 5 && "repeat"@.len() == 6 && "vision"@.len() == 6);
    assert("repeat"@[0] != "vision"@[0]);
}

/// Which answer button was pressed. The pair means light and dark on one rung and yes and no on
/// another, so they are named by side rather than by meaning.
#[derive(Debug, Clone, Copy, PartialEq, Eq, Structural)]
pub enum VisionSide {
    A,
    B,
}

/// The answer to a board-vision question.
pub enum Answer {
    Light,
    Dark,
    Yes,
    No,
    Squares(Vec<Square>),
}

/// What an [`Answer`] says.
pub enum AnswerModel {
    Light,
    Dark,
    Yes,
    No,
    Squares(Seq<Square>),
}

impl View for Answer {
    type V = AnswerModel;

    open spec fn view(&self) -> AnswerModel {
        match self {
            Answer::Light => AnswerModel::Light,
            Answer::Dark => AnswerModel::Dark,
            Answer::Yes => AnswerModel::Yes,
            Answer::No => AnswerModel::No,
            Answer::Squares(squares) => AnswerModel::Squares(squares@),
        }
    }
}

/// The order of squares by their names: by file, and by rank within a file.
pub open spec fn name_order(square: Square) -> int {
    8 * crate::chess::file_index(square.file) + crate::chess::rank_index(square.rank)
}

/// A square put into its place among squares that stand in the order of their names.
pub open spec fn put_in_order(square: Square, rest: Seq<Square>) -> Seq<Square>
    decreases rest.len(),
{
    if rest.len() == 0 || name_order(rest.last()) <= name_order(square) {
        rest.push(square)
    } else {
        put_in_order(square, rest.drop_last()).push(rest.last())
    }
}

/// Squares in the order of their names.
pub open spec fn in_order(squares: Seq<Square>) -> Seq<Square>
    decreases squares.len(),
{
    if squares.len() == 0 {
        squares
    } else {
        put_in_order(squares.last(), in_order(squares.drop_last()))
    }
}

/// Whether squares stand in the order of their names.
pub open spec fn ordered(squares: Seq<Square>) -> bool {
    forall|i: int, j: int|
        0 <= i < j < squares.len() ==> name_order(#[trigger] squares[i]) <= name_order(
            #[trigger] squares[j],
        )
}

/// The names of some squares.
pub open spec fn names(squares: Seq<Square>) -> Seq<Seq<char>> {
    Seq::new(squares.len(), |i: int| square_name(squares[i]))
}

/// What the answer was, for the line under the board.
pub open spec fn answer_text(answer: AnswerModel) -> Seq<char> {
    match answer {
        AnswerModel::Light => "It is light."@,
        AnswerModel::Dark => "It is dark."@,
        AnswerModel::Yes => "Yes — it attacks it."@,
        AnswerModel::No => "No — it does not."@,
        AnswerModel::Squares(squares) => joined(names(in_order(squares)), " "@),
    }
}

/// The squares that an answer names.
pub open spec fn answer_squares(answer: AnswerModel) -> Seq<Square> {
    match answer {
        AnswerModel::Squares(squares) => squares,
        _ => Seq::empty(),
    }
}

/// Whether no square of a list comes behind a point of the order.
spec fn up_to(squares: Seq<Square>, bound: int) -> bool {
    forall|i: int| 0 <= i < squares.len() ==> name_order(#[trigger] squares[i]) <= bound
}

/// Putting a square into its place keeps the order, and adds that square and nothing else.
proof fn putting_in_order(square: Square, rest: Seq<Square>, bound: int)
    requires
        ordered(rest),
    ensures
        ordered(put_in_order(square, rest)),
        put_in_order(square, rest).to_multiset() =~= rest.to_multiset().insert(square),
        up_to(rest, bound) && name_order(square) <= bound ==> up_to(
            put_in_order(square, rest),
            bound,
        ),
    decreases rest.len(),
{
    broadcast use vstd::seq_lib::group_to_multiset_ensures;

    let whole = put_in_order(square, rest);
    if rest.len() == 0 || name_order(rest.last()) <= name_order(square) {
        assert forall|i: int, j: int| 0 <= i < j < whole.len() implies name_order(
            #[trigger] whole[i],
        ) <= name_order(#[trigger] whole[j]) by {
            assert(whole[i] == rest[i]);
            if j < rest.len() {
                assert(whole[j] == rest[j]);
            } else {
                assert(rest.last() == rest[rest.len() - 1]);
            }
        }
    } else {
        let shorter = rest.drop_last();
        let last = rest.last();
        assert(ordered(shorter));
        assert(up_to(shorter, name_order(last)));
        putting_in_order(square, shorter, name_order(last));
        putting_in_order(square, shorter, bound);
        assert(rest =~= shorter.push(last));
        let placed = put_in_order(square, shorter);
        assert(whole =~= placed.push(last));
        assert forall|i: int, j: int| 0 <= i < j < whole.len() implies name_order(
            #[trigger] whole[i],
        ) <= name_order(#[trigger] whole[j]) by {
            assert(whole[i] == placed[i]);
            if j < placed.len() {
                assert(whole[j] == placed[j]);
            }
        }
        if up_to(rest, bound) && name_order(square) <= bound {
            assert(up_to(shorter, bound)) by {
                assert forall|i: int| 0 <= i < shorter.len() implies name_order(
                    #[trigger] shorter[i],
                ) <= bound by {
                    assert(shorter[i] == rest[i]);
                }
            }
            assert forall|i: int| 0 <= i < whole.len() implies name_order(#[trigger] whole[i])
                <= bound by {
                if i < placed.len() {
                    assert(whole[i] == placed[i]);
                } else {
                    assert(last == rest[rest.len() - 1]);
                }
            }
        }
    }
}

/// The squares of an answer are named in order, each as often as it occurs in the answer and no
/// other.
pub proof fn answers_are_named_in_order(squares: Seq<Square>)
    ensures
        ordered(in_order(squares)),
        in_order(squares).to_multiset() =~= squares.to_multiset(),
    decreases squares.len(),
{
    broadcast use vstd::seq_lib::group_to_multiset_ensures;

    if squares.len() > 0 {
        answers_are_named_in_order(squares.drop_last());
        putting_in_order(squares.last(), in_order(squares.drop_last()), 0);
        assert(squares =~= squares.drop_last().push(squares.last()));
    }
}

/// A rung of the board-vision ladder.
pub struct Rung {
    pub key: String,
    pub label: String,
    /// Where it stands on the ladder, counted from 1.
    pub number: u64,
    /// Whether it asks for the colour of a square.
    pub colours: bool,
}

/// A rung's place on the ladder, counted from 1, given its place counted from 0. A rung that is
/// not on the ladder counts as the first.
pub fn rung_number(place: Option<usize>) -> (r: u64)
    requires
        place matches Some(place) ==> place < usize::MAX,
    ensures
        r == match place {
            Some(place) => place + 1,
            None => 1,
        },
{
    match place {
        Some(place) => place as u64 + 1,
        None => 1,
    }
}

/// A board-vision question in progress.
pub struct VisionDrill {
    pub rung: Rung,
    pub prompt: String,
    pub answer: Answer,
    /// Squares clicked so far, for the rungs answered by clicking.
    pub chosen: Vec<Square>,
}

/// What a [`VisionDrill`] holds.
pub struct VisionModel {
    pub rung: Rung,
    pub prompt: Seq<char>,
    pub answer: AnswerModel,
    pub chosen: Seq<Square>,
}

impl View for VisionDrill {
    type V = VisionModel;

    open spec fn view(&self) -> VisionModel {
        VisionModel {
            rung: self.rung,
            prompt: self.prompt@,
            answer: self.answer@,
            chosen: self.chosen@,
        }
    }
}

/// What an optional question holds.
pub open spec fn opt_vision(vision: Option<VisionDrill>) -> Option<VisionModel> {
    match vision {
        Some(vision) => Some(vision@),
        None => None,
    }
}

/// A puzzle being solved.
pub struct Current {
    pub id: String,
    pub rating: u32,
    /// The position to be solved now, and whose move it is.
    pub fen: String,
    pub turn: Color,
    /// The move that is expected, in the notation that engines read.
    pub expected: Option<String>,
    /// Which move of the solution is being answered.
    pub ply: u32,
    /// Set once a wrong move has been played; the attempt still finishes, but it is recorded as a
    /// failure.
    pub failed: bool,
    /// The clock does not run, and the position is not shown, until the solver says they are
    /// ready.
    pub started_solving: bool,
    /// Wrong moves so far, used to decide when to reveal the answer.
    pub misses: u32,
}

/// A puzzle to be solved.
pub struct Dealt {
    pub id: String,
    pub rating: u32,
    pub themes: Vec<String>,
    pub fen: String,
    pub turn: Color,
    pub expected: Option<String>,
}

/// What came of looking for the next puzzle.
pub enum NextPuzzle {
    Ready(Dealt),
    /// There is one, but it cannot be set up.
    Bad(String),
    /// There is none; where solved puzzles are being repeated, this is how long until the first
    /// is ready, in milliseconds.
    Nothing { repeating: bool, wait: Option<i64> },
    Failed(String),
}

/// What came of a move.
pub enum Outcome {
    Wrong,
    /// Right, and answered; the squares of the answer.
    Continued(Option<(Square, Square)>),
    Solved,
    Failed(String),
}

/// Where the puzzle stands after a move.
pub struct AttemptPoint {
    pub fen: String,
    pub turn: Color,
    pub expected: Option<String>,
}

/// The game that a puzzle was taken from.
pub struct Origin {
    pub played_at: i64,
    pub ply: u32,
    pub played: String,
    /// What it cost, in whole percent.
    pub cost: String,
    pub best: String,
}

/// How a sitting has gone: so many in, so much right early and late, in whole percent, and
/// whether the drop is large enough to speak of.
pub struct Fatigue {
    pub count: u64,
    pub early: String,
    pub late: String,
    pub turned: bool,
}

/// What became of an attempt that was handed in.
pub enum Submitted {
    Recorded {
        /// How long it took and the pace for its level, in seconds.
        seconds: String,
        baseline: String,
        grade: String,
        /// How long until it comes again, in seconds.
        due: i64,
        rating: String,
        band: String,
    },
    Failed(String),
}

/// What a mode's caption speaks of.
pub enum ModeNote {
    Vision { label: String, number: u64, asked: u64, right: u64 },
    Repeat { solved: u64 },
    Learn,
}

/// Something to be done.
pub enum Task {
    /// Keep the mode, and report what its caption speaks of.
    StoreMode(Mode),
    DescribeMode,
    /// Take down whatever is being said across the window.
    ClearBanner,
    /// Look for the next puzzle, now or after so many milliseconds.
    NextPuzzle,
    NextPuzzleAfter(u64),
    /// Deal a board-vision question, now or after so many milliseconds.
    DealVision,
    DealVisionAfter(u64),
    /// Judge an answer to the question that was on screen, and report the verdict.
    Judge { answer: Answer },
    /// Write down a board-vision answer, with the time it took, and report whether the rung has
    /// been climbed.
    RecordVision { rung: String, right: bool },
    /// Keep the rung that board vision asks from.
    StoreRung(String),
    /// Open a sitting.
    OpenSitting,
    /// Start the clock of the puzzle.
    StartTiming,
    /// Play a move in the puzzle, and report what came of it.
    OfferAttempt { uci: String },
    /// Write down a move, with the time since the last one.
    LogAttempt {
        id: String,
        ply: u32,
        played: String,
        expected: String,
        correct: bool,
        revealed: bool,
    },
    /// Hand the attempt in, with the time it took, and report what became of it.
    Submit { id: String, rating: u32, correct: bool },
    /// Hand a request to the engine thread, and report whether it took it.
    AskWhy(Request),
}

/// What a [`Task`] asks.
pub enum TaskModel {
    StoreMode(Mode),
    DescribeMode,
    ClearBanner,
    NextPuzzle,
    NextPuzzleAfter(u64),
    DealVision,
    DealVisionAfter(u64),
    Judge { answer: AnswerModel },
    RecordVision { rung: Seq<char>, right: bool },
    StoreRung(Seq<char>),
    OpenSitting,
    StartTiming,
    OfferAttempt { uci: Seq<char> },
    LogAttempt {
        id: Seq<char>,
        ply: u32,
        played: Seq<char>,
        expected: Seq<char>,
        correct: bool,
        revealed: bool,
    },
    Submit { id: Seq<char>, rating: u32, correct: bool },
    AskWhy(RequestModel),
}

impl View for Task {
    type V = TaskModel;

    open spec fn view(&self) -> TaskModel {
        match self {
            Task::StoreMode(mode) => TaskModel::StoreMode(*mode),
            Task::DescribeMode => TaskModel::DescribeMode,
            Task::ClearBanner => TaskModel::ClearBanner,
            Task::NextPuzzle => TaskModel::NextPuzzle,
            Task::NextPuzzleAfter(millis) => TaskModel::NextPuzzleAfter(*millis),
            Task::DealVision => TaskModel::DealVision,
            Task::DealVisionAfter(millis) => TaskModel::DealVisionAfter(*millis),
            Task::Judge { answer } => TaskModel::Judge { answer: answer@ },
            Task::RecordVision { rung, right } => TaskModel::RecordVision {
                rung: rung@,
                right: *right,
            },
            Task::StoreRung(rung) => TaskModel::StoreRung(rung@),
            Task::OpenSitting => TaskModel::OpenSitting,
            Task::StartTiming => TaskModel::StartTiming,
            Task::OfferAttempt { uci } => TaskModel::OfferAttempt { uci: uci@ },
            Task::LogAttempt { id, ply, played, expected, correct, revealed } => {
                TaskModel::LogAttempt {
                    id: id@,
                    ply: *ply,
                    played: played@,
                    expected: expected@,
                    correct: *correct,
                    revealed: *revealed,
                }
            },
            Task::Submit { id, rating, correct } => TaskModel::Submit {
                id: id@,
                rating: *rating,
                correct: *correct,
            },
            Task::AskWhy(request) => TaskModel::AskWhy(request@),
        }
    }
}

/// What some tasks ask, in order.
#[verifier::opaque]
pub open spec fn tasks(outbox: Seq<Task>) -> Seq<TaskModel> {
    Seq::new(outbox.len(), |i: int| outbox[i]@)
}

/// The training tab.
pub struct Trainer {
    pub board: BoardView,
    pub has_engine: bool,
    /// The mode that the picker shows.
    pub mode: Mode,
    /// The two answer buttons, and what they are labelled.
    pub vision_a: String,
    pub vision_b: String,
    pub two_way: bool,
    /// Whether the row of answer buttons shows at all.
    pub vision_row: bool,
    /// The drill on screen, when the tab is doing board vision.
    pub vision: Option<VisionDrill>,
    /// The drill that has been answered and is being judged.
    pub judging: Option<VisionDrill>,
    /// The drill that has been judged, until it is known what becomes of its rung.
    pub graded: Option<VisionDrill>,
    /// What the solver actually played here, once it can be shown.
    pub origin: String,
    pub origin_warning: bool,
    pub caption: String,
    pub start_visible: bool,
    pub start_sensitive: bool,
    /// Whether the solver has begun this session. Only the first puzzle waits for Start; after
    /// that the position and the clock appear together.
    pub session_started: bool,
    pub status: String,
    pub timer: String,
    pub detail: String,
    /// Why the last wrong move was wrong, once the engine has said.
    pub lesson: String,
    /// Identifies the position a refutation was asked about, so an answer that arrives after the
    /// solver has moved on is dropped rather than shown against a position it was never about.
    pub lesson_token: u64,
    /// Only one question is ever outstanding.
    pub lesson_busy: bool,
    /// How many refutations have been asked for.
    pub lesson_asks: u64,
    /// The position and the move the outstanding question is about.
    pub asked_about: Option<(String, String)>,
    pub current: Option<Current>,
    /// The puzzle that has been solved and is being handed in.
    pub handed_in: Option<Current>,
    /// The move that the promotion picker was raised for.
    pub promotion: Option<(Square, Square)>,
    pub outbox: Vec<Task>,
}

/// What a [`Trainer`] holds.
pub struct TrainerModel {
    pub board: BoardModel,
    pub has_engine: bool,
    pub mode: Mode,
    pub vision_a: Seq<char>,
    pub vision_b: Seq<char>,
    pub two_way: bool,
    pub vision_row: bool,
    pub vision: Option<VisionModel>,
    pub judging: Option<VisionModel>,
    pub graded: Option<VisionModel>,
    pub origin: Seq<char>,
    pub origin_warning: bool,
    pub caption: Seq<char>,
    pub start_visible: bool,
    pub start_sensitive: bool,
    pub session_started: bool,
    pub status: Seq<char>,
    pub timer: Seq<char>,
    pub detail: Seq<char>,
    pub lesson: Seq<char>,
    pub lesson_token: u64,
    pub lesson_busy: bool,
    pub lesson_asks: u64,
    pub asked_about: Option<(Seq<char>, Seq<char>)>,
    pub current: Option<Current>,
    pub handed_in: Option<Current>,
    pub promotion: Option<(Square, Square)>,
    pub outbox: Seq<TaskModel>,
}

impl View for Trainer {
    type V = TrainerModel;

    open spec fn view(&self) -> TrainerModel {
        TrainerModel {
            board: self.board@,
            has_engine: self.has_engine,
            mode: self.mode,
            vision_a: self.vision_a@,
            vision_b: self.vision_b@,
            two_way: self.two_way,
            vision_row: self.vision_row,
            vision: opt_vision(self.vision),
            judging: opt_vision(self.judging),
            graded: opt_vision(self.graded),
            origin: self.origin@,
            origin_warning: self.origin_warning,
            caption: self.caption@,
            start_visible: self.start_visible,
            start_sensitive: self.start_sensitive,
            session_started: self.session_started,
            status: self.status@,
            timer: self.timer@,
            detail: self.detail@,
            lesson: self.lesson@,
            lesson_token: self.lesson_token,
            lesson_busy: self.lesson_busy,
            lesson_asks: self.lesson_asks,
            asked_about: crate::drill_view::asked_text(self.asked_about),
            current: self.current,
            handed_in: self.handed_in,
            promotion: self.promotion,
            outbox: tasks(self.outbox@),
        }
    }
}

/// A tab that has shown nothing yet.
pub open spec fn fresh_trainer(art: bool, has_engine: bool, mode: Mode) -> TrainerModel {
    TrainerModel {
        board: BoardModel { hears_moves: true, hears_drags: true, ..fresh_board(art) },
        has_engine,
        mode,
        vision_a: "Light"@,
        vision_b: "Dark"@,
        two_way: true,
        vision_row: false,
        vision: None,
        judging: None,
        graded: None,
        origin: ""@,
        origin_warning: false,
        caption: ""@,
        start_visible: true,
        start_sensitive: true,
        session_started: false,
        status: "Loading…"@,
        timer: "0:00"@,
        detail: ""@,
        lesson: ""@,
        lesson_token: 0,
        lesson_busy: false,
        lesson_asks: 0,
        asked_about: None,
        current: None,
        handed_in: None,
        promotion: None,
        outbox: Seq::empty(),
    }
}

/// The tab with one more thing to be done.
pub open spec fn posting(view: TrainerModel, task: TaskModel) -> TrainerModel {
    TrainerModel { outbox: view.outbox.push(task), ..view }
}

/// The tab once the position that a refutation was asked about has been left: any answer still in
/// flight is retired, and no longer waited for.
pub open spec fn retired(view: TrainerModel) -> TrainerModel {
    TrainerModel {
        lesson: if view.lesson_busy {
            ""@
        } else {
            view.lesson
        },
        lesson_token: crate::drill_view::next_token(view.lesson_token),
        asked_about: None,
        ..view
    }
}

/// The tab clearing away what the last puzzle revealed and looking for the next. A refutation
/// belongs to the position it was asked about, so any answer still in flight is retired.
pub open spec fn looking(view: TrainerModel) -> TrainerModel {
    TrainerModel {
        origin: ""@,
        origin_warning: false,
        lesson: ""@,
        lesson_token: crate::drill_view::next_token(view.lesson_token),
        asked_about: None,
        outbox: view.outbox.push(TaskModel::ClearBanner).push(TaskModel::NextPuzzle),
        ..view
    }
}

/// The tab at the start.
pub open spec fn opened(art: bool, has_engine: bool, mode: Mode) -> TrainerModel {
    looking(posting(fresh_trainer(art, has_engine, mode), TaskModel::DescribeMode))
}

/// The tab switched to another mode.
pub open spec fn switched(view: TrainerModel, mode: Mode) -> TrainerModel {
    let kept = posting(
        posting(TrainerModel { mode, ..view }, TaskModel::StoreMode(mode)),
        TaskModel::DescribeMode,
    );
    if mode == Mode::Vision {
        posting(kept, TaskModel::DealVision)
    } else {
        looking(
            TrainerModel {
                vision: None,
                vision_row: false,
                board: BoardModel { marks: Seq::empty(), ..view.board },
                ..kept
            },
        )
    }
}

/// Whether an answer is one of two.
pub open spec fn is_two_way(answer: AnswerModel) -> bool {
    !(answer is Squares)
}

/// The tab with a board-vision question on screen.
pub open spec fn asking(
    view: TrainerModel,
    rung: Rung,
    prompt: Seq<char>,
    answer: AnswerModel,
    pieces: Seq<Option<Piece>>,
) -> TrainerModel {
    posting(
        TrainerModel {
            board: BoardModel {
                orientation: Color::White,
                pieces,
                marks: Seq::empty(),
                selected: None,
                last_move: None,
                check: None,
                mate: None,
                ..view.board
            },
            status: prompt,
            lesson: ""@,
            timer: ""@,
            start_visible: false,
            vision_a: if rung.colours {
                "Light"@
            } else {
                "Yes"@
            },
            vision_b: if rung.colours {
                "Dark"@
            } else {
                "No"@
            },
            two_way: is_two_way(answer),
            vision_row: true,
            vision: Some(VisionModel { rung, prompt, answer, chosen: Seq::empty() }),
            ..retired(view)
        },
        TaskModel::DescribeMode,
    )
}

/// What a button means on a rung.
pub open spec fn meaning(rung: Rung, side: VisionSide) -> AnswerModel {
    match side {
        VisionSide::A => if rung.colours {
            AnswerModel::Light
        } else {
            AnswerModel::Yes
        },
        VisionSide::B => if rung.colours {
            AnswerModel::Dark
        } else {
            AnswerModel::No
        },
    }
}

/// The tab with an answer given. The question leaves the screen with it.
pub open spec fn answered(view: TrainerModel, answer: AnswerModel) -> TrainerModel {
    match view.vision {
        Some(vision) => posting(
            TrainerModel { vision: None, judging: Some(vision), ..view },
            TaskModel::Judge { answer },
        ),
        None => view,
    }
}

/// The tab after an answer button.
pub open spec fn after_button(view: TrainerModel, side: VisionSide) -> TrainerModel {
    match view.vision {
        Some(vision) => answered(view, meaning(vision.rung, side)),
        None => view,
    }
}

/// The tab after the clicked squares were offered as the answer.
pub open spec fn after_commit(view: TrainerModel) -> TrainerModel {
    match view.vision {
        Some(vision) => answered(view, AnswerModel::Squares(vision.chosen)),
        None => view,
    }
}

/// Where a square first stands in a list, from a point on.
pub open spec fn first_place(squares: Seq<Square>, square: Square, from: int) -> int
    decreases squares.len() - from,
{
    if from >= squares.len() || squares[from] == square {
        from
    } else {
        first_place(squares, square, from + 1)
    }
}

/// A list with a square taken out where it was in, and put in where it was not.
pub open spec fn toggled(squares: Seq<Square>, square: Square) -> Seq<Square> {
    let at = first_place(squares, square, 0);
    if at < squares.len() {
        squares.remove(at)
    } else {
        squares.push(square)
    }
}

/// A square's first place lies within the list exactly where the list holds it.
proof fn first_place_bounds(squares: Seq<Square>, square: Square, from: int)
    requires
        0 <= from <= squares.len(),
    ensures
        from <= first_place(squares, square, from) <= squares.len(),
        first_place(squares, square, from) < squares.len() ==> squares[first_place(
            squares,
            square,
            from,
        )] == square,
        forall|i: int|
            from <= i < first_place(squares, square, from) ==> #[trigger] squares[i] != square,
    decreases squares.len() - from,
{
    if from < squares.len() && squares[from] != square {
        first_place_bounds(squares, square, from + 1);
    }
}

/// A second click on a square takes the first one back, and a click never marks a square twice.
pub proof fn a_second_click_takes_the_first_back(squares: Seq<Square>, square: Square)
    requires
        squares.no_duplicates(),
    ensures
        toggled(squares, square).no_duplicates(),
        toggled(squares, square).contains(square) <==> !squares.contains(square),
        !squares.contains(square) ==> toggled(toggled(squares, square), square) =~= squares,
        forall|other: Square|
            other != square ==> (toggled(squares, square).contains(other) <==> squares.contains(
                other,
            )),
{
    let at = first_place(squares, square, 0);
    first_place_bounds(squares, square, 0);
    let after = toggled(squares, square);
    first_place_bounds(after, square, 0);
    if at < squares.len() {
        assert(squares.contains(square));
        assert forall|other: Square| other != square && squares.contains(other) implies after.contains(
            other,
        ) by {
            let i = squares.index_of(other);
            if i < at {
                assert(after[i] == other);
            } else {
                assert(after[i - 1] == other);
            }
        }
    } else {
        assert(!squares.contains(square));
        assert(after[squares.len() as int] == square);
        assert forall|other: Square| other != square && squares.contains(other) implies after.contains(
            other,
        ) by {
            let i = squares.index_of(other);
            assert(after[i] == other);
        }
        let back = first_place(after, square, 0);
        if back < squares.len() {
            assert(squares[back] == after[back]);
        }
        assert(back == squares.len());
    }
}

/// The tab after a square was picked or unpicked.
pub open spec fn picked(view: TrainerModel, square: Square) -> TrainerModel {
    match view.vision {
        Some(vision) => {
            let chosen = toggled(vision.chosen, square);
            TrainerModel {
                vision: Some(VisionModel { chosen, ..vision }),
                board: BoardModel { marks: chosen, ..view.board },
                ..view
            }
        },
        None => view,
    }
}

/// The tab with an answer judged. It is written down on its own, never among the puzzles: a drill
/// answered in two seconds is not a puzzle solved in two seconds.
pub open spec fn judged(view: TrainerModel, right: bool, seconds: Seq<char>) -> TrainerModel {
    match view.judging {
        Some(vision) => TrainerModel {
            status: if right {
                "Right — "@ + seconds + "s"@
            } else {
                "Not that."@
            },
            board: if right {
                view.board
            } else {
                BoardModel { marks: answer_squares(vision.answer), ..view.board }
            },
            lesson: answer_text(vision.answer),
            judging: None,
            graded: Some(vision),
            outbox: view.outbox.push(
                TaskModel::RecordVision { rung: vision.rung.key@, right },
            ).push(
                TaskModel::DealVisionAfter(
                    if right {
                        VISION_RIGHT_MS
                    } else {
                        VISION_WRONG_MS
                    },
                ),
            ),
            ..view
        },
        None => view,
    }
}

/// The rung that board vision goes to after an answer: the one above where that has been earned,
/// the one below where it is time to give way, and none where it stays.
pub open spec fn next_rung(
    ready: bool,
    above: Option<Rung>,
    falling: bool,
    below: Option<Rung>,
) -> Option<Rung> {
    if ready && above is Some {
        above
    } else if falling {
        below
    } else {
        None
    }
}

/// The tab after it was looked up what becomes of the rung.
pub open spec fn climbed(
    view: TrainerModel,
    ready: bool,
    above: Option<Rung>,
    falling: bool,
    below: Option<Rung>,
) -> TrainerModel {
    match (view.graded, next_rung(ready, above, falling, below)) {
        (Some(vision), Some(next)) => TrainerModel {
            lesson: answer_text(vision.answer) + " — next: "@ + next.label@,
            graded: None,
            outbox: view.outbox.push(TaskModel::StoreRung(next.key@)),
            ..view
        },
        _ => TrainerModel { graded: None, ..view },
    }
}

/// An answer in board vision is written down once: judging it again adds nothing, and what becomes
/// of its rung is settled once.
pub proof fn a_vision_answer_is_written_down_once(
    view: TrainerModel,
    right: bool,
    seconds: Seq<char>,
    again: bool,
    later: Seq<char>,
    ready: bool,
    above: Option<Rung>,
    falling: bool,
    below: Option<Rung>,
)
    ensures
        judged(judged(view, right, seconds), again, later) == judged(view, right, seconds),
        ({
            let once = climbed(view, ready, above, falling, below);
            climbed(once, ready, above, falling, below) == once
        }),
        view.judging is Some ==> judged(view, right, seconds).outbox.len() == view.outbox.len() + 2
            && judged(view, right, seconds).outbox[view.outbox.len() as int] is RecordVision,
{
}

/// Board vision gives way: where it is time to fall and the rung has not been climbed, the rung
/// below is the next one asked from. Where it is neither time to fall nor to climb, it stays.
pub proof fn board_vision_gives_way(
    view: TrainerModel,
    ready: bool,
    above: Option<Rung>,
    falling: bool,
    below: Option<Rung>,
)
    requires
        view.graded is Some,
    ensures
        ({
            let after = climbed(view, ready, above, falling, below);
            &&& falling && !ready && below is Some ==> after.outbox == view.outbox.push(
                TaskModel::StoreRung(below->0.key@),
            )
            &&& ready && above is Some ==> after.outbox == view.outbox.push(
                TaskModel::StoreRung(above->0.key@),
            )
            &&& !falling && !ready ==> after.outbox == view.outbox
        }),
{
}

/// The tab when the next board-vision question is due. It comes only while that is still the mode.
pub open spec fn vision_due(view: TrainerModel, mode: Mode) -> TrainerModel {
    if mode == Mode::Vision {
        posting(view, TaskModel::DealVision)
    } else {
        view
    }
}

/// Which mode is on and what it does, said plainly.
pub open spec fn caption_text(note: ModeNote) -> Seq<char> {
    match note {
        ModeNote::Vision { label, number, asked, right } => if asked == 0 {
            label@ + " — "@ + decimal(number as nat) + " of 6."@
        } else {
            label@ + " — "@ + decimal(right as nat) + " of "@ + decimal(asked as nat) + " right."@
        },
        ModeNote::Repeat { solved } => "Re-testing "@ + decimal(solved as nat) + " solved puzzle"@
            + plural(solved as int) + " — these attempts are measured."@,
        ModeNote::Learn => {
            "New puzzles, rising in difficulty. Building repertoire; not measured."@
        },
    }
}

/// The puzzle of a deal, before anything has been done about it.
pub open spec fn unstarted(dealt: Dealt) -> Current {
    Current {
        id: dealt.id,
        rating: dealt.rating,
        fen: dealt.fen,
        turn: dealt.turn,
        expected: dealt.expected,
        ply: 0,
        failed: false,
        started_solving: false,
        misses: 0,
    }
}

/// The tab showing the position and timing it, in the same instant.
pub open spec fn revealing(view: TrainerModel) -> TrainerModel {
    match view.current {
        Some(current) => TrainerModel {
            current: Some(Current { started_solving: true, ..current }),
            board: BoardModel {
                pieces: crate::rules::placement_of(current.fen@),
                check: checked_king(current.fen@),
                ..view.board
            },
            start_visible: false,
            status: crate::chess::color_name(current.turn) + " to play"@,
            outbox: view.outbox.push(TaskModel::StartTiming),
            ..view
        },
        None => view,
    }
}

/// The tab with a puzzle in place, and nothing of it shown.
pub open spec fn placed(view: TrainerModel, dealt: Dealt) -> TrainerModel {
    TrainerModel {
        board: BoardModel {
            orientation: dealt.turn,
            pieces: Seq::new(64, |i: int| None),
            selected: None,
            last_move: None,
            check: None,
            mate: None,
            ..view.board
        },
        detail: "Rating "@ + decimal(dealt.rating as nat) + " · "@ + joined(
            texts(dealt.themes@),
            ", "@,
        ),
        current: Some(unstarted(dealt)),
        timer: "0:00"@,
        ..view
    }
}

/// The tab with a puzzle dealt: shown at once in the middle of a session, and held back until the
/// solver is ready at the beginning of one.
pub open spec fn dealt_out(view: TrainerModel, dealt: Dealt) -> TrainerModel {
    if view.session_started {
        revealing(placed(view, dealt))
    } else {
        TrainerModel {
            status: crate::chess::color_name(dealt.turn) + " to play — press Start when ready"@,
            start_sensitive: true,
            start_visible: true,
            ..placed(view, dealt)
        }
    }
}

/// What is said where there is nothing to solve. While solved puzzles are being repeated there is
/// plenty solved; it is simply too soon for any of it to measure anything, and saying when to come
/// back is the difference between a broken tab and a schedule.
pub open spec fn nothing_text(repeating: bool, wait: Option<i64>) -> Seq<char> {
    match wait {
        Some(millis) => if repeating {
            "Nothing far enough back to re-time yet — the first is ready in "@ + wait_text(
                millis as int,
            ) + ". Turn Repeat off to keep learning new puzzles meanwhile."@
        } else {
            "Nothing to solve. Load the puzzle database, or come back when reviews are due."@
        },
        None => "Nothing to solve. Load the puzzle database, or come back when reviews are due."@,
    }
}

/// The tab after the next puzzle was looked for.
pub open spec fn loaded(view: TrainerModel, next: NextPuzzle) -> TrainerModel {
    match next {
        NextPuzzle::Ready(dealt) => dealt_out(view, dealt),
        NextPuzzle::Bad(why) => TrainerModel { status: "Skipping bad puzzle: "@ + why@, ..view },
        NextPuzzle::Nothing { repeating, wait } => TrainerModel {
            status: nothing_text(repeating, wait),
            current: None,
            ..view
        },
        NextPuzzle::Failed(why) => TrainerModel { status: "Database error: "@ + why@, ..view },
    }
}

/// The tab with the session begun.
pub open spec fn begun(view: TrainerModel) -> TrainerModel {
    revealing(
        posting(TrainerModel { session_started: true, ..view }, TaskModel::OpenSitting),
    )
}

/// Whether the solver is at work on a puzzle.
pub open spec fn is_solving(view: TrainerModel) -> bool {
    view.current matches Some(current) && current.started_solving
}

/// Whether a square holds a piece of the side to move.
pub open spec fn own_piece(view: TrainerModel, square: Square) -> bool {
    view.current matches Some(current) && crate::rules::holds(
        current.fen@,
        square,
        current.turn,
    )
}

/// The tab with a move offered.
pub open spec fn offering(view: TrainerModel, uci: Seq<char>) -> TrainerModel {
    posting(view, TaskModel::OfferAttempt { uci })
}

/// The tab after a move that may first ask what a pawn becomes.
pub open spec fn after_move(
    view: TrainerModel,
    from: Square,
    to: Square,
    choices: Seq<Role>,
    spot: Spot,
    found: Option<Seq<char>>,
) -> TrainerModel {
    match view.current {
        Some(current) => if choices.len() > 1 {
            TrainerModel {
                board: BoardModel {
                    picker: crate::board::picker_for(
                        view.board,
                        to,
                        current.turn == Color::White,
                        choices,
                        spot,
                    ),
                    ..view.board
                },
                promotion: Some((from, to)),
                ..view
            }
        } else {
            match found {
                Some(uci) => offering(view, uci),
                None => view,
            }
        },
        None => view,
    }
}

/// The tab with a square selected.
pub open spec fn selecting(view: TrainerModel, square: Option<Square>) -> TrainerModel {
    TrainerModel { board: BoardModel { selected: square, ..view.board }, ..view }
}

/// The tab after a click while a puzzle is being solved. Clicking another piece of one's own
/// changes the origin rather than failing.
pub open spec fn puzzle_clicked(
    view: TrainerModel,
    square: Square,
    choices: Seq<Role>,
    spot: Spot,
    found: Option<Seq<char>>,
) -> TrainerModel {
    match view.board.selected {
        None => if own_piece(view, square) {
            selecting(view, Some(square))
        } else {
            view
        },
        Some(from) => if from == square {
            selecting(view, None)
        } else if own_piece(view, square) && found is None {
            selecting(view, Some(square))
        } else {
            after_move(selecting(view, None), from, square, choices, spot, found)
        },
    }
}

/// The tab after a click on a square. In board vision it chooses a square rather than moving a
/// piece: most of the rungs are arrangements no move is legal in.
pub open spec fn after_click(
    view: TrainerModel,
    square: Square,
    choices: Seq<Role>,
    spot: Spot,
    found: Option<Seq<char>>,
) -> TrainerModel {
    if view.vision is Some {
        picked(view, square)
    } else if is_solving(view) {
        puzzle_clicked(view, square, choices, spot, found)
    } else {
        view
    }
}

/// The tab after a piece was dragged from one square to another.
pub open spec fn after_drag(
    view: TrainerModel,
    from: Square,
    to: Square,
    choices: Seq<Role>,
    spot: Spot,
    found: Option<Seq<char>>,
) -> TrainerModel {
    if is_solving(view) && own_piece(view, from) {
        after_move(selecting(view, None), from, to, choices, spot, found)
    } else {
        view
    }
}

/// The tab after a piece was chosen in the promotion picker.
pub open spec fn after_choice(
    view: TrainerModel,
    role: Role,
    found: Option<Seq<char>>,
) -> TrainerModel {
    if view.promotion is Some && crate::board::offers(view.board, role) {
        let down = TrainerModel { board: BoardModel { picker: None, ..view.board }, ..view };
        match (view.current, found) {
            (Some(_), Some(uci)) => offering(down, uci),
            _ => down,
        }
    } else {
        view
    }
}

/// Whether a move was right.
pub open spec fn is_correct(outcome: Outcome) -> bool {
    outcome is Continued || outcome is Solved
}

/// The tab with a move written down, right or wrong. The wrong ones are the point: a solver who
/// reaches for the same losing idea across twenty positions has one habit, and the verdict alone
/// never shows it.
pub open spec fn logged(view: TrainerModel, uci: Seq<char>, correct: bool) -> TrainerModel {
    match view.current {
        Some(current) => TrainerModel {
            current: Some(
                Current {
                    ply: if correct {
                        (current.ply + 1) as u32
                    } else {
                        current.ply
                    },
                    ..current
                },
            ),
            outbox: view.outbox.push(
                TaskModel::LogAttempt {
                    id: current.id@,
                    ply: current.ply,
                    played: uci,
                    expected: match current.expected {
                        Some(expected) => expected@,
                        None => ""@,
                    },
                    correct,
                    revealed: current.misses >= REVEAL_AFTER_MISSES,
                },
            ),
            ..view
        },
        None => view,
    }
}

/// The tab with the puzzle where a move has taken it.
pub open spec fn moved_on(view: TrainerModel, after: AttemptPoint) -> TrainerModel {
    match view.current {
        Some(current) => TrainerModel {
            current: Some(
                Current {
                    fen: after.fen,
                    turn: after.turn,
                    expected: after.expected,
                    ..current
                },
            ),
            ..view
        },
        None => view,
    }
}

/// The expected move in notation, for revealing the answer.
pub open spec fn expected_san(current: Current) -> Option<Seq<char>> {
    match current.expected {
        Some(uci) => if crate::rules::legal_in(current.fen@, uci@) {
            Some(crate::rules::san_in(current.fen@, uci@))
        } else {
            None
        },
        None => None,
    }
}

/// What is said of a wrong move, given how many there have been and what the answer is.
pub open spec fn rejection_text(misses: u32, answer: Option<Seq<char>>) -> Seq<char> {
    if misses >= REVEAL_AFTER_MISSES {
        match answer {
            Some(san) => "Not the move. It is "@ + san + " — play it to continue"@,
            None => "Not the move"@,
        }
    } else {
        "Not the move — try again"@
    }
}

/// The tab with a wrong move counted and spoken of.
pub open spec fn rejected(view: TrainerModel) -> TrainerModel {
    match view.current {
        Some(current) => {
            let misses = (current.misses + 1) as u32;
            TrainerModel {
                current: Some(Current { failed: true, misses, ..current }),
                status: rejection_text(misses, expected_san(current)),
                ..view
            }
        },
        None => view,
    }
}

/// The tab asking what punishes the move that was just played. One question at a time: a solver
/// trying four wrong moves in a row would otherwise queue four searches and read the answer to
/// the first.
pub open spec fn wondering(view: TrainerModel, uci: Seq<char>) -> TrainerModel {
    let quiet = TrainerModel { lesson: ""@, ..view };
    match view.current {
        Some(current) => if !view.has_engine || view.lesson_busy || !crate::rules::legal_in(
            current.fen@,
            uci,
        ) {
            quiet
        } else {
            let after = crate::rules::fen_after(current.fen@, uci);
            let token = crate::drill_view::next_token(view.lesson_token);
            TrainerModel {
                lesson_token: token,
                asked_about: Some((after, crate::rules::san_plus_in(current.fen@, uci))),
                outbox: view.outbox.push(
                    TaskModel::AskWhy(
                        RequestModel::Evaluate {
                            fen: after,
                            moves: Seq::empty(),
                            depth: LESSON_DEPTH,
                            token,
                        },
                    ),
                ),
                ..quiet
            }
        },
        None => quiet,
    }
}

/// The tab with the position after a move drawn.
pub open spec fn drawn(view: TrainerModel) -> TrainerModel {
    match view.current {
        Some(current) => TrainerModel {
            board: BoardModel {
                pieces: crate::rules::placement_of(current.fen@),
                check: checked_king(current.fen@),
                ..view.board
            },
            ..view
        },
        None => view,
    }
}

/// The tab with a right move answered. The reply is highlighted rather than the solver's own
/// move: that is the change the solver has to read before answering.
pub open spec fn continued(view: TrainerModel, reply: Option<(Square, Square)>) -> TrainerModel {
    let shown = retired(drawn(view));
    TrainerModel {
        board: BoardModel { last_move: reply, ..shown.board },
        status: "Good — keep going"@,
        ..shown
    }
}

/// The tab with the puzzle solved and handed in. `last` are the squares of the solving move.
pub open spec fn solved(view: TrainerModel, last: Option<(Square, Square)>) -> TrainerModel {
    match view.current {
        Some(current) => {
            let shown = retired(drawn(view));
            TrainerModel {
                board: BoardModel {
                    mate: mated_king(current.fen@),
                    last_move: last,
                    ..shown.board
                },
                current: None,
                handed_in: Some(current),
                outbox: view.outbox.push(
                    TaskModel::Submit {
                        id: current.id@,
                        rating: current.rating,
                        correct: !current.failed,
                    },
                ),
                ..shown
            }
        },
        None => view,
    }
}

/// The squares that a move joins in a position.
pub open spec fn joined_squares(fen: Seq<char>, uci: Seq<char>) -> Option<(Square, Square)> {
    match moved_in(fen, uci) {
        Some(step) => squares_moved(step),
        None => None,
    }
}

/// The tab after a move was played in the puzzle, which then stands at `after`. A move that is
/// not right leaves the puzzle where it was.
pub open spec fn after_offer(
    view: TrainerModel,
    uci: Seq<char>,
    outcome: Outcome,
    after: AttemptPoint,
) -> TrainerModel {
    match view.current {
        None => view,
        Some(current) => {
            let kept = logged(view, uci, is_correct(outcome));
            let next = if is_correct(outcome) {
                moved_on(kept, after)
            } else {
                kept
            };
            match outcome {
                Outcome::Wrong => wondering(rejected(next), uci),
                Outcome::Continued(reply) => continued(next, reply),
                Outcome::Solved => solved(next, joined_squares(current.fen@, uci)),
                Outcome::Failed(why) => TrainerModel { status: why@, ..next },
            }
        },
    }
}

/// What was played in the game that a position came from.
pub open spec fn origin_text(origin: Origin) -> Seq<char> {
    "From your game on "@ + crate::dates::day_text(origin.played_at as int) + ", move "@ + decimal(
        (origin.ply / 2 + 1) as nat,
    ) + ": you played "@ + origin.played@ + " and it cost "@ + origin.cost@
        + "% of the win. The move was "@ + origin.best@ + "."@
}

/// What is said when a sitting has stopped helping.
pub open spec fn fatigue_text(fatigue: Fatigue) -> Seq<char> {
    decimal(fatigue.count as nat) + " in, and this sitting has turned: "@ + fatigue.early@
        + "% right early against "@ + fatigue.late@
        + "% now. Solving tired trains solving badly — a good place to stop."@
}

/// The line about the game that a position came from.
pub open spec fn origin_line(origin: Option<Origin>) -> Seq<char> {
    match origin {
        Some(origin) => origin_text(origin),
        None => ""@,
    }
}

/// The line about the origin with the warning added to it rather than over it.
pub open spec fn warned_line(line: Seq<char>, fatigue: Fatigue) -> Seq<char> {
    if line.len() == 0 {
        fatigue_text(fatigue)
    } else {
        line + "\n\n"@ + fatigue_text(fatigue)
    }
}

/// The tab with the origin shown, and the warning where the sitting has turned.
pub open spec fn looked_back(
    view: TrainerModel,
    origin: Option<Origin>,
    fatigue: Option<Fatigue>,
) -> TrainerModel {
    let line = origin_line(origin);
    match fatigue {
        Some(fatigue) => if fatigue.turned {
            TrainerModel {
                origin: warned_line(line, fatigue),
                origin_warning: true,
                ..view
            }
        } else {
            TrainerModel { origin: line, ..view }
        },
        None => TrainerModel { origin: line, ..view },
    }
}

/// The tab with an attempt's verdict.
pub open spec fn credited(view: TrainerModel, correct: bool, submitted: Submitted) -> TrainerModel {
    match submitted {
        Submitted::Recorded { seconds, baseline, grade, due, rating, band } => TrainerModel {
            status: if correct {
                "Solved in "@ + seconds@ + "s (your pace for this level: "@ + baseline@ + "s)"@
            } else {
                "Missed it — back soon. "@ + seconds@ + "s"@
            },
            detail: grade@ + " · next in "@ + span_text(due as int) + " · rating "@ + rating@
                + " · band "@ + band@,
            ..view
        },
        Submitted::Failed(why) => TrainerModel {
            status: "Could not record attempt: "@ + why@,
            ..view
        },
    }
}

/// The tab after an attempt was handed in.
pub open spec fn finished(
    view: TrainerModel,
    origin: Option<Origin>,
    fatigue: Option<Fatigue>,
    submitted: Submitted,
) -> TrainerModel {
    match view.handed_in {
        Some(current) => posting(
            credited(
                TrainerModel { handed_in: None, ..looked_back(view, origin, fatigue) },
                !current.failed,
                submitted,
            ),
            TaskModel::NextPuzzleAfter(NEXT_PUZZLE_MS),
        ),
        None => view,
    }
}

/// The tab after the engine said why a move was wrong.
pub open spec fn after_evaluation(
    view: TrainerModel,
    token: u64,
    lesson: Option<Seq<char>>,
) -> TrainerModel {
    if token == view.lesson_token && view.asked_about is Some {
        TrainerModel {
            lesson_busy: false,
            lesson: match lesson {
                Some(text) => text,
                None => ""@,
            },
            ..view
        }
    } else {
        TrainerModel { lesson_busy: false, ..view }
    }
}

/// The clock beside the board. It stands still until the position is shown.
pub open spec fn ticked(view: TrainerModel, seconds: u64) -> TrainerModel {
    match view.current {
        Some(current) => TrainerModel {
            timer: if current.started_solving {
                clock_text(seconds)
            } else {
                "0:00"@
            },
            ..view
        },
        None => view,
    }
}

/// The verdict tells a failed attempt from a solved one. For every attempt handed in and recorded,
/// what is said begins with "Solved in " and gives the time and the pace exactly where no wrong move
/// was played, and begins with "Missed it" and gives the time otherwise. An attempt that could not
/// be recorded is told to be neither.
pub proof fn the_verdict_tells_a_failure_from_a_solve(
    view: TrainerModel,
    origin: Option<Origin>,
    fatigue: Option<Fatigue>,
    submitted: Submitted,
)
    requires
        view.handed_in is Some,
    ensures
        ({
            let after = finished(view, origin, fatigue, submitted);
            let failed = view.handed_in->0.failed;
            &&& after.handed_in is None
            &&& begins(after.status, "Solved in "@) <==> submitted is Recorded && !failed
            &&& begins(after.status, "Missed it"@) <==> submitted is Recorded && failed
            &&& begins(after.status, "Could not record attempt: "@) <==> submitted is Failed
            &&& submitted matches Submitted::Recorded { seconds, baseline, .. } ==> {
                &&& !failed ==> after.status == "Solved in "@ + seconds@
                    + "s (your pace for this level: "@ + baseline@ + "s)"@
                &&& failed ==> after.status == "Missed it — back soon. "@ + seconds@ + "s"@
            }
            &&& after.outbox == view.outbox.push(TaskModel::NextPuzzleAfter(NEXT_PUZZLE_MS))
        }),
{
    reveal_strlit("Solved in ");
    reveal_strlit("Missed it");
    reveal_strlit("Missed it — back soon. ");
    reveal_strlit("Could not record attempt: ");
    let status = finished(view, origin, fatigue, submitted).status;
    assert("Solved in "@[0] == 'S' && "Missed it"@[0] == 'M');
    assert("Missed it — back soon. "@.subrange(0, 9) =~= "Missed it"@);
    assert("Could not record attempt: "@[0] == 'C');
    match submitted {
        Submitted::Recorded { seconds, baseline, grade, due, rating, band } => {
            if view.handed_in->0.failed {
                begins_with_its_start(
                    "Missed it — back soon. "@,
                    seconds@ + "s"@,
                );
                assert(status =~= "Missed it — back soon. "@ + (seconds@ + "s"@));
                assert(status.subrange(0, 9) =~= "Missed it"@);
            } else {
                let rest = seconds@ + "s (your pace for this level: "@ + baseline@ + "s)"@;
                begins_with_its_start("Solved in "@, rest);
                assert(status =~= "Solved in "@ + rest);
            }
        },
        Submitted::Failed(why) => {
            begins_with_its_start("Could not record attempt: "@, why@);
        },
    }
    begins_alike(status, "Solved in "@);
    begins_alike(status, "Missed it"@);
    begins_alike(status, "Could not record attempt: "@);
}

/// How many questions for the engine some tasks hold.
pub open spec fn questions(outbox: Seq<TaskModel>) -> nat
    decreases outbox.len(),
{
    if outbox.len() == 0 {
        0
    } else {
        questions(outbox.drop_last()) + if outbox.last() is AskWhy {
            1nat
        } else {
            0nat
        }
    }
}

/// One more task is one more question exactly where it is one.
proof fn one_more_task(outbox: Seq<TaskModel>, task: TaskModel)
    ensures
        questions(outbox.push(task)) == questions(outbox) + if task is AskWhy {
            1nat
        } else {
            0nat
        },
{
    assert(outbox.push(task).drop_last() =~= outbox);
}

/// The engine is never asked while an attempt can still be measured. A move that continues or
/// solves the line asks nothing, and retires whatever was asked before. A wrong move asks at most
/// once, only once the attempt counts as failed, and leaves the attempt's position as it was.
pub proof fn the_engine_stays_out_of_the_measured_phase(
    view: TrainerModel,
    uci: Seq<char>,
    outcome: Outcome,
    after: AttemptPoint,
)
    ensures
        ({
            let next = after_offer(view, uci, outcome, after);
            &&& next.lesson_asks == view.lesson_asks
            &&& !(outcome is Wrong) ==> questions(next.outbox) == questions(view.outbox)
            &&& questions(view.outbox) <= questions(next.outbox) <= questions(view.outbox) + 1
            &&& questions(next.outbox) > questions(view.outbox) ==> (next.current matches Some(
                current,
            ) && current.failed && next.outbox.last() is AskWhy)
            &&& !is_correct(outcome) && view.current is Some ==> next.current is Some
                && next.current->0.fen == view.current->0.fen && next.current->0.turn
                == view.current->0.turn && next.current->0.expected
                == view.current->0.expected && next.board == view.board
        }),
{
    match view.current {
        Some(current) => {
            let kept = logged(view, uci, is_correct(outcome));
            let next = after_offer(view, uci, outcome, after);
            one_more_task(view.outbox, kept.outbox.last());
            if next.outbox != kept.outbox {
                one_more_task(kept.outbox, next.outbox.last());
            }
        },
        None => {},
    }
}

/// A move offered to the puzzle: its text, what came of it, and where the puzzle then stands.
pub struct Offered {
    pub uci: Seq<char>,
    pub outcome: Outcome,
    pub after: AttemptPoint,
}

/// The tab after some moves were offered, one after the other.
pub open spec fn after_offers(view: TrainerModel, offers: Seq<Offered>) -> TrainerModel
    decreases offers.len(),
{
    if offers.len() == 0 {
        view
    } else {
        let last = offers.last();
        after_offer(after_offers(view, offers.drop_last()), last.uci, last.outcome, last.after)
    }
}

/// How many of some moves were wrong.
pub open spec fn wrong_among(offers: Seq<Offered>) -> nat
    decreases offers.len(),
{
    if offers.len() == 0 {
        0
    } else {
        wrong_among(offers.drop_last()) + if offers.last().outcome is Wrong {
            1nat
        } else {
            0nat
        }
    }
}

/// Whatever moves are offered, the engine is asked at most once for each wrong one. So an attempt
/// without a wrong move never asks the engine, from its first move to its last.
pub proof fn an_attempt_without_a_wrong_move_never_asks(view: TrainerModel, offers: Seq<Offered>)
    ensures
        questions(after_offers(view, offers).outbox) <= questions(view.outbox) + wrong_among(offers),
        questions(view.outbox) <= questions(after_offers(view, offers).outbox),
        wrong_among(offers) == 0 ==> questions(after_offers(view, offers).outbox) == questions(
            view.outbox,
        ),
        after_offers(view, offers).lesson_asks == view.lesson_asks,
    decreases offers.len(),
{
    if offers.len() > 0 {
        let before = offers.drop_last();
        let last = offers.last();
        an_attempt_without_a_wrong_move_never_asks(view, before);
        the_engine_stays_out_of_the_measured_phase(
            after_offers(view, before),
            last.uci,
            last.outcome,
            last.after,
        );
    }
}

/// Whatever moves are offered, once the engine has been asked about one of them the attempt is no
/// longer counted as correct, now or when it is handed in.
pub proof fn an_attempt_that_asked_does_not_count(view: TrainerModel, offers: Seq<Offered>)
    requires
        view.current is Some,
        questions(after_offers(view, offers).outbox) > questions(view.outbox),
    ensures
        ({
            let now = after_offers(view, offers);
            match now.current {
                Some(current) => current.failed,
                None => now.handed_in matches Some(current) && current.failed,
            }
        }),
    decreases offers.len(),
{
    if offers.len() > 0 {
        let before = offers.drop_last();
        let last = offers.last();
        let held = after_offers(view, before);
        the_engine_stays_out_of_the_measured_phase(held, last.uci, last.outcome, last.after);
        if questions(held.outbox) > questions(view.outbox) {
            an_attempt_that_asked_does_not_count(view, before);
        }
    }
}

/// The tab once it is known whether the engine took a question. Only this counts a question as
/// asked.
pub open spec fn told(view: TrainerModel, sent: bool) -> TrainerModel {
    if sent {
        TrainerModel {
            lesson_busy: true,
            lesson_asks: (view.lesson_asks + 1) as u64,
            lesson: "Looking at why…"@,
            ..view
        }
    } else {
        view
    }
}

/// A wrong move makes the attempt a failure for good: whatever is played afterwards, what is
/// handed in is not counted as correct.
pub proof fn a_failed_attempt_is_never_handed_in_as_correct(
    view: TrainerModel,
    uci: Seq<char>,
    outcome: Outcome,
    after: AttemptPoint,
)
    requires
        view.current matches Some(current) && (current.failed || outcome is Wrong),
    ensures
        ({
            let next = after_offer(view, uci, outcome, after);
            &&& next.current matches Some(current) ==> current.failed
            &&& next.current is None ==> (next.handed_in matches Some(current) && current.failed
                && next.outbox.last() == (TaskModel::Submit {
                id: current.id@,
                rating: current.rating,
                correct: false,
            }))
        }),
{
}

/// Every move offered is written down exactly once, right or wrong, with the move that was
/// expected before it was played.
pub proof fn every_move_is_written_down(
    view: TrainerModel,
    uci: Seq<char>,
    outcome: Outcome,
    after: AttemptPoint,
)
    requires
        view.current is Some,
    ensures
        ({
            let next = after_offer(view, uci, outcome, after);
            let at = view.outbox.len() as int;
            &&& next.outbox.len() > at
            &&& next.outbox[at] matches TaskModel::LogAttempt { played, expected, correct, .. }
                && played == uci && correct == is_correct(outcome) && expected == match view.current->0.expected {
                Some(expected) => expected@,
                None => ""@,
            }
            &&& next.outbox.take(at) =~= view.outbox
        }),
{
}

/// The answer is given at the second wrong move, not before.
pub proof fn the_answer_comes_after_two_misses(view: TrainerModel)
    requires
        view.current matches Some(current) && current.misses < u32::MAX,
    ensures
        view.current->0.misses == 0 ==> rejected(view).status == "Not the move — try again"@,
        view.current->0.misses >= 1 ==> rejected(view).status == rejection_text(
            2,
            expected_san(view.current->0),
        ),
{
}

/// The position and the clock start together: a puzzle is on the board only once it is being
/// timed.
pub proof fn nothing_is_shown_before_the_clock_runs(view: TrainerModel, dealt: Dealt)
    ensures
        ({
            let next = dealt_out(view, dealt);
            &&& next.current matches Some(current)
            &&& current.started_solving <==> view.session_started
            &&& !current.started_solving ==> next.board.pieces == Seq::new(
                64,
                |i: int| None::<Piece>,
            ) && next.outbox == view.outbox
            &&& current.started_solving ==> next.board.pieces == crate::rules::placement_of(
                dealt.fen@,
            ) && next.outbox == view.outbox.push(TaskModel::StartTiming)
        }),
{
}

/// An answer that arrives after the solver has moved on is dropped: looking for another puzzle
/// retires every question asked before, and so do a board-vision question and a right move, whose
/// positions the answer was never about.
pub proof fn a_new_puzzle_retires_old_questions(
    view: TrainerModel,
    token: u64,
    lesson: Option<Seq<char>>,
    rung: Rung,
    prompt: Seq<char>,
    answer: AnswerModel,
    pieces: Seq<Option<Piece>>,
    uci: Seq<char>,
    outcome: Outcome,
    after: AttemptPoint,
)
    requires
        token == view.lesson_token,
    ensures
        after_evaluation(looking(view), token, lesson).lesson == ""@,
        after_evaluation(asking(view, rung, prompt, answer, pieces), token, lesson).lesson == ""@,
        is_correct(outcome) && view.current is Some ==> {
            let next = after_offer(view, uci, outcome, after);
            &&& after_evaluation(next, token, lesson).lesson == next.lesson
            &&& view.lesson_busy ==> next.lesson == ""@
            &&& !view.lesson_busy ==> next.lesson == view.lesson
        },
{
}

/// A puzzle that is found is the puzzle to be solved, as it was dealt: its own position, side, answer
/// and rating, with nothing held against the solver yet, seen from the side that has to move. In the
/// middle of a session it is on the board, every square of it, and the clock runs; at the beginning
/// of one the board is empty and Start is offered. Where none is found there is none to solve.
pub proof fn a_puzzle_is_dealt_as_it_stands(view: TrainerModel, dealt: Dealt, why: String, wait: Option<
    i64,
>, repeating: bool)
    ensures
        ({
            let after = loaded(view, NextPuzzle::Ready(dealt));
            &&& after.current matches Some(current) && current.id == dealt.id && current.rating
                == dealt.rating && current.fen == dealt.fen && current.turn == dealt.turn
                && current.expected == dealt.expected && current.ply == 0 && current.misses == 0
                && !current.failed && current.started_solving == view.session_started
            &&& after.board.orientation == dealt.turn
            &&& after.board.selected is None
            &&& after.board.last_move is None
            &&& after.board.mate is None
            &&& after.timer == "0:00"@
            &&& after.detail == "Rating "@ + decimal(dealt.rating as nat) + " · "@ + joined(
                texts(dealt.themes@),
                ", "@,
            )
            &&& view.session_started ==> {
                &&& after.board.pieces == crate::rules::placement_of(dealt.fen@)
                &&& after.board.check == checked_king(dealt.fen@)
                &&& after.outbox == view.outbox.push(TaskModel::StartTiming)
                &&& !after.start_visible
                &&& after.status == (if dealt.turn == Color::White {
                    "White"@
                } else {
                    "Black"@
                }) + " to play"@
            }
            &&& !view.session_started ==> {
                &&& after.start_visible && after.start_sensitive
                &&& after.board.check is None
                &&& after.outbox == view.outbox
                &&& forall|i: int|
                    0 <= i < after.board.pieces.len() ==> (#[trigger] after.board.pieces[i]) is None
                &&& after.status == (if dealt.turn == Color::White {
                    "White"@
                } else {
                    "Black"@
                }) + " to play — press Start when ready"@
            }
        }),
        loaded(view, NextPuzzle::Nothing { repeating, wait }).current is None,
        loaded(view, NextPuzzle::Bad(why)).current == view.current,
        loaded(view, NextPuzzle::Bad(why)).status == "Skipping bad puzzle: "@ + why@,
        loaded(view, NextPuzzle::Failed(why)).current == view.current,
        loaded(view, NextPuzzle::Failed(why)).status == "Database error: "@ + why@,
        !(repeating && wait is Some) ==> loaded(view, NextPuzzle::Nothing { repeating, wait }).status
            == "Nothing to solve. Load the puzzle database, or come back when reviews are due."@,
        wait matches Some(millis) ==> repeating ==> loaded(
            view,
            NextPuzzle::Nothing { repeating, wait },
        ).status == "Nothing far enough back to re-time yet — the first is ready in "@ + wait_text(
            millis as int,
        ) + ". Turn Repeat off to keep learning new puzzles meanwhile."@,
{
}

/// Start opens a sitting and shows the puzzle that was held back, every square of it, in the same
/// instant as its clock is started.
pub proof fn start_shows_the_puzzle_and_starts_its_clock(view: TrainerModel)
    ensures
        begun(view).session_started,
        view.current matches Some(current) ==> {
            let after = begun(view);
            &&& after.current matches Some(now) && now.started_solving && now.fen == current.fen
                && now.turn == current.turn && now.expected == current.expected && now.failed
                == current.failed && now.misses == current.misses && now.ply == current.ply
            &&& after.board.pieces == crate::rules::placement_of(current.fen@)
            &&& after.board.check == checked_king(current.fen@)
            &&& !after.start_visible
            &&& after.outbox == view.outbox.push(TaskModel::OpenSitting).push(
                TaskModel::StartTiming,
            )
        },
        view.current is None ==> begun(view).outbox == view.outbox.push(TaskModel::OpenSitting),
{
}

/// A right move leads on: the puzzle stands where the move and its answer have taken it, the board
/// shows that position with the answer marked, and one more move of the solution is done. Nothing is
/// held against the solver that was not before.
pub proof fn a_right_move_leads_on(
    view: TrainerModel,
    uci: Seq<char>,
    reply: Option<(Square, Square)>,
    after: AttemptPoint,
)
    requires
        view.current matches Some(current) && current.ply < u32::MAX,
    ensures
        ({
            let next = after_offer(view, uci, Outcome::Continued(reply), after);
            let before = view.current->0;
            &&& next.current matches Some(current) && current.fen == after.fen && current.turn
                == after.turn && current.expected == after.expected && current.ply == before.ply + 1
                && current.failed == before.failed && current.misses == before.misses && current.id
                == before.id && current.rating == before.rating
            &&& next.board.pieces == crate::rules::placement_of(after.fen@)
            &&& next.board.check == checked_king(after.fen@)
            &&& next.board.last_move == reply
            &&& next.status == "Good — keep going"@
            &&& next.handed_in == view.handed_in
        }),
{
}

/// The move that solves a puzzle ends it: the board shows the position it leads to, with the move
/// and the mated king marked, and the attempt is handed in once, under the puzzle's own name and
/// rating, as correct exactly where no wrong move was played.
pub proof fn the_solving_move_hands_the_attempt_in(
    view: TrainerModel,
    uci: Seq<char>,
    after: AttemptPoint,
)
    requires
        view.current matches Some(current) && current.ply < u32::MAX,
    ensures
        ({
            let next = after_offer(view, uci, Outcome::Solved, after);
            let before = view.current->0;
            &&& next.current is None
            &&& next.handed_in matches Some(current) && current.failed == before.failed
                && current.id == before.id && current.rating == before.rating
            &&& next.board.pieces == crate::rules::placement_of(after.fen@)
            &&& next.board.mate == mated_king(after.fen@)
            &&& crate::rules::legal_in(before.fen@, uci) ==> (crate::rules::squares_in_text(
                uci,
            ) matches Some((from, _)) ==> next.board.last_move == Some(
                (
                    crate::chess::nth_square(from as int),
                    crate::chess::nth_square(crate::rules::target_in(before.fen@, uci) as int),
                ),
            ))
            &&& next.outbox.len() == view.outbox.len() + 2
            &&& next.outbox.last() == (TaskModel::Submit {
                id: before.id@,
                rating: before.rating,
                correct: !before.failed,
            })
        }),
{
}

/// A wrong move is held against the attempt and counted, and leaves the puzzle where it was. The
/// answer is named from the second one on, in the notation of the position, and not before. The
/// engine is asked what punishes it exactly where there is one that is free and the move is legal,
/// about the position that the move leads to.
pub proof fn a_wrong_move_is_counted_and_explained(
    view: TrainerModel,
    uci: Seq<char>,
    after: AttemptPoint,
)
    requires
        view.current matches Some(current) && current.misses < u32::MAX,
    ensures
        ({
            let next = after_offer(view, uci, Outcome::Wrong, after);
            let before = view.current->0;
            let asked = next.outbox.last();
            &&& next.current matches Some(current) && current.failed && current.misses
                == before.misses + 1 && current.ply == before.ply && current.fen == before.fen
            &&& next.board == view.board
            &&& before.misses == 0 ==> next.status == "Not the move — try again"@
            &&& before.misses > 0 ==> (before.expected matches Some(answer)
                ==> crate::rules::legal_in(before.fen@, answer@) ==> next.status
                == "Not the move. It is "@ + crate::rules::san_in(before.fen@, answer@)
                + " — play it to continue"@)
            &&& before.misses > 0 && before.expected is None ==> next.status == "Not the move"@
            &&& view.has_engine && !view.lesson_busy && crate::rules::legal_in(before.fen@, uci)
                ==> {
                &&& next.lesson_token != view.lesson_token
                &&& next.outbox.len() == view.outbox.len() + 2
                &&& asked == TaskModel::AskWhy(
                    RequestModel::Evaluate {
                        fen: crate::rules::fen_after(before.fen@, uci),
                        moves: Seq::empty(),
                        depth: 18,
                        token: next.lesson_token,
                    },
                )
                &&& next.asked_about == Some(
                    (
                        crate::rules::fen_after(before.fen@, uci),
                        crate::rules::san_plus_in(before.fen@, uci),
                    ),
                )
            }
            &&& !view.has_engine || view.lesson_busy || !crate::rules::legal_in(before.fen@, uci)
                ==> next.outbox.len() == view.outbox.len() + 1 && next.lesson_token
                == view.lesson_token
        }),
{
}

/// The log of a move says which puzzle and which move of it was being answered, and whether the
/// answer had been given by then: it had exactly where two wrong moves came before.
pub proof fn the_log_says_what_was_being_answered(
    view: TrainerModel,
    uci: Seq<char>,
    outcome: Outcome,
    after: AttemptPoint,
)
    requires
        view.current is Some,
    ensures
        ({
            let next = after_offer(view, uci, outcome, after);
            let before = view.current->0;
            next.outbox[view.outbox.len() as int] matches TaskModel::LogAttempt {
                id,
                ply,
                played,
                correct,
                revealed,
                ..
            } && id == before.id@ && ply == before.ply && played == uci && revealed == (
            before.misses >= 2) && correct == (outcome is Continued || outcome is Solved)
        }),
{
}

/// The reply to the question outstanding is what is said of the wrong move; what the engine could
/// not say leaves nothing said.
pub proof fn the_reply_is_the_lesson(view: TrainerModel, lesson: Option<Seq<char>>)
    requires
        view.asked_about is Some,
    ensures
        lesson matches Some(text) ==> after_evaluation(view, view.lesson_token, lesson).lesson
            == text,
        lesson is None ==> after_evaluation(view, view.lesson_token, lesson).lesson == ""@,
        !after_evaluation(view, view.lesson_token, lesson).lesson_busy,
{
}

/// The answer buttons say what they mean: on a rung that asks for a colour the first is labelled and
/// means light and the second dark, and on any other the first yes and the second no. What is judged
/// is what the button pressed means, of the question on screen, which leaves the screen with it.
pub proof fn the_buttons_mean_what_they_say(
    view: TrainerModel,
    rung: Rung,
    prompt: Seq<char>,
    answer: AnswerModel,
    pieces: Seq<Option<Piece>>,
)
    ensures
        ({
            let asked = asking(view, rung, prompt, answer, pieces);
            let a = after_button(asked, VisionSide::A);
            let b = after_button(asked, VisionSide::B);
            &&& asked.board.pieces == pieces
            &&& asked.board.orientation == Color::White
            &&& asked.board.marks.len() == 0
            &&& asked.status == prompt
            &&& asked.vision_row
            &&& asked.two_way <==> !(answer is Squares)
            &&& asked.vision matches Some(vision) && vision.answer == answer && vision.rung == rung
                && vision.chosen.len() == 0
            &&& asked.vision_a == if rung.colours {
                "Light"@
            } else {
                "Yes"@
            }
            &&& asked.vision_b == if rung.colours {
                "Dark"@
            } else {
                "No"@
            }
            &&& a.vision is None
            &&& b.vision is None
            &&& a.judging == asked.vision
            &&& b.judging == asked.vision
            &&& rung.colours ==> {
                &&& a.outbox == asked.outbox.push(TaskModel::Judge { answer: AnswerModel::Light })
                &&& b.outbox == asked.outbox.push(TaskModel::Judge { answer: AnswerModel::Dark })
            }
            &&& !rung.colours ==> {
                &&& a.outbox == asked.outbox.push(TaskModel::Judge { answer: AnswerModel::Yes })
                &&& b.outbox == asked.outbox.push(TaskModel::Judge { answer: AnswerModel::No })
            }
        }),
{
}

/// Where a question is answered by clicking, the squares marked on the board are the squares chosen,
/// a click changes whether its own square is among them and no other's, and what is judged is those
/// squares. No piece is moved, and nothing else is asked.
pub proof fn clicked_squares_are_the_answer(
    view: TrainerModel,
    square: Square,
    other: Square,
    choices: Seq<Role>,
    spot: Spot,
    found: Option<Seq<char>>,
)
    requires
        view.vision matches Some(vision) && vision.chosen.no_duplicates(),
    ensures
        ({
            let after = after_click(view, square, choices, spot, found);
            let chosen = view.vision->0.chosen;
            let now = after.vision->0.chosen;
            &&& after.vision is Some
            &&& after.board.marks == now
            &&& now.contains(square) <==> !chosen.contains(square)
            &&& other != square ==> (now.contains(other) <==> chosen.contains(other))
            &&& after.vision->0.answer == view.vision->0.answer
            &&& after.outbox == view.outbox
            &&& after.board.pieces == view.board.pieces
            &&& after_commit(after).outbox == view.outbox.push(
                TaskModel::Judge { answer: AnswerModel::Squares(now) },
            )
            &&& after_commit(after).judging == after.vision
        }),
{
    a_second_click_takes_the_first_back(view.vision->0.chosen, square);
}

/// A board-vision answer is told and written down as right exactly where it was, under the rung that
/// it was asked from; a right one is told with its time. The answer is named either way, and after a
/// wrong one its squares are marked and it stays up longer.
pub proof fn a_vision_answer_is_told_as_it_was(view: TrainerModel, seconds: Seq<char>, right: bool)
    requires
        view.judging is Some,
    ensures
        ({
            let after = judged(view, right, seconds);
            let vision = view.judging->0;
            &&& right ==> after.status == "Right — "@ + seconds + "s"@ && after.board == view.board
            &&& !right ==> after.status == "Not that."@
            &&& !right ==> (vision.answer matches AnswerModel::Squares(squares)
                ==> after.board.marks == squares)
            &&& !right && !(vision.answer is Squares) ==> after.board.marks.len() == 0
            &&& after.judging is None
            &&& after.graded == view.judging
            &&& after.outbox == view.outbox.push(
                TaskModel::RecordVision { rung: vision.rung.key@, right },
            ).push(
                TaskModel::DealVisionAfter(
                    if right {
                        500
                    } else {
                        2200
                    },
                ),
            )
            &&& vision.answer is Light ==> after.lesson == "It is light."@
            &&& vision.answer is Dark ==> after.lesson == "It is dark."@
            &&& vision.answer is Yes ==> after.lesson == "Yes — it attacks it."@
            &&& vision.answer is No ==> after.lesson == "No — it does not."@
        }),
{
}

/// Switching to board vision deals a question and looks for no puzzle; switching to either of the
/// others takes the question down and looks for a puzzle, with every earlier question of the
/// engine's retired. The mode switched to is the mode kept and shown.
pub proof fn switching_changes_what_is_dealt(view: TrainerModel, mode: Mode)
    ensures
        ({
            let after = switched(view, mode);
            let at = view.outbox.len() as int;
            &&& after.mode == mode
            &&& after.outbox.len() > at + 2
            &&& after.outbox[at] == TaskModel::StoreMode(mode)
            &&& after.outbox[at + 1] is DescribeMode
            &&& mode == Mode::Vision ==> after.outbox.last() is DealVision
            &&& mode != Mode::Vision ==> {
                &&& after.outbox.last() is NextPuzzle
                &&& after.vision is None
                &&& !after.vision_row
                &&& after.board.marks.len() == 0
                &&& after.lesson == ""@
                &&& after.origin == ""@
                &&& after.asked_about is None
            }
        }),
        vision_due(view, Mode::Vision).outbox == view.outbox.push(TaskModel::DealVision),
        mode != Mode::Vision ==> vision_due(view, mode) == view,
{
}

/// Where a position came from is told once it has been solved, in its own words; and a sitting that
/// has turned is warned of behind it, exactly where it has turned.
pub proof fn the_origin_is_told_and_a_turned_sitting_warned_of(
    view: TrainerModel,
    origin: Option<Origin>,
    fatigue: Option<Fatigue>,
    submitted: Submitted,
)
    requires
        view.handed_in is Some,
        !view.origin_warning,
    ensures
        ({
            let after = finished(view, origin, fatigue, submitted);
            let turned = fatigue matches Some(fatigue) && fatigue.turned;
            &&& after.origin_warning <==> turned
            &&& !turned && origin is None ==> after.origin == ""@
            &&& !turned ==> (origin matches Some(from) ==> after.origin == "From your game on "@
                + crate::dates::day_text(from.played_at as int) + ", move "@ + decimal(
                (from.ply / 2 + 1) as nat,
            ) + ": you played "@ + from.played@ + " and it cost "@ + from.cost@
                + "% of the win. The move was "@ + from.best@ + "."@)
            &&& fatigue matches Some(tired) ==> tired.turned && origin is None ==> after.origin
                == decimal(tired.count as nat) + " in, and this sitting has turned: "@ + tired.early@
                + "% right early against "@ + tired.late@
                + "% now. Solving tired trains solving badly — a good place to stop."@
            &&& submitted matches Submitted::Recorded { grade, due, rating, band, .. }
                ==> after.detail == grade@ + " · next in "@ + span_text(due as int)
                + " · rating "@ + rating@ + " · band "@ + band@
        }),
{
    reveal_strlit("");
}

/// The clock runs exactly while the position is shown.
pub proof fn the_clock_runs_while_the_position_is_shown(view: TrainerModel, seconds: u64)
    ensures
        view.current matches Some(current) ==> {
            &&& current.started_solving ==> ticked(view, seconds).timer == clock_text(seconds)
            &&& !current.started_solving ==> ticked(view, seconds).timer == "0:00"@
        },
        view.current is None ==> ticked(view, seconds) == view,
{
}

/// While a puzzle is being solved a click picks up a piece of the side to move and no other; a
/// second click on it puts it down, one on another such piece changes to that where no move joins
/// the two, and one that a legal move leads to offers that very move. Before the position is shown a
/// click does nothing.
pub proof fn a_click_picks_up_or_offers_a_move(
    view: TrainerModel,
    square: Square,
    choices: Seq<Role>,
    spot: Spot,
    found: Option<Seq<char>>,
)
    requires
        view.vision is None,
    ensures
        ({
            let after = after_click(view, square, choices, spot, found);
            let own = view.current matches Some(current) && (crate::rules::piece_on(
                current.fen@,
                square,
            ) matches Some(piece) && piece.color == current.turn);
            let solving = view.current matches Some(current) && current.started_solving;
            &&& !solving ==> after == view
            &&& solving && view.board.selected is None ==> {
                &&& own ==> after.board.selected == Some(square)
                &&& !own ==> after.board.selected is None
                &&& after.outbox == view.outbox
            }
            &&& solving && view.board.selected == Some(square) ==> after.board.selected is None
                && after.outbox == view.outbox
            &&& view.board.selected matches Some(from) ==> solving && from != square ==> {
                &&& own && found is None ==> after.board.selected == Some(square) && after.outbox
                    == view.outbox
                &&& choices.len() <= 1 ==> (found matches Some(uci) ==> after.board.selected is None
                    && after.outbox == view.outbox.push(TaskModel::OfferAttempt { uci }))
                &&& choices.len() <= 1 && !own && found is None ==> after.board.selected is None
                    && after.outbox == view.outbox
                &&& choices.len() > 1 && found is Some ==> after.promotion == Some((from, square))
                    && after.outbox == view.outbox
            }
            &&& after.current == view.current
        }),
{
}

/// A drag offers the move that joins its two squares exactly where it begins on a piece of the side
/// to move while the position is shown.
pub proof fn a_drag_offers_a_move(
    view: TrainerModel,
    from: Square,
    to: Square,
    choices: Seq<Role>,
    spot: Spot,
    found: Option<Seq<char>>,
)
    ensures
        ({
            let after = after_drag(view, from, to, choices, spot, found);
            let own = view.current matches Some(current) && current.started_solving && (
            crate::rules::piece_on(current.fen@, from) matches Some(piece) && piece.color
                == current.turn);
            &&& !own ==> after == view
            &&& own && choices.len() <= 1 ==> (found matches Some(uci) ==> after.outbox
                == view.outbox.push(TaskModel::OfferAttempt { uci }))
            &&& own && choices.len() <= 1 && found is None ==> after.outbox == view.outbox
            &&& own && choices.len() > 1 ==> after.promotion == Some((from, to)) && after.outbox
                == view.outbox
        }),
{
}

/// The caption says which mode is on: repeats are said to be measured, learning not to be, and
/// board vision gives its rung's place until something has been asked and its score after that.
pub proof fn the_caption_says_what_is_measured(
    label: String,
    place: u64,
    asked: u64,
    right: u64,
    solved: u64,
)
    ensures
        caption_text(ModeNote::Learn)
            == "New puzzles, rising in difficulty. Building repertoire; not measured."@,
        caption_text(ModeNote::Repeat { solved }) == "Re-testing "@ + decimal(solved as nat)
            + " solved puzzle"@ + (if solved == 1 {
            ""@
        } else {
            "s"@
        }) + " — these attempts are measured."@,
        asked == 0 ==> caption_text(ModeNote::Vision { label, number: place, asked, right }) == label@
            + " — "@ + decimal(place as nat) + " of 6."@,
        asked > 0 ==> caption_text(ModeNote::Vision { label, number: place, asked, right }) == label@
            + " — "@ + decimal(right as nat) + " of "@ + decimal(asked as nat) + " right."@,
{
}

/// Only what a question's engine took counts as asked, and it is waited for from then on.
pub proof fn only_a_question_taken_counts(view: TrainerModel)
    requires
        view.lesson_asks < u64::MAX,
    ensures
        told(view, false) == view,
        told(view, true).lesson_busy,
        told(view, true).lesson_asks == view.lesson_asks + 1,
        told(view, true).lesson_token == view.lesson_token,
{
}

/// The button that answers the question on screen rightly, or wrongly.
pub open spec fn side_for(view: TrainerModel, want_correct: bool) -> Option<VisionSide> {
    match view.vision {
        Some(vision) => if is_two_way(vision.answer) {
            Some(
                if (vision.answer is Light || vision.answer is Yes) == want_correct {
                    VisionSide::A
                } else {
                    VisionSide::B
                },
            )
        } else {
            None
        },
        None => None,
    }
}

/// The button named as the right one is judged by the answer to the question, and the one named as
/// wrong by another; there is one exactly where the question on screen is answered by a button.
pub proof fn the_right_button_gives_the_right_answer(view: TrainerModel, want_correct: bool)
    requires
        view.vision matches Some(vision) && (vision.answer is Light || vision.answer is Dark
            ==> vision.rung.colours) && (vision.answer is Yes || vision.answer is No
            ==> !vision.rung.colours),
    ensures
        side_for(view, want_correct) is None <==> view.vision->0.answer is Squares,
        side_for(view, want_correct) matches Some(side) ==> {
            let judged = after_button(view, side).outbox.last();
            want_correct <==> judged == (TaskModel::Judge { answer: view.vision->0.answer })
        },
        side_for(TrainerModel { vision: None, ..view }, want_correct) is None,
{
}

/// A pawn that has a choice to make raises the picker, and no move is offered until a piece is chosen;
/// a piece that the picker offers then offers the move that was found for it, and one that it does not
/// offer changes nothing.
pub proof fn a_promotion_waits_for_its_piece(
    view: TrainerModel,
    from: Square,
    to: Square,
    choices: Seq<Role>,
    spot: Spot,
    role: Role,
    found: Option<Seq<char>>,
    uci: Seq<char>,
)
    requires
        view.current is Some,
        choices.len() > 1,
        spot.width > 0 && spot.height > 0,
    ensures
        ({
            let asked = after_move(view, from, to, choices, spot, found);
            let chosen = after_choice(asked, role, Some(uci));
            &&& asked.promotion == Some((from, to))
            &&& asked.outbox == view.outbox
            &&& asked.board.picker is Some
            &&& asked.board.picker->0.color == view.current->0.turn
            &&& !choices.contains(role) ==> chosen == asked
            &&& choices.contains(role) ==> chosen.board.picker is None && chosen.outbox
                == view.outbox.push(TaskModel::OfferAttempt { uci })
        }),
{
    crate::board::the_picker_offers_what_can_be_chosen(
        view.board,
        to,
        view.current->0.turn == Color::White,
        choices,
        spot,
        role,
    );
}

/// What becomes of a rung is told behind the answer: the label of the rung that comes next, exactly
/// where one does, and that rung is the one kept.
pub proof fn the_next_rung_is_named(
    view: TrainerModel,
    ready: bool,
    above: Option<Rung>,
    falling: bool,
    below: Option<Rung>,
)
    requires
        view.graded is Some,
    ensures
        ({
            let after = climbed(view, ready, above, falling, below);
            let up = ready && above is Some;
            let down = !up && falling && below is Some;
            &&& after.graded is None
            &&& up ==> after.lesson == answer_text(view.graded->0.answer) + " — next: "@
                + above->0.label@ && after.outbox == view.outbox.push(
                TaskModel::StoreRung(above->0.key@),
            )
            &&& down ==> after.lesson == answer_text(view.graded->0.answer) + " — next: "@
                + below->0.label@ && after.outbox == view.outbox.push(
                TaskModel::StoreRung(below->0.key@),
            )
            &&& !up && !down ==> after.lesson == view.lesson && after.outbox == view.outbox
        }),
{
}

/// Looking for a puzzle clears away what the last one told and asks for the next, once; the tab begins
/// by describing its mode and looking.
pub proof fn looking_for_a_puzzle_clears_the_last(
    view: TrainerModel,
    art: bool,
    has_engine: bool,
    mode: Mode,
)
    ensures
        looking(view).origin == ""@,
        !looking(view).origin_warning,
        looking(view).lesson == ""@,
        looking(view).asked_about is None,
        looking(view).lesson_token != view.lesson_token,
        looking(view).outbox == view.outbox.push(TaskModel::ClearBanner).push(
            TaskModel::NextPuzzle,
        ),
        looking(view).current == view.current,
        opened(art, has_engine, mode).mode == mode,
        opened(art, has_engine, mode).has_engine == has_engine,
        opened(art, has_engine, mode).outbox.len() == 3,
        opened(art, has_engine, mode).outbox[0] is DescribeMode,
        opened(art, has_engine, mode).outbox[2] is NextPuzzle,
        opened(art, has_engine, mode).current is None,
        !opened(art, has_engine, mode).session_started,
{
}

/// A new tab listens to its board in the mode that was left on, and has nothing in hand: no puzzle, no
/// question, nothing asked of the engine. A mode is picked by its own title.
pub proof fn a_new_tab_waits_for_a_puzzle(art: bool, has_engine: bool, mode: Mode)
    ensures
        ({
            let fresh = fresh_trainer(art, has_engine, mode);
            &&& fresh.board.hears_moves && fresh.board.hears_drags
            &&& fresh.board == (BoardModel { hears_moves: true, hears_drags: true, ..fresh_board(art) })
            &&& fresh.has_engine == has_engine && fresh.mode == mode
            &&& fresh.current is None && fresh.handed_in is None && fresh.promotion is None
            &&& fresh.vision is None && fresh.judging is None && fresh.graded is None
            &&& fresh.vision_a == "Light"@ && fresh.vision_b == "Dark"@ && fresh.two_way
            &&& !fresh.vision_row && !fresh.session_started
            &&& fresh.start_visible && fresh.start_sensitive
            &&& fresh.asked_about is None && !fresh.lesson_busy && fresh.lesson_asks == 0
            &&& fresh.status == "Loading…"@ && fresh.timer == "0:00"@
            &&& fresh.origin == ""@ && !fresh.origin_warning && fresh.caption == ""@
            &&& fresh.detail == ""@ && fresh.lesson == ""@
            &&& fresh.outbox.len() == 0
        }),
        mode_title(mode) == "Learn"@ <==> mode == Mode::Learn,
        mode_title(mode) == "Repeat & measure"@ <==> mode == Mode::Repeat,
        mode_title(mode) == "Board vision"@ <==> mode == Mode::Vision,
{
    reveal_strlit("Learn");
    reveal_strlit("Repeat & measure");
    reveal_strlit("Board vision");
    assert("Learn"@.len() == 5 && "Repeat & measure"@.len() == 16 && "Board vision"@.len() == 12);
}

/// A question in board vision leaves nothing of the last position over: nothing selected or marked on
/// the board, no clock, no lesson and no start. A move that failed for another reason says that reason
/// and changes nothing of the attempt; and a wrong move takes the last lesson down until there is
/// another.
pub proof fn nothing_is_left_over_from_the_last_position(
    view: TrainerModel,
    rung: Rung,
    prompt: Seq<char>,
    answer: AnswerModel,
    pieces: Seq<Option<Piece>>,
    uci: Seq<char>,
    why: String,
    after: AttemptPoint,
    origin: Origin,
    fatigue: Fatigue,
    submitted: Submitted,
)
    ensures
        ({
            let asked = asking(view, rung, prompt, answer, pieces);
            &&& asked.board.selected is None
            &&& asked.board.last_move is None
            &&& asked.board.check is None
            &&& asked.board.mate is None
            &&& asked.lesson == ""@
            &&& asked.timer == ""@
            &&& !asked.start_visible
            &&& asked.current == view.current
            &&& asked.outbox == view.outbox.push(TaskModel::DescribeMode)
        }),
        view.current is Some ==> {
            let failed = after_offer(view, uci, Outcome::Failed(why), after);
            &&& failed.status == why@
            &&& failed.current == view.current
            &&& failed.board == view.board
            &&& after_offer(view, uci, Outcome::Wrong, after).lesson == ""@
        },
        told(view, true).lesson == "Looking at why…"@,
        view.handed_in is Some && fatigue.turned ==> finished(
            view,
            Some(origin),
            Some(fatigue),
            submitted,
        ).origin == finished(view, Some(origin), None, submitted).origin + "\n\n"@ + finished(
            view,
            None,
            Some(fatigue),
            submitted,
        ).origin,
{
    reveal_strlit("");
    reveal_strlit("From your game on ");
    assert(origin_text(origin).len() > 0);
}

impl Trainer {
    /// The tab at the start, in the mode that was left on.
    pub fn new(art: bool, has_engine: bool, mode: Mode) -> (r: Trainer)
        ensures
            r@ == opened(art, has_engine, mode),
    {
        let mut board = BoardView::new(art);
        board.connect_move();
        board.connect_drag();
        let mut view = Trainer {
            board,
            has_engine,
            mode,
            vision_a: "Light".to_owned(),
            vision_b: "Dark".to_owned(),
            two_way: true,
            vision_row: false,
            vision: None,
            judging: None,
            graded: None,
            origin: "".to_owned(),
            origin_warning: false,
            caption: "".to_owned(),
            start_visible: true,
            start_sensitive: true,
            session_started: false,
            status: "Loading…".to_owned(),
            timer: "0:00".to_owned(),
            detail: "".to_owned(),
            lesson: "".to_owned(),
            lesson_token: 0,
            lesson_busy: false,
            lesson_asks: 0,
            asked_about: None,
            current: None,
            handed_in: None,
            promotion: None,
            outbox: Vec::new(),
        };
        assert(tasks(view.outbox@) =~= Seq::<TaskModel>::empty()) by {
            reveal(tasks);
        }
        view.post(Task::DescribeMode);
        view.load_next();
        view
    }

    /// Leave something to be done.
    fn post(&mut self, task: Task)
        ensures
            final(self)@ == posting(old(self)@, task@),
    {
        proof {
            reveal(tasks);
        }
        let ghost before = self.outbox@;
        self.outbox.push(task);
        assert(tasks(self.outbox@) =~= tasks(before).push(task@));
    }

    /// Take everything that is to be done.
    pub fn take_tasks(&mut self) -> (r: Vec<Task>)
        ensures
            tasks(r@) == old(self)@.outbox,
            final(self)@ == (TrainerModel { outbox: Seq::empty(), ..old(self)@ }),
    {
        let mut taken: Vec<Task> = Vec::new();
        std::mem::swap(&mut taken, &mut self.outbox);
        assert(tasks(self.outbox@) =~= Seq::<TaskModel>::empty()) by {
            reveal(tasks);
        }
        taken
    }

    /// Say something beside the board.
    fn say(&mut self, status: String)
        ensures
            final(self)@ == (TrainerModel { status: status@, ..old(self)@ }),
    {
        self.status = status;
    }

    /// Switch what the tab is doing.
    pub fn set_mode(&mut self, mode: Mode)
        ensures
            final(self)@ == switched(old(self)@, mode),
    {
        self.mode = mode;
        self.post(Task::StoreMode(mode));
        self.post(Task::DescribeMode);
        if mode == Mode::Vision {
            self.post(Task::DealVision);
        } else {
            self.leave_vision();
            self.load_next();
        }
    }

    /// Put board vision away.
    fn leave_vision(&mut self)
        ensures
            final(self)@ == (TrainerModel {
                vision: None,
                vision_row: false,
                board: BoardModel { marks: Seq::empty(), ..old(self)@.board },
                ..old(self)@
            }),
    {
        self.vision = None;
        self.vision_row = false;
        let none: Vec<Square> = Vec::new();
        assert(none@ =~= Seq::<Square>::empty());
        self.board.set_marks(&none);
    }

    /// Deal a board-vision question.
    pub fn next_vision(
        &mut self,
        rung: Rung,
        prompt: String,
        answer: Answer,
        pieces: &Vec<Option<Piece>>,
    )
        requires
            pieces@.len() == 64,
        ensures
            final(self)@ == asking(old(self)@, rung, prompt@, answer@, pieces@),
    {
        self.retire();
        self.draw_question(pieces);
        self.pose(rung, prompt, answer);
        self.post(Task::DescribeMode);
    }

    /// Retire every answer still in flight: its position has been left.
    fn retire(&mut self)
        ensures
            final(self)@ == retired(old(self)@),
    {
        if self.lesson_busy {
            self.lesson = "".to_owned();
        }
        self.lesson_token = if self.lesson_token == u64::MAX {
            0
        } else {
            self.lesson_token + 1
        };
        self.asked_about = None;
    }

    /// Draw the arrangement that a question is about.
    fn draw_question(&mut self, pieces: &Vec<Option<Piece>>)
        requires
            pieces@.len() == 64,
        ensures
            final(self)@ == (TrainerModel {
                board: BoardModel {
                    orientation: Color::White,
                    pieces: pieces@,
                    marks: Seq::empty(),
                    selected: None,
                    last_move: None,
                    check: None,
                    mate: None,
                    ..old(self)@.board
                },
                ..old(self)@
            }),
    {
        let none: Vec<Square> = Vec::new();
        assert(none@ =~= Seq::<Square>::empty());
        self.board.set_orientation(Color::White);
        self.board.set_board(pieces);
        self.board.set_marks(&none);
        self.board.select(None);
        self.board.set_last_move(None);
        self.board.set_check(None);
        self.board.set_mate(None);
    }

    /// Put a question: two buttons for a two-way answer, the board for everything else.
    fn pose(&mut self, rung: Rung, prompt: String, answer: Answer)
        ensures
            final(self)@ == (TrainerModel {
                status: prompt@,
                lesson: ""@,
                timer: ""@,
                start_visible: false,
                vision_a: if rung.colours {
                    "Light"@
                } else {
                    "Yes"@
                },
                vision_b: if rung.colours {
                    "Dark"@
                } else {
                    "No"@
                },
                two_way: is_two_way(answer@),
                vision_row: true,
                vision: Some(
                    VisionModel { rung, prompt: prompt@, answer: answer@, chosen: Seq::empty() },
                ),
                ..old(self)@
            }),
    {
        let (a, b) = if rung.colours {
            ("Light", "Dark")
        } else {
            ("Yes", "No")
        };
        let two_way = match &answer {
            Answer::Squares(_) => false,
            _ => true,
        };
        self.status = prompt.clone();
        self.lesson = "".to_owned();
        self.timer = "".to_owned();
        self.start_visible = false;
        self.vision_a = a.to_owned();
        self.vision_b = b.to_owned();
        self.two_way = two_way;
        self.vision_row = true;
        let chosen: Vec<Square> = Vec::new();
        assert(chosen@ =~= Seq::<Square>::empty());
        self.vision = Some(VisionDrill { rung, prompt, answer, chosen });
    }

    /// An answer button was pressed.
    pub fn answer_vision_button(&mut self, side: VisionSide)
        ensures
            final(self)@ == after_button(old(self)@, side),
    {
        let given = match &self.vision {
            Some(vision) => match (vision.rung.colours, side) {
                (true, VisionSide::A) => Answer::Light,
                (true, VisionSide::B) => Answer::Dark,
                (false, VisionSide::A) => Answer::Yes,
                (false, VisionSide::B) => Answer::No,
            },
            None => {
                return;
            },
        };
        self.give(given);
    }

    /// The clicked squares are offered as the answer.
    pub fn commit_vision(&mut self)
        ensures
            final(self)@ == after_commit(old(self)@),
    {
        let given = match &self.vision {
            Some(vision) => Answer::Squares(crate::board::same_squares(&vision.chosen)),
            None => {
                return;
            },
        };
        self.give(given);
    }

    /// Have an answer judged.
    fn give(&mut self, answer: Answer)
        ensures
            final(self)@ == answered(old(self)@, answer@),
    {
        match self.vision.take() {
            Some(vision) => {
                self.judging = Some(vision);
                self.post(Task::Judge { answer });
            },
            None => {},
        }
    }

    /// A click during board vision picks a square rather than moving a piece.
    fn choose_square(&mut self, square: Square)
        ensures
            final(self)@ == picked(old(self)@, square),
    {
        match self.vision.take() {
            Some(vision) => {
                let chosen = toggle(&vision.chosen, square);
                self.board.set_marks(&chosen);
                self.vision = Some(
                    VisionDrill {
                        rung: vision.rung,
                        prompt: vision.prompt,
                        answer: vision.answer,
                        chosen,
                    },
                );
            },
            None => {},
        }
    }

    /// The answer was judged; `seconds` is how long it took, with one decimal.
    pub fn grade_vision(&mut self, right: bool, seconds: &str)
        ensures
            final(self)@ == judged(old(self)@, right, seconds@),
    {
        let vision = match self.judging.take() {
            Some(vision) => vision,
            None => {
                return;
            },
        };
        let key = vision.rung.key.clone();
        let squares = expected_squares(&vision.answer);
        self.lesson = describe_answer(&vision.answer);
        self.graded = Some(vision);
        if right {
            self.status = glue3("Right — ", seconds, "s");
            self.post(Task::RecordVision { rung: key, right });
            self.post(Task::DealVisionAfter(VISION_RIGHT_MS));
        } else {
            self.status = "Not that.".to_owned();
            self.board.set_marks(&squares);
            self.post(Task::RecordVision { rung: key, right });
            self.post(Task::DealVisionAfter(VISION_WRONG_MS));
        }
    }

    /// It was looked up what becomes of the rung: whether it has been climbed, and which one is
    /// above it; and whether it is to give way, and which one is below it.
    pub fn climb(
        &mut self,
        ready: bool,
        above: Option<Rung>,
        falling: bool,
        below: Option<Rung>,
    )
        ensures
            final(self)@ == climbed(old(self)@, ready, above, falling, below),
    {
        let next = if ready && above.is_some() {
            above
        } else if falling {
            below
        } else {
            None
        };
        match (self.graded.take(), next) {
            (Some(vision), Some(next)) => {
                self.lesson = glue3(
                    describe_answer(&vision.answer).as_str(),
                    " — next: ",
                    next.label.as_str(),
                );
                self.post(Task::StoreRung(next.key));
            },
            _ => {},
        }
    }

    /// The next board-vision question is due, and this is the mode.
    pub fn vision_due(&mut self, mode: Mode)
        ensures
            final(self)@ == vision_due(old(self)@, mode),
    {
        if mode == Mode::Vision {
            self.post(Task::DealVision);
        }
    }

    /// Say plainly which mode is on and what it does, so the distinction is never a hidden
    /// detail.
    pub fn describe_mode(&mut self, note: &ModeNote)
        ensures
            final(self)@ == (TrainerModel { caption: caption_text(*note), ..old(self)@ }),
    {
        self.caption = match note {
            ModeNote::Vision { label, number: place, asked, right } => {
                let mut text = glue2(label.as_str(), " — ");
                if *asked == 0 {
                    push_number(&mut text, *place);
                    text.append(" of 6.");
                } else {
                    push_number(&mut text, *right);
                    text.append(" of ");
                    push_number(&mut text, *asked);
                    text.append(" right.");
                }
                text
            },
            ModeNote::Repeat { solved } => {
                let mut text = "Re-testing ".to_owned();
                push_number(&mut text, *solved);
                text.append(" solved puzzle");
                push_plural(&mut text, *solved);
                text.append(" — these attempts are measured.");
                text
            },
            ModeNote::Learn => {
                "New puzzles, rising in difficulty. Building repertoire; not measured.".to_owned()
            },
        };
    }

    /// Clear away what the last puzzle revealed, and look for the next.
    pub fn load_next(&mut self)
        ensures
            final(self)@ == looking(old(self)@),
    {
        // A new position is walked into blind, so whatever the last one revealed is cleared
        // before it appears.
        self.origin = "".to_owned();
        self.origin_warning = false;
        self.lesson = "".to_owned();
        self.lesson_token = if self.lesson_token == u64::MAX {
            0
        } else {
            self.lesson_token + 1
        };
        self.asked_about = None;
        self.post(Task::ClearBanner);
        self.post(Task::NextPuzzle);
    }

    /// The next puzzle was looked for.
    pub fn puzzle_loaded(&mut self, next: NextPuzzle)
        ensures
            final(self)@ == loaded(old(self)@, next),
    {
        match next {
            NextPuzzle::Ready(dealt) => self.deal(dealt),
            NextPuzzle::Bad(why) => self.say(glue2("Skipping bad puzzle: ", why.as_str())),
            NextPuzzle::Nothing { repeating, wait } => {
                self.current = None;
                self.say(describe_nothing(repeating, wait));
            },
            NextPuzzle::Failed(why) => self.say(glue2("Database error: ", why.as_str())),
        }
    }

    /// Put a puzzle in place, and show it where the session is under way.
    fn deal(&mut self, dealt: Dealt)
        ensures
            final(self)@ == dealt_out(old(self)@, dealt),
    {
        let started = self.session_started;
        let turn = dealt.turn;
        self.place(dealt);
        if started {
            // Mid-session: reveal and time in the same instant, so nothing can be studied while
            // the clock is stopped.
            self.show_position();
        } else {
            self.hold_back(turn);
        }
    }

    /// Wait for the solver to be ready.
    fn hold_back(&mut self, turn: Color)
        ensures
            final(self)@ == (TrainerModel {
                status: crate::chess::color_name(turn) + " to play — press Start when ready"@,
                start_sensitive: true,
                start_visible: true,
                ..old(self)@
            }),
    {
        self.status = glue2(turn.name(), " to play — press Start when ready");
        self.start_sensitive = true;
        self.start_visible = true;
    }

    /// Put a puzzle in place, without showing anything of it.
    fn place(&mut self, dealt: Dealt)
        ensures
            final(self)@ == placed(old(self)@, dealt),
    {
        // The solver plays the side to move, so show it from their side.
        self.board.set_orientation(dealt.turn);
        self.board.clear();
        self.board.select(None);
        self.board.set_last_move(None);
        self.board.set_check(None);
        self.board.set_mate(None);
        self.detail = glue4(
            "Rating ",
            number(dealt.rating as u64).as_str(),
            " · ",
            crate::text::join(&dealt.themes, ", ").as_str(),
        );
        self.current = Some(
            Current {
                id: dealt.id,
                rating: dealt.rating,
                fen: dealt.fen,
                turn: dealt.turn,
                expected: dealt.expected,
                ply: 0,
                failed: false,
                started_solving: false,
                misses: 0,
            },
        );
        self.timer = "0:00".to_owned();
    }

    /// Begin the session. Only the first puzzle needs this.
    pub fn begin_solving(&mut self)
        ensures
            final(self)@ == begun(old(self)@),
    {
        self.session_started = true;
        // A sitting is opened once, on the first puzzle, so every attempt can be filed by how
        // deep into the session it was.
        self.post(Task::OpenSitting);
        self.show_position();
    }

    /// Show the position and start timing it, in the same instant.
    fn show_position(&mut self)
        ensures
            final(self)@ == revealing(old(self)@),
    {
        match self.current.take() {
            Some(current) => {
                self.board.set_position(current.fen.as_str());
                self.board.set_check(check_square(current.fen.as_str()));
                self.start_visible = false;
                self.status = glue2(current.turn.name(), " to play");
                self.current = Some(start_solving(current));
                self.post(Task::StartTiming);
            },
            None => {},
        }
    }

    /// The clock beside the board, so many seconds after the position was shown.
    pub fn tick(&mut self, seconds: u64)
        ensures
            final(self)@ == ticked(old(self)@, seconds),
    {
        let text = match &self.current {
            Some(current) => if current.started_solving {
                clock(seconds)
            } else {
                "0:00".to_owned()
            },
            None => {
                return;
            },
        };
        self.timer = text;
    }

    /// True only once the solver has pressed Start on the current puzzle.
    pub fn solving(&self) -> (r: bool)
        ensures
            r == is_solving(self@),
    {
        match &self.current {
            Some(current) => current.started_solving,
            None => false,
        }
    }

    /// Whether a square holds a piece of the side to move.
    fn has_own_piece(&self, square: Square) -> (r: bool)
        ensures
            r == own_piece(self@, square),
    {
        match &self.current {
            Some(current) => crate::rules::holds_piece_of(
                current.fen.as_str(),
                square,
                current.turn,
            ),
            None => false,
        }
    }

    /// A square was clicked. `choices`, `spot` and `found` are those of a move from the selected
    /// square to this one.
    pub fn on_square(
        &mut self,
        square: Square,
        choices: &Vec<Role>,
        spot: Spot,
        found: Option<String>,
    )
        requires
            crate::board::picker_fits(old(self)@.board, square, choices@, spot),
        ensures
            final(self)@ == after_click(old(self)@, square, choices@, spot, opt_text(found)),
    {
        if self.vision.is_some() {
            self.choose_square(square);
        } else if self.solving() {
            self.click_puzzle(square, choices, spot, found);
        }
    }

    /// Mark a square as the origin of a move in progress.
    fn select(&mut self, square: Option<Square>)
        ensures
            final(self)@ == selecting(old(self)@, square),
    {
        self.board.select(square);
    }

    /// A square was clicked while a puzzle is being solved.
    fn click_puzzle(
        &mut self,
        square: Square,
        choices: &Vec<Role>,
        spot: Spot,
        found: Option<String>,
    )
        requires
            crate::board::picker_fits(old(self)@.board, square, choices@, spot),
        ensures
            final(self)@ == puzzle_clicked(old(self)@, square, choices@, spot, opt_text(found)),
    {
        let own = self.has_own_piece(square);
        match self.board.selected() {
            None => if own {
                self.select(Some(square));
            },
            Some(from) => if from == square {
                self.select(None);
            } else if own && found.is_none() {
                self.select(Some(square));
            } else {
                self.select(None);
                self.offer_move(from, square, choices, spot, found);
            },
        }
    }

    /// A piece was dragged straight from one square to another.
    pub fn on_drag(
        &mut self,
        from: Square,
        to: Square,
        choices: &Vec<Role>,
        spot: Spot,
        found: Option<String>,
    )
        requires
            crate::board::picker_fits(old(self)@.board, to, choices@, spot),
        ensures
            final(self)@ == after_drag(old(self)@, from, to, choices@, spot, opt_text(found)),
    {
        if self.solving() && self.has_own_piece(from) {
            self.select(None);
            self.offer_move(from, to, choices, spot, found);
        }
    }

    /// Offer a move, asking which piece first when a pawn reaches the last rank. A puzzle whose
    /// answer is an underpromotion cannot be solved by a board that always queens.
    pub fn offer_move(
        &mut self,
        from: Square,
        to: Square,
        choices: &Vec<Role>,
        spot: Spot,
        found: Option<String>,
    )
        requires
            crate::board::picker_fits(old(self)@.board, to, choices@, spot),
        ensures
            final(self)@ == after_move(old(self)@, from, to, choices@, spot, opt_text(found)),
    {
        let white = match &self.current {
            Some(current) => current.turn == Color::White,
            None => {
                return;
            },
        };
        if choices.len() > 1 {
            self.board.ask_promotion(to, white, choices, spot);
            self.promotion = Some((from, to));
        } else {
            match found {
                Some(uci) => self.post(Task::OfferAttempt { uci }),
                None => {},
            }
        }
    }

    /// A piece was chosen in the promotion picker; `found` is the promoting move.
    pub fn choose_promotion(&mut self, role: Role, found: Option<String>)
        ensures
            final(self)@ == after_choice(old(self)@, role, opt_text(found)),
    {
        if self.promotion.is_none() {
            return;
        }
        match self.board.click_promotion_choice(role) {
            Ok(_) => match (self.current.is_some(), found) {
                (true, Some(uci)) => self.post(Task::OfferAttempt { uci }),
                _ => {},
            },
            Err(_) => {},
        }
    }

    /// A move was played in the puzzle: what came of it, and where the puzzle then stands.
    pub fn offered(&mut self, uci: String, outcome: Outcome, after: AttemptPoint)
        requires
            old(self)@.current matches Some(current) ==> current.ply < u32::MAX && current.misses
                < u32::MAX,
        ensures
            final(self)@ == after_offer(old(self)@, uci@, outcome, after),
    {
        let last = match &self.current {
            Some(current) => match crate::rules::moved(current.fen.as_str(), uci.as_str()) {
                Some(step) => crate::rules::move_squares(step),
                None => None,
            },
            None => {
                return;
            },
        };
        let correct = match &outcome {
            Outcome::Continued(_) => true,
            Outcome::Solved => true,
            _ => false,
        };
        self.log(uci.as_str(), correct);
        if correct {
            self.move_on(after);
        }
        match outcome {
            Outcome::Wrong => {
                self.reject();
                // Only now. A wrong move has just made the attempt a failure, and every
                // measurement counts correct attempts alone, so from here the clock on this
                // puzzle is out of the figures and the engine cannot distort one.
                self.ask_why(uci.as_str());
            },
            Outcome::Continued(reply) => self.go_on(reply),
            Outcome::Solved => self.finish(last),
            Outcome::Failed(why) => self.say(why),
        }
    }

    /// Write a move down.
    fn log(&mut self, uci: &str, correct: bool)
        requires
            old(self)@.current matches Some(current) ==> current.ply < u32::MAX,
        ensures
            final(self)@ == logged(old(self)@, uci@, correct),
    {
        match self.current.take() {
            Some(current) => {
                let expected = match &current.expected {
                    Some(expected) => expected.clone(),
                    None => "".to_owned(),
                };
                let task = Task::LogAttempt {
                    id: current.id.clone(),
                    ply: current.ply,
                    played: uci.to_owned(),
                    expected,
                    correct,
                    revealed: current.misses >= REVEAL_AFTER_MISSES,
                };
                self.current = Some(count_ply(current, correct));
                self.post(task);
            },
            None => {},
        }
    }

    /// Take the puzzle to where a move has brought it.
    fn move_on(&mut self, after: AttemptPoint)
        ensures
            final(self)@ == moved_on(old(self)@, after),
    {
        match self.current.take() {
            Some(current) => {
                self.current = Some(bring_to(current, after));
            },
            None => {},
        }
    }

    /// Count a wrong move, and speak of it.
    fn reject(&mut self)
        requires
            old(self)@.current matches Some(current) ==> current.misses < u32::MAX,
        ensures
            final(self)@ == rejected(old(self)@),
    {
        match self.current.take() {
            Some(current) => {
                let misses: u32 = current.misses + 1;
                let answer = match &current.expected {
                    Some(uci) => crate::rules::san(current.fen.as_str(), uci.as_str()),
                    None => None,
                };
                self.current = Some(count_miss(current));
                // Said once: the status line sits beside the board and carries this, and the line
                // under it explains why.
                self.say(describe_rejection(misses, &answer));
            },
            None => {},
        }
    }

    /// Ask what punishes the move that was just played.
    ///
    /// The question is about the position the mistake leads to, which nobody has analysed: the
    /// puzzle's author never considered it.
    fn ask_why(&mut self, uci: &str)
        ensures
            final(self)@ == wondering(old(self)@, uci@),
    {
        self.lesson = "".to_owned();
        let asked = match &self.current {
            Some(current) => if !self.has_engine || self.lesson_busy {
                None
            } else {
                match (
                    crate::rules::san_plus(current.fen.as_str(), uci),
                    crate::rules::after(current.fen.as_str(), uci),
                ) {
                    (Some(played), Some(after)) => Some((played, after)),
                    _ => None,
                }
            },
            None => None,
        };
        match asked {
            Some((played, after)) => {
                let token: u64 = if self.lesson_token == u64::MAX {
                    0
                } else {
                    self.lesson_token + 1
                };
                self.lesson_token = token;
                let moves: Vec<String> = Vec::new();
                assert(texts(moves@) =~= Seq::<Seq<char>>::empty());
                let request = Request::Evaluate {
                    fen: after.clone(),
                    moves,
                    depth: LESSON_DEPTH,
                    token,
                };
                self.asked_about = Some((after, played));
                self.post(Task::AskWhy(request));
            },
            None => {},
        }
    }

    /// Whether the engine took the question.
    pub fn asked(&mut self, sent: bool)
        requires
            old(self)@.lesson_asks < u64::MAX,
        ensures
            final(self)@ == told(old(self)@, sent),
    {
        if sent {
            self.lesson_busy = true;
            self.lesson_asks = self.lesson_asks + 1;
            self.lesson = "Looking at why…".to_owned();
        }
    }

    /// The engine said why a move was wrong: `lesson`, where it had anything usable to say. A
    /// blank line is honest; a confident one would not be.
    pub fn evaluated(&mut self, token: u64, lesson: Option<String>)
        ensures
            final(self)@ == after_evaluation(old(self)@, token, opt_text(lesson)),
    {
        self.lesson_busy = false;
        if token == self.lesson_token && self.asked_about.is_some() {
            self.lesson = match lesson {
                Some(text) => text,
                None => "".to_owned(),
            };
        }
    }

    /// A request to the engine failed.
    pub fn engine_failed(&mut self)
        ensures
            final(self)@ == (TrainerModel { lesson_busy: false, lesson: ""@, ..old(self)@ }),
    {
        self.lesson_busy = false;
        self.lesson = "".to_owned();
    }

    /// The engine thread is gone for good.
    pub fn engine_gone(&mut self)
        ensures
            final(self)@ == (TrainerModel { lesson_busy: false, ..old(self)@ }),
    {
        self.lesson_busy = false;
    }

    /// Draw the position after a move.
    fn draw(&mut self)
        ensures
            final(self)@ == drawn(old(self)@),
    {
        let fen = match &self.current {
            Some(current) => current.fen.clone(),
            None => {
                return;
            },
        };
        self.board.set_position(fen.as_str());
        self.board.set_check(check_square(fen.as_str()));
    }

    /// Go on after a right move.
    fn go_on(&mut self, reply: Option<(Square, Square)>)
        ensures
            final(self)@ == continued(old(self)@, reply),
    {
        self.draw();
        self.retire();
        self.highlight(reply);
        self.say("Good — keep going".to_owned());
    }

    /// Highlight a move.
    fn highlight(&mut self, squares: Option<(Square, Square)>)
        ensures
            final(self)@ == (TrainerModel {
                board: BoardModel { last_move: squares, ..old(self)@.board },
                ..old(self)@
            }),
    {
        self.board.set_last_move(squares);
    }

    /// The puzzle is solved: draw its end, and hand the attempt in.
    fn finish(&mut self, last: Option<(Square, Square)>)
        ensures
            final(self)@ == solved(old(self)@, last),
    {
        if self.current.is_some() {
            self.retire();
        }
        self.draw();
        self.hand_in(last);
    }

    /// Mark the end of a puzzle, and hand the attempt in.
    fn hand_in(&mut self, last: Option<(Square, Square)>)
        ensures
            final(self)@ == match old(self)@.current {
                Some(current) => TrainerModel {
                    board: BoardModel {
                        mate: mated_king(current.fen@),
                        last_move: last,
                        ..old(self)@.board
                    },
                    current: None,
                    handed_in: Some(current),
                    outbox: old(self)@.outbox.push(
                        TaskModel::Submit {
                            id: current.id@,
                            rating: current.rating,
                            correct: !current.failed,
                        },
                    ),
                    ..old(self)@
                },
                None => old(self)@,
            },
    {
        match self.current.take() {
            Some(current) => {
                // Most puzzles end in mate, and the board has a louder mark for it than for check.
                self.board.set_mate(mate_square(current.fen.as_str()));
                self.board.set_last_move(last);
                let task = Task::Submit {
                    id: current.id.clone(),
                    rating: current.rating,
                    correct: !current.failed,
                };
                self.handed_in = Some(current);
                self.post(task);
            },
            None => {},
        }
    }

    /// The attempt was handed in: the game that the puzzle came from, where it came from one; how
    /// the sitting has gone, where that can be said; and what became of the attempt.
    pub fn submitted(
        &mut self,
        origin: Option<Origin>,
        fatigue: Option<Fatigue>,
        submitted: Submitted,
    )
        requires
            origin matches Some(origin) ==> crate::dates::in_range(origin.played_at as int),
        ensures
            final(self)@ == finished(old(self)@, origin, fatigue, submitted),
    {
        match self.handed_in.take() {
            Some(current) => {
                let correct = !current.failed;
                self.look_back(origin, fatigue);
                self.credit(correct, submitted);
                self.post(Task::NextPuzzleAfter(NEXT_PUZZLE_MS));
            },
            None => {},
        }
    }

    /// Say what was played in the game this position came from, and say so when this sitting has
    /// stopped helping.
    ///
    /// The origin is shown only once the position is answered: beforehand it would give the move
    /// away. The useful moment to learn that a session has gone downhill is during it, not in a
    /// report a week later.
    fn look_back(&mut self, origin: Option<Origin>, fatigue: Option<Fatigue>)
        requires
            origin matches Some(origin) ==> crate::dates::in_range(origin.played_at as int),
        ensures
            final(self)@ == looked_back(old(self)@, origin, fatigue),
    {
        let line = match origin {
            Some(origin) => describe_origin(&origin),
            None => "".to_owned(),
        };
        match fatigue {
            Some(fatigue) => {
                if fatigue.turned {
                    // What was just written here is worth keeping; this is added to it rather
                    // than over it.
                    let warning = describe_fatigue(&fatigue);
                    self.origin = if line.as_str().unicode_len() == 0 {
                        warning
                    } else {
                        glue3(line.as_str(), "\n\n", warning.as_str())
                    };
                    self.origin_warning = true;
                } else {
                    self.origin = line;
                }
            },
            None => {
                self.origin = line;
            },
        }
    }

    /// Say what became of an attempt.
    fn credit(&mut self, correct: bool, submitted: Submitted)
        ensures
            final(self)@ == credited(old(self)@, correct, submitted),
    {
        match submitted {
            Submitted::Recorded { seconds, baseline, grade, due, rating, band } => {
                self.status = if correct {
                    glue5(
                        "Solved in ",
                        seconds.as_str(),
                        "s (your pace for this level: ",
                        baseline.as_str(),
                        "s)",
                    )
                } else {
                    glue3("Missed it — back soon. ", seconds.as_str(), "s")
                };
                let mut detail = glue5(
                    grade.as_str(),
                    " · next in ",
                    humanise(due).as_str(),
                    " · rating ",
                    rating.as_str(),
                );
                detail.append(" · band ");
                detail.append(band.as_str());
                self.detail = detail;
            },
            Submitted::Failed(why) => {
                self.status = glue2("Could not record attempt: ", why.as_str());
            },
        }
    }

    /// The button that answers the question on screen rightly, or wrongly. There is none for a
    /// question that is answered by clicking squares.
    pub fn vision_side_for(&self, want_correct: bool) -> (r: Option<VisionSide>)
        ensures
            r == side_for(self@, want_correct),
    {
        match &self.vision {
            Some(vision) => {
                let a_is_right = match &vision.answer {
                    Answer::Light => true,
                    Answer::Yes => true,
                    Answer::Dark => false,
                    Answer::No => false,
                    Answer::Squares(_) => {
                        return None;
                    },
                };
                Some(
                    if a_is_right == want_correct {
                        VisionSide::A
                    } else {
                        VisionSide::B
                    },
                )
            },
            None => None,
        }
    }

    /// The squares that would answer the drill on screen correctly.
    pub fn vision_answer(&self) -> (r: Vec<Square>)
        ensures
            r@ == match self@.vision {
                Some(vision) => answer_squares(vision.answer),
                None => Seq::empty(),
            },
    {
        match &self.vision {
            Some(vision) => expected_squares(&vision.answer),
            None => {
                let none: Vec<Square> = Vec::new();
                assert(none@ =~= Seq::<Square>::empty());
                none
            },
        }
    }
}

/// A puzzle whose position is shown.
fn start_solving(current: Current) -> (r: Current)
    ensures
        r == (Current { started_solving: true, ..current }),
{
    Current { started_solving: true, ..current }
}

/// A puzzle with a move counted where it was right.
fn count_ply(current: Current, correct: bool) -> (r: Current)
    requires
        current.ply < u32::MAX,
    ensures
        r == (Current {
            ply: if correct {
                (current.ply + 1) as u32
            } else {
                current.ply
            },
            ..current
        }),
{
    let ply: u32 = if correct {
        current.ply + 1
    } else {
        current.ply
    };
    Current { ply, ..current }
}

/// A puzzle brought to where a move has taken it.
fn bring_to(current: Current, after: AttemptPoint) -> (r: Current)
    ensures
        r == (Current {
            fen: after.fen,
            turn: after.turn,
            expected: after.expected,
            ..current
        }),
{
    Current { fen: after.fen, turn: after.turn, expected: after.expected, ..current }
}

/// A puzzle with a wrong move counted.
fn count_miss(current: Current) -> (r: Current)
    requires
        current.misses < u32::MAX,
    ensures
        r == (Current { failed: true, misses: (current.misses + 1) as u32, ..current }),
{
    let misses: u32 = current.misses + 1;
    Current { failed: true, misses, ..current }
}

/// A list with a square taken out where it was in, and put in where it was not.
pub fn toggle(squares: &Vec<Square>, square: Square) -> (r: Vec<Square>)
    ensures
        r@ == toggled(squares@, square),
{
    let mut out = crate::board::same_squares(squares);
    let mut at: usize = 0;
    while at < squares.len() && squares[at] != square
        invariant
            at <= squares.len(),
            first_place(squares@, square, 0) == first_place(squares@, square, at as int),
        decreases squares.len() - at,
    {
        at += 1;
    }
    if at < squares.len() {
        let _ = out.remove(at);
    } else {
        out.push(square);
    }
    out
}

/// Squares in the order of their names.
fn sort_squares(squares: &Vec<Square>) -> (r: Vec<Square>)
    ensures
        r@ == in_order(squares@),
{
    let mut out: Vec<Square> = Vec::new();
    let mut i: usize = 0;
    assert(squares@.take(0) =~= Seq::<Square>::empty());
    assert(out@ =~= in_order(squares@.take(0)));
    while i < squares.len()
        invariant
            i <= squares.len(),
            out@ == in_order(squares@.take(i as int)),
        decreases squares.len() - i,
    {
        assert(squares@.take(i + 1).drop_last() =~= squares@.take(i as int));
        assert(squares@.take(i + 1).last() == squares@[i as int]);
        insert_square(&mut out, squares[i]);
        i += 1;
    }
    assert(squares@.take(i as int) =~= squares@);
    out
}

/// Put a square into its place among squares that stand in the order of their names.
fn insert_square(squares: &mut Vec<Square>, square: Square)
    ensures
        final(squares)@ == put_in_order(square, old(squares)@),
    decreases old(squares)@.len(),
{
    let count = squares.len();
    if count == 0 || rank_name(squares[count - 1]) <= rank_name(square) {
        squares.push(square);
    } else {
        let ghost before = squares@;
        match squares.pop() {
            Some(last) => {
                assert(squares@ =~= before.drop_last());
                insert_square(squares, square);
                squares.push(last);
            },
            None => {},
        }
    }
}

/// Where a square stands in the order of names.
fn rank_name(square: Square) -> (r: u32)
    ensures
        r == name_order(square),
{
    8 * square.file.index() + square.rank.index()
}

/// What the answer was, for the line under the board.
pub fn describe_answer(answer: &Answer) -> (r: String)
    ensures
        r@ == answer_text(answer@),
{
    match answer {
        Answer::Light => "It is light.".to_owned(),
        Answer::Dark => "It is dark.".to_owned(),
        Answer::Yes => "Yes — it attacks it.".to_owned(),
        Answer::No => "No — it does not.".to_owned(),
        Answer::Squares(squares) => {
            let sorted = sort_squares(squares);
            let mut named: Vec<String> = Vec::new();
            let mut i: usize = 0;
            while i < sorted.len()
                invariant
                    i <= sorted.len(),
                    named@.len() == i,
                    forall|j: int|
                        0 <= j < i ==> (#[trigger] named@[j])@ == square_name(sorted@[j]),
                decreases sorted.len() - i,
            {
                named.push(sorted[i].name());
                i += 1;
            }
            assert(texts(named@) =~= names(sorted@));
            crate::text::join(&named, " ")
        },
    }
}

/// The squares that an answer names.
fn expected_squares(answer: &Answer) -> (r: Vec<Square>)
    ensures
        r@ == answer_squares(answer@),
{
    match answer {
        Answer::Squares(squares) => crate::board::same_squares(squares),
        _ => {
            let none: Vec<Square> = Vec::new();
            assert(none@ =~= Seq::<Square>::empty());
            none
        },
    }
}

/// What is said where there is nothing to solve.
pub fn describe_nothing(repeating: bool, wait: Option<i64>) -> (r: String)
    ensures
        r@ == nothing_text(repeating, wait),
{
    match wait {
        Some(millis) => {
            if repeating {
                glue3(
                    "Nothing far enough back to re-time yet — the first is ready in ",
                    describe_wait(millis).as_str(),
                    ". Turn Repeat off to keep learning new puzzles meanwhile.",
                )
            } else {
                "Nothing to solve. Load the puzzle database, or come back when reviews are due.".to_owned()
            }
        },
        None => {
            "Nothing to solve. Load the puzzle database, or come back when reviews are due.".to_owned()
        },
    }
}

/// What is said of a wrong move. The attempt is already a failure by the second one, so
/// withholding the answer past that point teaches nothing.
pub fn describe_rejection(misses: u32, answer: &Option<String>) -> (r: String)
    ensures
        r@ == rejection_text(misses, opt_text(*answer)),
{
    if misses >= REVEAL_AFTER_MISSES {
        match answer {
            Some(san) => glue3("Not the move. It is ", san.as_str(), " — play it to continue"),
            None => "Not the move".to_owned(),
        }
    } else {
        "Not the move — try again".to_owned()
    }
}

/// What was played in the game that a position came from.
fn describe_origin(origin: &Origin) -> (r: String)
    requires
        crate::dates::in_range(origin.played_at as int),
    ensures
        r@ == origin_text(*origin),
{
    let mut text = glue5(
        "From your game on ",
        crate::dates::day_label(origin.played_at).as_str(),
        ", move ",
        number(origin.ply as u64 / 2 + 1).as_str(),
        ": you played ",
    );
    text.append(origin.played.as_str());
    text.append(" and it cost ");
    text.append(origin.cost.as_str());
    text.append("% of the win. The move was ");
    text.append(origin.best.as_str());
    text.append(".");
    text
}

/// What is said when a sitting has stopped helping.
fn describe_fatigue(fatigue: &Fatigue) -> (r: String)
    ensures
        r@ == fatigue_text(*fatigue),
{
    let mut text = glue5(
        number(fatigue.count).as_str(),
        " in, and this sitting has turned: ",
        fatigue.early.as_str(),
        "% right early against ",
        fatigue.late.as_str(),
    );
    text.append("% now. Solving tired trains solving badly — a good place to stop.");
    text
}

} // verus!
