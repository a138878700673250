use omachess::board::Spot;
use omachess::chess::{Color, File, Rank, Role, Square};
use omachess::engine_worker::Request;
use omachess::trainer::{
    describe_answer, describe_nothing, describe_rejection, rung_number, toggle, Answer,
    AttemptPoint, Dealt, Fatigue, Mode, ModeNote, NextPuzzle, Origin, Outcome, Rung, Submitted,
    Task, Trainer, VisionSide,
};

const SPOT: Spot = Spot { x: 0, y: 0, width: 60, height: 60 };
const POSED: &str = "7k/5ppp/8/8/8/8/5PPP/1R4K1 w - - 1 2";
const SOLVED: &str = "1R5k/5ppp/8/8/8/8/5PPP/6K1 b - - 2 2";

fn sq(name: &str) -> Square {
    let bytes = name.as_bytes();
    Square::from_coords(
        File::new(u32::from(bytes[0] - b'a')),
        Rank::new(u32::from(bytes[1] - b'1')),
    )
}

fn puzzle() -> NextPuzzle {
    NextPuzzle::Ready(Dealt {
        id: "selftst1".to_owned(),
        rating: 1150,
        themes: vec!["mateIn1".to_owned(), "short".to_owned()],
        fen: POSED.to_owned(),
        turn: Color::White,
        expected: Some("b1b8".to_owned()),
    })
}

fn at(fen: &str, turn: Color, expected: Option<&str>) -> AttemptPoint {
    AttemptPoint { fen: fen.to_owned(), turn, expected: expected.map(str::to_owned) }
}

/// A tab with the puzzle on the board and the clock running.
fn solving(engine: bool) -> Trainer {
    let mut trainer = Trainer::new(true, engine, Mode::Learn);
    trainer.take_tasks();
    trainer.puzzle_loaded(puzzle());
    trainer.begin_solving();
    trainer.take_tasks();
    trainer
}

/// Click two squares; what comes back is the move that was offered.
fn click(trainer: &mut Trainer, from: &str, to: &str) -> Option<String> {
    let uci = format!("{from}{to}");
    let legal = omachess::rules::moved(POSED, &uci).is_some();
    let found = if legal { Some(uci) } else { None };
    trainer.on_square(sq(from), &Vec::new(), SPOT, None);
    trainer.on_square(sq(to), &Vec::new(), SPOT, found);
    trainer.take_tasks().into_iter().find_map(|task| match task {
        Task::OfferAttempt { uci } => Some(uci),
        _ => None,
    })
}

fn wrong(trainer: &mut Trainer) -> Vec<Task> {
    assert_eq!(click(trainer, "b1", "b4"), Some("b1b4".to_owned()));
    trainer.offered("b1b4".to_owned(), Outcome::Wrong, at(POSED, Color::White, Some("b1b8")));
    trainer.take_tasks()
}

#[test]
fn a_puzzle_can_be_solved_by_clicking() {
    let mut trainer = solving(false);
    assert!(trainer.solving(), "the trainer did not start solving");
    assert_eq!(click(&mut trainer, "b1", "b8"), Some("b1b8".to_owned()));
    trainer.offered("b1b8".to_owned(), Outcome::Solved, at(SOLVED, Color::Black, None));
    let tasks = trainer.take_tasks();
    assert!(tasks.iter().any(|task| matches!(
        task,
        Task::Submit { id, rating: 1150, correct: true } if id == "selftst1"
    )));
    assert!(tasks.iter().any(|task| matches!(
        task,
        Task::LogAttempt { played, expected, correct: true, ply: 0, revealed: false, .. }
            if played == "b1b8" && expected == "b1b8"
    )));
    assert!(!trainer.solving());
    // Mate is marked on the king that is mated.
    assert!(trainer.board.cell(sq("h8")).mated);
    assert!(trainer.board.cell(sq("b1")).last_move && trainer.board.cell(sq("b8")).last_move);
}

#[test]
fn a_puzzle_can_be_solved_by_dragging() {
    let mut trainer = solving(false);
    trainer.on_drag(sq("b1"), sq("b8"), &Vec::new(), SPOT, Some("b1b8".to_owned()));
    assert!(trainer.take_tasks().iter().any(|t| matches!(t, Task::OfferAttempt { .. })));
    // Somebody else's piece cannot be dragged.
    trainer.on_drag(sq("h8"), sq("g8"), &Vec::new(), SPOT, None);
    assert!(trainer.take_tasks().is_empty());
}

#[test]
fn a_wrong_move_is_refused_not_accepted() {
    let mut trainer = solving(false);
    let tasks = wrong(&mut trainer);
    assert!(trainer.solving(), "a wrong move ended the attempt instead of being refused");
    assert!(!tasks.iter().any(|task| matches!(task, Task::Submit { .. })));
    assert!(tasks.iter().any(|task| matches!(task, Task::LogAttempt { correct: false, .. })));
    assert!(trainer.status.to_lowercase().contains("not the move"));
    assert_eq!(trainer.board.cell(sq("b1")).piece.map(|p| p.role), Some(Role::Rook));
}

/// A wrong move spoils the attempt for good: solving it afterwards is not a solve.
#[test]
fn a_spoiled_attempt_is_not_handed_in_as_correct() {
    let mut trainer = solving(false);
    wrong(&mut trainer);
    click(&mut trainer, "b1", "b8");
    trainer.offered("b1b8".to_owned(), Outcome::Solved, at(SOLVED, Color::Black, None));
    assert!(trainer
        .take_tasks()
        .iter()
        .any(|task| matches!(task, Task::Submit { correct: false, .. })));
}

#[test]
fn the_answer_is_given_after_two_misses() {
    let mut trainer = solving(false);
    wrong(&mut trainer);
    assert_eq!(trainer.status, "Not the move — try again");
    wrong(&mut trainer);
    assert_eq!(trainer.status, "Not the move. It is Rb8 — play it to continue");
    let tasks = wrong(&mut trainer);
    assert!(tasks.iter().any(|task| matches!(task, Task::LogAttempt { revealed: true, .. })));
    assert_eq!(describe_rejection(2, &None), "Not the move");
}

#[test]
fn the_engine_is_never_asked_while_the_clock_counts() {
    let mut trainer = solving(true);
    click(&mut trainer, "b1", "b8");
    trainer.offered(
        "b1b8".to_owned(),
        Outcome::Continued(Some((sq("h8"), sq("g8")))),
        at(POSED, Color::White, Some("b1b8")),
    );
    assert!(!trainer.take_tasks().iter().any(|task| matches!(task, Task::AskWhy(_))));
    assert_eq!(trainer.lesson_asks, 0);
    assert_eq!(trainer.status, "Good — keep going");
    trainer.offered("b1b8".to_owned(), Outcome::Solved, at(SOLVED, Color::Black, None));
    assert!(!trainer.take_tasks().iter().any(|task| matches!(task, Task::AskWhy(_))));
    assert_eq!(trainer.lesson_asks, 0);
}

#[test]
fn a_wrong_move_is_explained_not_just_refused() {
    let mut trainer = solving(true);
    let tasks = wrong(&mut trainer);
    let mut asked = Vec::new();
    for task in tasks {
        if let Task::AskWhy(Request::Evaluate { fen, token, .. }) = task {
            asked.push((fen, token));
        }
    }
    assert_eq!(asked.len(), 1);
    let (fen, token) = asked.remove(0);
    assert_eq!(fen, omachess::rules::after(POSED, "b1b4").unwrap());
    trainer.asked(true);
    assert_eq!(trainer.lesson_asks, 1);
    assert_eq!(trainer.lesson, "Looking at why…");
    // It has to be about the move that was played.
    let (_, played) = trainer.asked_about.clone().unwrap();
    assert_eq!(played, "Rb4");
    trainer.evaluated(token, Some(format!("{played} loses time.")));
    assert_eq!(trainer.lesson, "Rb4 loses time.");
    // An answer about a puzzle that has been left is dropped.
    trainer.load_next();
    trainer.evaluated(token, Some("too late".to_owned()));
    assert_eq!(trainer.lesson, "");
}

#[test]
fn an_answer_about_a_position_moved_on_from_is_dropped() {
    let mut trainer = solving(true);
    wrong(&mut trainer);
    trainer.asked(true);
    let token = trainer.lesson_token;
    trainer.offered(
        "b1b8".to_owned(),
        Outcome::Continued(Some((sq("h8"), sq("g8")))),
        at(POSED, Color::White, Some("b1b8")),
    );
    assert_eq!(trainer.lesson, "");
    trainer.evaluated(token, Some("too late".to_owned()));
    assert_eq!(trainer.lesson, "");
    assert!(!trainer.lesson_busy);
    // A lesson that has already been given stays to be read.
    wrong(&mut trainer);
    trainer.asked(true);
    trainer.evaluated(trainer.lesson_token, Some("Rb4 loses time.".to_owned()));
    trainer.offered("b1b8".to_owned(), Outcome::Solved, at(SOLVED, Color::Black, None));
    assert_eq!(trainer.lesson, "Rb4 loses time.");
    // Nor is an answer about a puzzle shown over a board-vision question.
    let mut other = solving(true);
    wrong(&mut other);
    other.asked(true);
    let token = other.lesson_token;
    other.next_vision(colour_rung(), "Is f6 light or dark?".to_owned(), Answer::Dark, &empty());
    other.evaluated(token, Some("too late".to_owned()));
    assert_eq!(other.lesson, "");
}

#[test]
fn a_wrong_move_leaves_the_puzzle_where_it_was() {
    let mut trainer = solving(true);
    trainer.offered("b1b4".to_owned(), Outcome::Wrong, at(SOLVED, Color::Black, None));
    let current = trainer.current.as_ref().unwrap();
    assert_eq!((current.fen.as_str(), current.turn), (POSED, Color::White));
    assert_eq!(current.expected.as_deref(), Some("b1b8"));
    assert!(current.failed);
}

#[test]
fn one_question_is_outstanding_at_a_time() {
    let mut trainer = solving(true);
    wrong(&mut trainer);
    trainer.asked(true);
    let again = wrong(&mut trainer);
    assert!(!again.iter().any(|task| matches!(task, Task::AskWhy(_))));
    trainer.engine_failed();
    assert!(!trainer.lesson_busy);
}

#[test]
fn nothing_is_shown_before_the_clock_runs() {
    let mut trainer = Trainer::new(true, false, Mode::Learn);
    assert!(trainer.take_tasks().iter().any(|task| matches!(task, Task::NextPuzzle)));
    trainer.puzzle_loaded(puzzle());
    assert_eq!(trainer.status, "White to play — press Start when ready");
    assert_eq!(trainer.detail, "Rating 1150 · mateIn1, short");
    for index in 0..64u32 {
        assert_eq!(trainer.board.cell(Square::new(index)).piece, None);
    }
    trainer.tick(40);
    assert_eq!(trainer.timer, "0:00");
    trainer.on_square(sq("b1"), &Vec::new(), SPOT, None);
    assert_eq!(trainer.board.selected(), None);
    trainer.begin_solving();
    assert!(trainer.take_tasks().iter().any(|task| matches!(task, Task::StartTiming)));
    assert_eq!(trainer.status, "White to play");
    assert!(trainer.board.cell(sq("b1")).piece.is_some());
    trainer.tick(75);
    assert_eq!(trainer.timer, "1:15");
}

#[test]
fn an_attempt_is_credited_and_the_next_one_follows() {
    let mut trainer = solving(false);
    click(&mut trainer, "b1", "b8");
    trainer.offered("b1b8".to_owned(), Outcome::Solved, at(SOLVED, Color::Black, None));
    trainer.take_tasks();
    trainer.submitted(
        Some(Origin {
            played_at: omachess::dates::parse_date(Some("2026.03.03")).unwrap(),
            ply: 40,
            played: "Kh8".to_owned(),
            cost: "34".to_owned(),
            best: "Rb8".to_owned(),
        }),
        Some(Fatigue { count: 20, early: "90".to_owned(), late: "50".to_owned(), turned: true }),
        Submitted::Recorded {
            seconds: "4.2".to_owned(),
            baseline: "9.0".to_owned(),
            grade: "Good".to_owned(),
            due: 2 * 86_400,
            rating: "1160".to_owned(),
            band: "1100".to_owned(),
        },
    );
    assert_eq!(trainer.status, "Solved in 4.2s (your pace for this level: 9.0s)");
    assert_eq!(trainer.detail, "Good · next in 2 days · rating 1160 · band 1100");
    assert!(trainer.origin.starts_with("From your game on 3 Mar, move 21: you played Kh8"));
    assert!(trainer.origin.contains("90% right early against 50% now"));
    assert!(trainer.origin_warning);
    assert!(trainer.take_tasks().iter().any(|task| matches!(task, Task::NextPuzzleAfter(_))));
    // In the middle of a session the next position is shown at once.
    trainer.load_next();
    assert_eq!(trainer.origin, "");
    trainer.puzzle_loaded(puzzle());
    assert!(trainer.solving());
}

#[test]
fn an_attempt_that_cannot_be_recorded_says_so() {
    let mut trainer = solving(false);
    trainer.offered("b1b8".to_owned(), Outcome::Solved, at(SOLVED, Color::Black, None));
    trainer.submitted(None, None, Submitted::Failed("disk full".to_owned()));
    assert_eq!(trainer.status, "Could not record attempt: disk full");
}

#[test]
fn what_cannot_be_dealt_is_explained() {
    let mut trainer = Trainer::new(true, false, Mode::Repeat);
    trainer.puzzle_loaded(NextPuzzle::Bad("no moves".to_owned()));
    assert_eq!(trainer.status, "Skipping bad puzzle: no moves");
    trainer.puzzle_loaded(NextPuzzle::Failed("locked".to_owned()));
    assert_eq!(trainer.status, "Database error: locked");
    trainer.puzzle_loaded(NextPuzzle::Nothing { repeating: true, wait: Some(3_600_000) });
    assert_eq!(
        trainer.status,
        "Nothing far enough back to re-time yet — the first is ready in 1 hour. Turn Repeat off \
         to keep learning new puzzles meanwhile."
    );
    assert_eq!(
        describe_nothing(false, None),
        "Nothing to solve. Load the puzzle database, or come back when reviews are due."
    );
}

#[test]
fn a_promotion_is_asked_for_before_it_is_offered() {
    let fen = "8/P7/8/8/8/8/8/K6k w - - 0 1";
    let mut trainer = Trainer::new(true, false, Mode::Learn);
    trainer.puzzle_loaded(NextPuzzle::Ready(Dealt {
        id: "p".to_owned(),
        rating: 1200,
        themes: Vec::new(),
        fen: fen.to_owned(),
        turn: Color::White,
        expected: Some("a7a8n".to_owned()),
    }));
    trainer.begin_solving();
    trainer.take_tasks();
    let choices = vec![Role::Queen, Role::Rook, Role::Bishop, Role::Knight];
    trainer.on_drag(sq("a7"), sq("a8"), &choices, SPOT, Some("a7a8q".to_owned()));
    assert!(trainer.board.promotion_showing());
    assert!(trainer.take_tasks().is_empty(), "a move that was not chosen was played");
    trainer.choose_promotion(Role::Knight, Some("a7a8n".to_owned()));
    assert!(!trainer.board.promotion_showing());
    assert!(trainer
        .take_tasks()
        .iter()
        .any(|task| matches!(task, Task::OfferAttempt { uci } if uci == "a7a8n")));
}

fn colour_rung() -> Rung {
    Rung { key: "colour".to_owned(), label: "Colour".to_owned(), number: 1, colours: true }
}

fn knight_rung() -> Rung {
    Rung { key: "knight".to_owned(), label: "Knight".to_owned(), number: 3, colours: false }
}

fn empty() -> Vec<Option<omachess::chess::Piece>> {
    vec![None; 64]
}

#[test]
fn board_vision_asks_a_question_and_takes_an_answer() {
    let mut trainer = Trainer::new(true, false, Mode::Learn);
    trainer.take_tasks();
    trainer.set_mode(Mode::Vision);
    assert!(trainer.take_tasks().iter().any(|task| matches!(task, Task::DealVision)));
    trainer.next_vision(colour_rung(), "Is f6 light or dark?".to_owned(), Answer::Dark, &empty());
    assert_eq!(trainer.status, "Is f6 light or dark?");
    assert_eq!((trainer.vision_a.as_str(), trainer.vision_b.as_str()), ("Light", "Dark"));
    assert_eq!(trainer.vision_side_for(true), Some(VisionSide::B));
    assert_eq!(trainer.vision_side_for(false), Some(VisionSide::A));
    trainer.answer_vision_button(VisionSide::B);
    assert!(trainer
        .take_tasks()
        .iter()
        .any(|task| matches!(task, Task::Judge { answer: Answer::Dark })));
    trainer.grade_vision(true, "1.5");
    assert_eq!(trainer.status, "Right — 1.5s");
    let tasks = trainer.take_tasks();
    assert!(tasks
        .iter()
        .any(|task| matches!(task, Task::RecordVision { rung, right: true } if rung == "colour")));
    // Never among the puzzles.
    assert!(!tasks.iter().any(|t| matches!(t, Task::Submit { .. } | Task::LogAttempt { .. })));
    // An answer is judged once.
    trainer.grade_vision(false, "1.5");
    assert!(trainer.take_tasks().is_empty());
    assert_eq!(trainer.status, "Right — 1.5s");
    trainer.climb(true, Some(knight_rung()), false, None);
    assert!(trainer.lesson.ends_with("next: Knight"));
    assert!(trainer
        .take_tasks()
        .iter()
        .any(|task| matches!(task, Task::StoreRung(key) if key == "knight")));
    trainer.vision_due(Mode::Learn);
    assert!(trainer.take_tasks().is_empty(), "a question came after the mode was left");
}

#[test]
fn a_wrong_answer_in_board_vision_is_refused() {
    let mut trainer = Trainer::new(true, false, Mode::Vision);
    trainer.next_vision(colour_rung(), "Is f6 light or dark?".to_owned(), Answer::Dark, &empty());
    trainer.answer_vision_button(VisionSide::A);
    trainer.take_tasks();
    trainer.grade_vision(false, "2.0");
    assert_eq!(trainer.status, "Not that.");
    assert!(trainer
        .take_tasks()
        .iter()
        .any(|task| matches!(task, Task::RecordVision { right: false, .. })));
}

#[test]
fn board_vision_starts_hard_and_gives_way() {
    let mut trainer = Trainer::new(true, false, Mode::Vision);
    let ask = |trainer: &mut Trainer| {
        trainer.next_vision(
            knight_rung(),
            "Where can the knight on a1 go?".to_owned(),
            Answer::Squares(vec![sq("b3"), sq("c2")]),
            &empty(),
        );
        // A clicking rung has no button: committing nothing is wrong.
        assert_eq!(trainer.vision_side_for(true), None);
        assert_eq!(trainer.vision_side_for(false), None);
        trainer.commit_vision();
        trainer.grade_vision(false, "2.0");
        trainer.take_tasks();
    };
    ask(&mut trainer);
    trainer.climb(false, None, false, Some(colour_rung()));
    assert!(trainer.take_tasks().is_empty(), "it is not yet time to fall");
    ask(&mut trainer);
    trainer.climb(false, None, true, Some(colour_rung()));
    assert!(trainer.lesson.ends_with("next: Colour"));
    assert!(trainer
        .take_tasks()
        .iter()
        .any(|task| matches!(task, Task::StoreRung(key) if key == "colour")));
    trainer.climb(false, None, true, Some(colour_rung()));
    assert!(trainer.take_tasks().is_empty(), "one answer moves the rung once");
    ask(&mut trainer);
    trainer.climb(false, None, true, None);
    assert!(trainer.take_tasks().is_empty(), "there is nothing below the first rung");
}

#[test]
fn a_clicked_rung_takes_the_squares_you_click() {
    let mut trainer = Trainer::new(true, false, Mode::Vision);
    let wanted = vec![sq("b3"), sq("c2")];
    trainer.next_vision(
        knight_rung(),
        "Where can the knight on a1 go?".to_owned(),
        Answer::Squares(wanted.clone()),
        &empty(),
    );
    assert_eq!(trainer.vision_answer(), wanted);
    assert!(!trainer.two_way);
    for square in [sq("b3"), sq("d4"), sq("c2"), sq("d4")] {
        trainer.on_square(square, &Vec::new(), SPOT, None);
    }
    for index in 0..64u32 {
        let square = Square::new(index);
        assert_eq!(trainer.board.cell(square).marked, wanted.contains(&square));
    }
    trainer.commit_vision();
    assert!(trainer.take_tasks().into_iter().any(|task| match task {
        Task::Judge { answer: Answer::Squares(squares) } => squares == wanted,
        _ => false,
    }));
}

#[test]
fn a_second_click_takes_the_first_back() {
    let one = toggle(&Vec::new(), sq("e4"));
    assert_eq!(one, vec![sq("e4")]);
    assert!(toggle(&one, sq("e4")).is_empty());
    assert_eq!(toggle(&one, sq("d4")), vec![sq("e4"), sq("d4")]);
}

#[test]
fn answers_are_named_in_order() {
    let answer = Answer::Squares(vec![sq("c2"), sq("b3"), sq("b1")]);
    let text = describe_answer(&answer);
    let at = |name: &str| text.find(name).unwrap();
    assert!(at("b1") < at("b3") && at("b3") < at("c2"));
}

/// A mode that exists in the code and not on the screen is not a mode.
#[test]
fn the_train_tab_offers_every_mode_it_has() {
    let offered: Vec<&str> = (0..3).map(|index| Mode::at(index).title()).collect();
    for wanted in ["Learn", "Repeat", "vision"] {
        assert!(offered.iter().any(|m| m.contains(wanted)), "{wanted}: {offered:?}");
    }
    for mode in [Mode::Learn, Mode::Repeat, Mode::Vision] {
        assert_eq!(Mode::at(mode.index()), mode);
        assert_eq!(Mode::from_key(&mode.key().to_owned()), mode);
    }
}

#[test]
fn the_mode_says_what_it_does() {
    let mut trainer = Trainer::new(true, false, Mode::Repeat);
    trainer.describe_mode(&ModeNote::Repeat { solved: 1 });
    assert_eq!(trainer.caption, "Re-testing 1 solved puzzle — these attempts are measured.");
    trainer.describe_mode(&ModeNote::Repeat { solved: 2 });
    assert_eq!(trainer.caption, "Re-testing 2 solved puzzles — these attempts are measured.");
    trainer.describe_mode(&ModeNote::Learn);
    assert_eq!(
        trainer.caption,
        "New puzzles, rising in difficulty. Building repertoire; not measured."
    );
    trainer.describe_mode(&ModeNote::Vision {
        label: "Colour".to_owned(),
        number: rung_number(Some(0)),
        asked: 0,
        right: 0,
    });
    assert_eq!(trainer.caption, "Colour — 1 of 6.");
    trainer.describe_mode(&ModeNote::Vision {
        label: "Colour".to_owned(),
        number: rung_number(None),
        asked: 4,
        right: 3,
    });
    assert_eq!(trainer.caption, "Colour — 3 of 4 right.");
}
