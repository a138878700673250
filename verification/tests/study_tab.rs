use omachess::chess::{Color, File, Rank, Square};
use omachess::effect::Effect;
use omachess::engine_worker::Request;
use omachess::study_view::{Analysis, Heading, Point, Replay, Score, Step, StudyView};

const START: &str = "rnbqkbnr/pppppppp/8/8/8/8/PPPPPPPP/RNBQKBNR w KQkq - 0 1";
const LINE: [&str; 4] = ["e2e4", "e7e5", "f2f4", "e5f4"];

fn sq(name: &str) -> Square {
    let bytes = name.as_bytes();
    Square::from_coords(
        File::new(u32::from(bytes[0] - b'a')),
        Rank::new(u32::from(bytes[1] - b'1')),
    )
}

/// The game after so many of its moves.
fn point(index: usize) -> Point {
    let mut fen = START.to_owned();
    let mut played = Vec::new();
    let mut next = None;
    for (i, uci) in LINE.iter().enumerate().take(index + 1) {
        let san = omachess::rules::san(&fen, uci).unwrap();
        if i < index {
            fen = omachess::rules::after(&fen, uci).unwrap();
            played.push(san);
        } else {
            next = Some(san);
        }
    }
    Point {
        turn: omachess::rules::turn(&fen).unwrap(),
        last: if index == 0 { None } else { omachess::rules::uci_squares(LINE[index - 1]) },
        fen,
        played,
        moves: LINE[..index].iter().map(|m| m.to_string()).collect(),
        next_san: next,
        index,
        total: LINE.len(),
        at_start: index == 0,
        at_end: index == LINE.len(),
        opening: if index >= 3 { Some(("King's Gambit".to_owned(), "C30".to_owned())) } else { None },
    }
}

fn heading() -> Heading {
    Heading {
        white: "Anderssen, Adolf".to_owned(),
        black: "Kieseritzky, Lionel".to_owned(),
        result: "1-0".to_owned(),
    }
}

fn opened(engine: bool) -> StudyView {
    let mut study = StudyView::new(true, engine);
    study.load_file(vec![heading()], Replay::Ready(point(0)));
    study
}

fn token(study: &mut StudyView) -> Option<u64> {
    study.take_effects().into_iter().find_map(|e| match e {
        Effect::Ask(Request::Evaluate { token, .. }) => Some(token),
        _ => None,
    })
}

#[test]
fn a_pgn_opens_and_steps_forward_and_back() {
    let mut study = opened(false);
    assert_eq!(study.games.len(), 1);
    assert_eq!(study.heading, "Anderssen, Adolf vs Kieseritzky, Lionel · 1-0");
    assert!(!study.picker_visible);
    assert_eq!(study.evaluation, "Move 0 of 4");
    assert!(!study.prev_sensitive && study.next_sensitive);
    study.session_opened(9);
    study.step(Step::Forward, point(1));
    study.step(Step::Forward, point(2));
    assert_eq!(study.point.as_ref().unwrap().index, 2);
    study.step(Step::Back, point(1));
    assert_eq!(study.point.as_ref().unwrap().index, 1);
    assert!(study.moves.contains("1."), "{:?}", study.moves);
    assert_eq!(study.board.last_move(), Some((sq("e2"), sq("e4"))));
    assert_eq!(study.best, "Played here: e5");
    study.step(Step::End, point(4));
    assert_eq!(study.best, "End of the game.");
    assert_eq!(study.opening, "King's Gambit (C30)");
    assert!(!study.next_sensitive);
    // What was looked at, and for how long, is written down.
    let logged = study
        .take_effects()
        .into_iter()
        .filter(|e| matches!(e, Effect::LogMove { sitting: Some(9), .. }))
        .count();
    assert_eq!(logged, 4);
}

#[test]
fn the_engine_teaches_the_position() {
    let mut study = opened(true);
    assert_eq!(study.variation, "Thinking…");
    let asked = token(&mut study).expect("the engine was not asked");
    study.evaluated(
        asked,
        &Analysis {
            score: Some(Score::Cp(32)),
            best_move: Some("d2d4".to_owned()),
            pv: vec!["d2d4".to_owned(), "d7d5".to_owned()],
            depth: 20,
        },
    );
    assert_eq!(study.evaluation, "+0.32");
    assert_eq!(study.best, "Played: e4    Engine prefers: d4");
    assert_eq!(study.variation, "depth 20 · d4 d5");
}

/// Only one question is outstanding: stepping on while the engine is busy asks again once it is
/// free, and the answer to the old question is not shown against the new position.
#[test]
fn an_answer_about_a_position_left_behind_is_not_shown() {
    let mut study = opened(true);
    let first = token(&mut study).unwrap();
    study.step(Step::Forward, point(1));
    study.step(Step::Forward, point(2));
    assert!(token(&mut study).is_none(), "a second question was queued");
    let analysis = Analysis {
        score: Some(Score::Cp(90)),
        best_move: Some("g1f3".to_owned()),
        pv: vec!["g1f3".to_owned()],
        depth: 9,
    };
    let before = (study.evaluation.clone(), study.best.clone(), study.variation.clone());
    study.evaluated(first, &analysis);
    let after = (study.evaluation.clone(), study.best.clone(), study.variation.clone());
    assert_eq!(after, before, "the old score was shown against the new position");
    assert_eq!(study.evaluation, "Move 2 of 4");
    let asked: Vec<(Vec<String>, u64)> = study
        .take_effects()
        .into_iter()
        .filter_map(|e| match e {
            Effect::Ask(Request::Evaluate { moves, token, .. }) => Some((moves, token)),
            _ => None,
        })
        .collect();
    assert_eq!(asked.len(), 1, "exactly one question about the new position");
    assert_eq!(asked[0].0, vec!["e2e4".to_owned(), "e7e5".to_owned()]);
    let second = asked[0].1;
    assert_ne!(first, second);
    study.evaluated(first, &analysis);
    assert_eq!(study.evaluation, "Move 2 of 4");
    study.engine_failed("gone");
    assert!(!study.busy);
}

#[test]
fn an_answer_about_a_game_left_behind_is_not_shown() {
    let mut study = opened(true);
    let first = token(&mut study).unwrap();
    study.load_game(0, Replay::Ready(point(1)));
    assert!(token(&mut study).is_none(), "a second question was queued");
    let analysis =
        Analysis { score: Some(Score::Cp(90)), best_move: None, pv: Vec::new(), depth: 9 };
    study.evaluated(first, &analysis);
    assert_eq!(study.evaluation, "Move 1 of 4");
    let second = token(&mut study).expect("the engine was not asked again");
    study.evaluated(second, &analysis);
    assert_eq!(study.evaluation, "-0.90");
}

#[test]
fn files_that_cannot_be_read_are_said_to_be() {
    let mut study = StudyView::new(true, false);
    assert_eq!(study.heading, "No engine found. Install stockfish to study with analysis.");
    study.unreadable("No such file");
    assert_eq!(study.heading, "Could not read that file: No such file");
    study.unparsable("bad tag");
    assert_eq!(study.heading, "Could not read that PGN: bad tag");
    study.load_file(Vec::new(), Replay::Failed(String::new()));
    assert_eq!(study.heading, "No playable games in that file.");
    study.load_file(vec![heading(), Heading { white: String::new(), black: String::new(), result: "*".to_owned() }], Replay::Ready(point(0)));
    assert!(study.picker_visible);
    assert_eq!(study.offered[1], "2. ? vs ? · *");
    study.load_game(1, Replay::Failed("illegal move".to_owned()));
    assert_eq!(study.heading, "Could not replay it: illegal move");
    study.load_game(7, Replay::Ready(point(1)));
    assert_eq!(study.point.as_ref().unwrap().index, 0);
    assert_eq!(study.board.orientation(), Color::White);
}
