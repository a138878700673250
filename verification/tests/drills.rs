use omachess::announce::Tone;
use omachess::board::Spot;
use omachess::chess::{Color, File, GameState, Rank, Role, Square};
use omachess::drill_view::{DrillEntry, DrillView, Stage};
use omachess::effect::Effect;
use omachess::engine_worker::Request;
use omachess::exercise::{player_side, Ended, FoundMove, Objective, Played};

const SPOT: Spot = Spot { x: 0, y: 0, width: 60, height: 60 };
const POSED: &str = "7k/5ppp/8/8/8/8/5PPP/1R4K1 w - - 1 2";

fn sq(name: &str) -> Square {
    let bytes = name.as_bytes();
    Square::from_coords(
        File::new(u32::from(bytes[0] - b'a')),
        Rank::new(u32::from(bytes[1] - b'1')),
    )
}

fn game(fen: &str, player: Color, moves: &[&str]) -> GameState {
    GameState {
        player,
        turn: omachess::rules::turn(fen).unwrap(),
        initial_fen: POSED.to_owned(),
        fen: fen.to_owned(),
        moves: moves.iter().map(|m| m.to_string()).collect(),
    }
}

fn entry(id: &str) -> DrillEntry {
    DrillEntry {
        id: id.to_owned(),
        played: "Kh8".to_owned(),
        best: "Rb8".to_owned(),
        best_line: vec!["b1b8".to_owned()],
        ply: 40,
        played_at: omachess::dates::parse_date(Some("2026.03.03")).unwrap(),
        phase: "middlegame".to_owned(),
        cost: "34".to_owned(),
        stood: "82".to_owned(),
        objective: Objective::Win,
        brief: "You played Kh8.".to_owned(),
        opened: Some(game(POSED, Color::White, &[])),
        start: Some(POSED.to_owned()),
    }
}

fn drills(engine: bool) -> DrillView {
    let mut view = DrillView::new(true, engine, vec![Some(entry("selftst1")), None]);
    view.take_effects();
    view
}

/// The move between two squares, as the rules see it.
fn found(view: &DrillView, from: &str, to: &str) -> Option<FoundMove> {
    let current = view.game.as_ref()?;
    let uci = format!("{from}{to}");
    let after = omachess::rules::after(&current.fen, &uci)?;
    let mut moves: Vec<&str> = current.moves.iter().map(String::as_str).collect();
    moves.push(&uci);
    let ended = omachess::rules::mate_square(&after)
        .map(|_| Ended { winner: Some(Color::White), achieved: true });
    let played = Played { game: game(&after, current.player, &moves), left: 50, ended };
    Some(FoundMove { uci, played: Some(played) })
}

fn click(view: &mut DrillView, from: &str, to: &str) {
    let line = vec!["Rb8#".to_owned()];
    view.on_square(sq(from), &Vec::new(), SPOT, None, &line);
    let found = found(view, from, to);
    view.on_square(sq(to), &Vec::new(), SPOT, found, &line);
}

#[test]
fn a_drill_says_what_you_played_before_asking_anything() {
    let view = drills(false);
    assert_eq!(view.objective, "Kh8??   -34%   you stood at 82%");
    assert_eq!(view.idea, "Winning was there. Find the move.");
    assert_eq!(view.title, "Move 21");
    assert_eq!(view.offered, vec!["3 Mar middlegame — cost 34%".to_owned()]);
    assert_eq!(view.stage, Stage::Find);
    assert!(view.board.cell(sq("b1")).piece.is_some());
}

#[test]
fn an_empty_list_says_where_positions_come_from() {
    let mut view = DrillView::new(true, false, Vec::new());
    assert_eq!(view.title, "Nothing to replay yet");
    view.begin();
    assert_eq!(view.status, "Nothing to play.");
    view.reload(vec![Some(entry("a"))]);
    assert_eq!(view.title, "Move 21");
}

#[test]
fn the_right_answer_in_a_drill_is_recognised() {
    let mut view = drills(false);
    click(&mut view, "b1", "b8");
    assert_eq!(view.status, "That is the move.");
    assert_eq!(view.lesson, "Rb8 was the move. Rb8#");
    assert!(view.idea.to_lowercase().contains("play it out"));
    assert_eq!(view.stage, Stage::PlayOut);
    assert_eq!(view.moves_played(), 0, "an answer is not a move");
}

#[test]
fn the_second_miss_puts_the_answer_on_the_table() {
    let mut view = drills(false);
    click(&mut view, "b1", "b4");
    assert_eq!(view.status, "Not that one.");
    assert_eq!((view.stage, view.misses), (Stage::Find, 1));
    click(&mut view, "b1", "b4");
    assert_eq!(view.status, "Here it is.");
    assert_eq!((view.stage, view.misses), (Stage::PlayOut, 2));
}

#[test]
fn a_drill_position_accepts_a_click() {
    let mut view = drills(false);
    view.begin();
    assert!(view.take_effects().iter().any(|e| matches!(e, Effect::BeginSession(_))));
    view.session_opened(7);
    view.on_square(sq("b1"), &Vec::new(), SPOT, None, &Vec::new());
    assert_eq!(view.board.selected(), Some(sq("b1")));
    view.on_square(sq("b1"), &Vec::new(), SPOT, None, &Vec::new());
    assert_eq!(view.board.selected(), None, "a second click puts the piece down");
    click(&mut view, "b1", "b8");
    let effects = view.take_effects();
    let attempts = effects
        .iter()
        .filter(|e| matches!(e, Effect::RecordDrill { id, achieved: true, moves: 1, .. } if id == "selftst1"))
        .count();
    assert_eq!(attempts, 1, "clicking through a drill recorded no attempt");
    assert!(effects.iter().any(|e| matches!(
        e,
        Effect::LogMove { sitting: Some(7), uci, .. } if uci == "b1b8"
    )));
}

#[test]
fn a_finished_drill_announces_the_result() {
    let mut view = drills(false);
    view.begin();
    view.take_effects();
    click(&mut view, "b1", "b8");
    let said = view.take_effects().into_iter().find_map(|e| match e {
        Effect::Say(tone, text) => Some((tone, text)),
        _ => None,
    });
    assert_eq!(said, Some((Tone::Won, "Won it this time.".to_owned())));
    assert!(view.settled);
    // It is judged once: nothing more is recorded.
    click(&mut view, "b8", "b7");
    assert!(view.take_effects().is_empty());
}

#[test]
fn an_illegal_move_is_refused_in_words() {
    let mut view = drills(false);
    view.begin();
    click(&mut view, "b1", "c3");
    assert!(view.status.to_lowercase().contains("not legal"), "{:?}", view.status);
    assert_eq!(view.moves_played(), 0);
}

#[test]
fn a_drill_plays_out_against_an_engine() {
    let mut view = drills(true);
    view.begin();
    view.take_effects();
    click(&mut view, "b1", "b4");
    assert!(view.thinking);
    assert_eq!(view.moves_played(), 1);
    let asked = view.take_effects().into_iter().find_map(|e| match e {
        Effect::Ask(Request::BestMove { fen, moves, .. }) => Some((fen, moves)),
        _ => None,
    });
    assert_eq!(asked, Some((POSED.to_owned(), vec!["b1b4".to_owned()])));
    let reply = found(&view, "h8", "g8").unwrap();
    view.engine_moved("h8g8", reply.played);
    assert!(!view.thinking);
    assert_eq!(view.moves_played(), 2);
    assert_eq!(view.board.last_move(), Some((sq("h8"), sq("g8"))));
    view.engine_moved("a1a8", None);
    assert_eq!(view.moves_played(), 2);
    view.engine_failed("gone");
    assert!(!view.thinking);
}

#[test]
fn a_wrong_answer_in_a_drill_is_explained() {
    let mut view = drills(true);
    click(&mut view, "b1", "b4");
    let token = view
        .take_effects()
        .into_iter()
        .find_map(|e| match e {
            Effect::AskWhy(Request::Evaluate { token, .. }) => Some(token),
            _ => None,
        })
        .expect("the engine was not asked why");
    view.asked(true);
    assert_eq!(view.lesson, "Looking at why…");
    view.evaluated(token.wrapping_add(1), Some("stale".to_owned()));
    assert_ne!(view.lesson, "stale");
    view.evaluated(token, Some("Rb4 gives up the back rank.".to_owned()));
    assert!(view.lesson.starts_with("Rb4"));
}

#[test]
fn an_answer_about_a_drill_left_behind_is_not_shown() {
    let mut view =
        DrillView::new(true, true, vec![Some(entry("selftst1")), Some(entry("selftst2"))]);
    view.take_effects();
    click(&mut view, "b1", "b4");
    let token = view.lesson_token;
    view.asked(true);
    view.describe(1);
    view.evaluated(token, Some("Rb4 gives up the back rank.".to_owned()));
    assert_eq!(view.lesson, "");
    assert!(!view.lesson_busy);
}

/// The answers that some effects write down.
fn answers(view: &mut DrillView) -> Vec<(String, bool)> {
    view.take_effects()
        .into_iter()
        .filter_map(|e| match e {
            Effect::RecordAnswer { id, found } => Some((id, found)),
            _ => None,
        })
        .collect()
}

#[test]
fn whether_the_move_was_found_is_recorded() {
    let mut view = drills(false);
    assert!(answers(&mut view).is_empty(), "recorded before anything was answered");
    click(&mut view, "b1", "b8");
    assert_eq!(answers(&mut view), [("selftst1".to_owned(), true)]);
    assert_eq!(view.moves_played(), 0);
    // Converting it is another fact, and records no second answer.
    view.begin();
    click(&mut view, "b1", "b8");
    assert!(answers(&mut view).is_empty());

    // Two wrong answers are one failure to find it, not two.
    let mut missed = drills(false);
    click(&mut missed, "b1", "b4");
    assert!(answers(&mut missed).is_empty());
    click(&mut missed, "b1", "b4");
    assert_eq!(answers(&mut missed), [("selftst1".to_owned(), false)]);
    assert_eq!(missed.moves_played(), 0);
    assert_eq!(missed.lesson, "Rb8 was the move. Rb8#");
}

#[test]
fn the_drill_opens_on_the_position_that_was_asked_for() {
    let list = || vec![Some(entry("worst")), Some(entry("middling")), Some(entry("wanted"))];
    let mut view = DrillView::new(true, false, list());
    assert_eq!((view.current, view.picked), (0, 0));
    view.describe(2);
    // A rebuild, which is what showing the tab does, keeps it.
    view.reload(list());
    assert_eq!((view.current, view.picked), (2, 2));
    assert_eq!(view.positions[view.current].id, "wanted");
    let ids: Vec<&str> = view.positions.iter().map(|e| e.id.as_str()).collect();
    assert_eq!(ids, ["worst", "middling", "wanted"]);
    view.reload(vec![Some(entry("wanted")), None, Some(entry("worst"))]);
    assert_eq!(view.positions[view.current].id, "wanted");
    assert_eq!(view.current, 0);
    view.describe(1);
    view.reload(vec![Some(entry("middling")), Some(entry("wanted"))]);
    assert_eq!(view.current, 0, "it is no longer listed");
}

#[test]
fn the_line_can_be_stepped_through() {
    let mut view = drills(false);
    view.press_start(&vec!["Rb8#".to_owned()]);
    assert_eq!(view.stage, Stage::PlayOut);
    assert!(view.steps);
    view.step_line(true);
    assert_eq!(view.status, "Line: move 1 of 1");
    assert!(view.board.cell(sq("b8")).piece.is_some());
    view.step_line(true);
    assert_eq!(view.line_at, 1, "stepping left the line");
    view.step_line(false);
    assert_eq!(view.line_at, 0);
    assert!(view.board.cell(sq("b1")).piece.is_some());
}

#[test]
fn the_record_is_stated() {
    let mut view = drills(false);
    view.show_record(0, 0, 0, "20");
    assert_eq!(view.record, "1 positions waiting. None played out yet.");
    view.show_record(4, 3, 1, "20");
    assert_eq!(
        view.record,
        "3 of 4 played out successfully. 1 mastered and set aside — won twice at least 20h apart, \
         most recently."
    );
    assert!(!view.describe_state().is_empty());
}

#[test]
fn a_promotion_in_a_drill_is_asked_for() {
    let fen = "8/P7/8/8/8/8/8/K6k w - - 0 1";
    let mut promoting = entry("p");
    promoting.opened = Some(game(fen, Color::White, &[]));
    promoting.start = Some(fen.to_owned());
    let mut view = DrillView::new(true, false, vec![Some(promoting)]);
    view.begin();
    view.take_effects();
    let choices = vec![Role::Queen, Role::Rook, Role::Bishop, Role::Knight];
    view.play(sq("a7"), sq("a8"), &choices, SPOT, None, &Vec::new());
    assert!(view.board.promotion_showing());
    assert_eq!(view.moves_played(), 0);
    let after = omachess::rules::after(fen, "a7a8n").unwrap();
    let played = Played { game: game(&after, Color::White, &["a7a8n"]), left: 50, ended: None };
    view.choose_promotion(
        Role::Knight,
        Some(FoundMove { uci: "a7a8n".to_owned(), played: Some(played) }),
        &Vec::new(),
    );
    assert_eq!(view.moves_played(), 1);
    assert_eq!(view.board.cell(sq("a8")).piece.map(|p| p.role), Some(Role::Knight));
}

/// The side that made the mistake moves, Black as well as White.
#[test]
fn black_can_play_its_own_position() {
    let fen = "6k1/1r3ppp/8/8/8/8/5PPP/6K1 b - - 0 1";
    let mut mine = entry("b");
    mine.opened = Some(game(fen, Color::Black, &[]));
    let mut view = DrillView::new(true, false, vec![Some(mine)]);
    view.begin();
    assert_eq!(view.board.orientation(), Color::Black);
    click(&mut view, "b7", "b1");
    assert_eq!(view.moves_played(), 1);
}

#[test]
fn the_side_to_move_is_the_side_the_player_had() {
    assert_eq!(player_side(Some(Color::Black)), Color::Black);
    assert_eq!(player_side(Some(Color::White)), Color::White);
    assert_eq!(player_side(None), Color::White);
}
