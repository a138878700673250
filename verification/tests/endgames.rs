use omachess::announce::Tone;
use omachess::board::Spot;
use omachess::chess::{Color, File, GameState, Rank, Square};
use omachess::effect::Effect;
use omachess::endgame_view::{Endgame, EndgameView};
use omachess::engine_worker::Request;
use omachess::exercise::{Ended, FoundMove, Objective, Played};
use omachess::sound::Cue;

const SPOT: Spot = Spot { x: 0, y: 0, width: 60, height: 60 };
const FEN: &str = "4k3/8/3K4/4P3/8/8/8/8 w - - 0 1";

fn sq(name: &str) -> Square {
    let bytes = name.as_bytes();
    Square::from_coords(
        File::new(u32::from(bytes[0] - b'a')),
        Rank::new(u32::from(bytes[1] - b'1')),
    )
}

fn state(fen: &str, moves: &[&str]) -> GameState {
    GameState {
        player: Color::White,
        turn: omachess::rules::turn(fen).unwrap(),
        initial_fen: FEN.to_owned(),
        fen: fen.to_owned(),
        moves: moves.iter().map(|m| m.to_string()).collect(),
    }
}

fn endgame(key: &str, objective: Objective, dtm: Option<u32>) -> Endgame {
    Endgame {
        key: key.to_owned(),
        name: "King and pawn".to_owned(),
        idea: "Get in front of the pawn.".to_owned(),
        objective,
        dtm,
        position: Some(FEN.to_owned()),
        opened: Some(Played { game: state(FEN, &[]), left: 50, ended: None }),
    }
}

fn tab(engine: bool) -> EndgameView {
    let mut view = EndgameView::new(
        true,
        engine,
        vec![
            endgame("kp", Objective::Win, Some(11)),
            endgame("kp-drawn", Objective::Draw, None),
        ],
    );
    view.take_effects();
    view
}

fn found(view: &EndgameView, uci: &str, ended: Option<Ended>) -> Option<FoundMove> {
    let current = view.game.as_ref()?;
    let after = omachess::rules::after(&current.fen, uci)?;
    let mut moves: Vec<&str> = current.moves.iter().map(String::as_str).collect();
    moves.push(uci);
    Some(FoundMove {
        uci: uci.to_owned(),
        played: Some(Played { game: state(&after, &moves), left: 49, ended }),
    })
}

#[test]
fn an_endgame_starts_and_accepts_a_move() {
    let mut view = tab(false);
    assert_eq!(view.objective, "Win it — mate in 11 with best play");
    view.begin();
    view.session_opened(3);
    view.take_effects();
    view.on_square(sq("d6"), &Vec::new(), SPOT, None);
    assert_eq!(view.board.selected(), Some(sq("d6")));
    let found = found(&view, "d6c6", None);
    view.on_square(sq("c6"), &Vec::new(), SPOT, found);
    assert_eq!(view.game.as_ref().unwrap().moves, vec!["d6c6".to_owned()]);
    let effects = view.take_effects();
    assert!(effects.iter().any(|e| matches!(e, Effect::Sound(Cue::Move))));
    assert!(effects.iter().any(|e| matches!(
        e,
        Effect::LogMove { sitting: Some(3), subject, uci, .. } if subject == "kp" && uci == "d6c6"
    )));
    assert_eq!(view.status, "No engine, so there is nothing to play against.");
}

#[test]
fn an_endgame_accepts_a_dragged_move_too() {
    let mut view = tab(false);
    view.begin();
    let found = found(&view, "d6c6", None);
    view.play(sq("d6"), sq("c6"), &Vec::new(), SPOT, found);
    assert_eq!(view.game.as_ref().unwrap().moves.len(), 1);
}

#[test]
fn the_fifty_move_countdown_is_on_screen() {
    let mut view = tab(false);
    view.begin();
    assert_eq!(view.countdown, "50 moves before the fifty-move draw.");
    let found = found(&view, "d6c6", None);
    view.play(sq("d6"), sq("c6"), &Vec::new(), SPOT, found);
    assert_eq!(view.countdown, "49 moves before the fifty-move draw.");
    view.describe(1);
    view.begin();
    assert_eq!(view.countdown, "50 moves to survive.");
}

#[test]
fn the_engine_defends_an_endgame() {
    let mut view = tab(true);
    view.begin();
    let mine = found(&view, "d6c6", None);
    view.play(sq("d6"), sq("c6"), &Vec::new(), SPOT, mine);
    assert!(view.thinking);
    assert!(view.take_effects().iter().any(|e| matches!(
        e,
        Effect::Ask(Request::BestMove { moves, .. }) if moves.len() == 1
    )));
    let reply = found(&view, "e8e7", None).unwrap();
    view.engine_moved("e8e7", reply.played);
    assert_eq!(view.game.as_ref().unwrap().moves.len(), 2);
    assert_eq!(view.board.last_move(), Some((sq("e8"), sq("e7"))));
    assert!(!view.thinking);
}

/// A move cannot be made while the engine is thinking.
#[test]
fn the_board_waits_for_the_defender() {
    let mut view = tab(true);
    view.begin();
    let mine = found(&view, "d6c6", None);
    view.play(sq("d6"), sq("c6"), &Vec::new(), SPOT, mine);
    view.take_effects();
    view.on_square(sq("c6"), &Vec::new(), SPOT, None);
    assert_eq!(view.board.selected(), None);
    view.engine_failed("it stopped");
    assert!(!view.thinking);
}

/// Holding a draw and failing to win are one result and opposite outcomes.
#[test]
fn a_drawn_ending_reads_by_what_was_wanted() {
    for (index, achieved, verdict, tone) in [
        (0, false, "Drawn — the win was there and it got away. Try it again.", Tone::Lost),
        (1, true, "Held.", Tone::Won),
    ] {
        let mut view = tab(false);
        view.describe(index);
        view.begin();
        view.take_effects();
        let drawn = found(&view, "d6c6", Some(Ended { winner: None, achieved }));
        view.play(sq("d6"), sq("c6"), &Vec::new(), SPOT, drawn);
        assert_eq!(view.status, verdict);
        let effects = view.take_effects();
        assert!(effects.iter().any(|e| matches!(e, Effect::Say(said, text) if *said == tone && text == verdict)));
        let recorded = effects
            .iter()
            .filter(|e| matches!(e, Effect::RecordEndgame { achieved: held, .. } if *held == achieved))
            .count();
        assert_eq!(recorded, 1);
    }
}

#[test]
fn an_illegal_move_in_an_endgame_is_refused() {
    let mut view = tab(false);
    view.begin();
    view.take_effects();
    view.play(sq("d6"), sq("d8"), &Vec::new(), SPOT, None);
    let effects = view.take_effects();
    assert!(effects.iter().any(
        |e| matches!(e, Effect::Say(Tone::Rejected, text) if text.contains("not a legal move"))
    ));
}

#[test]
fn the_picker_never_leaves_the_catalogue() {
    let mut view = tab(false);
    view.describe(99);
    assert_eq!(view.current, 1);
    assert_eq!(view.objective, "Hold the draw");
    view.show_record(0, 0);
    assert_eq!(view.record, "Not attempted yet.");
    view.show_record(1, 1);
    assert_eq!(view.record, "Converted 1 of 1 attempt.");
    view.show_record(3, 1);
    assert_eq!(view.record, "Converted 1 of 3 attempts.");
}
