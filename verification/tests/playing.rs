use omachess::chess::{Color, File, GameState, Rank, Square};
use omachess::effect::Effect;
use omachess::engine_worker::Request;
use omachess::play_view::{
    capped_elo, chosen_side, describe, format_moves, training_rating, EndReason, Exercise, Flagged,
    FoundPlay, Moment, MovePair, Offer, Opening, PlayView, Pressure, Quality, Report, Standing,
    Thought, Verdict, LABEL_WORDS,
};
use omachess::sound::Cue;

const START: &str = "rnbqkbnr/pppppppp/8/8/8/8/PPPPPPPP/RNBQKBNR w KQkq - 0 1";

fn sq(name: &str) -> Square {
    let bytes = name.as_bytes();
    Square::from_coords(
        File::new(u32::from(bytes[0] - b'a')),
        Rank::new(u32::from(bytes[1] - b'1')),
    )
}

/// How a game stands after some moves, White being the player.
fn standing(moves: &[&str]) -> Standing {
    let mut fen = START.to_owned();
    let mut sans: Vec<String> = Vec::new();
    for uci in moves {
        sans.push(omachess::rules::san(&fen, uci).unwrap());
        fen = omachess::rules::after(&fen, uci).unwrap();
    }
    let turn = omachess::rules::turn(&fen).unwrap();
    let pairs = sans
        .chunks(2)
        .enumerate()
        .map(|(i, pair)| MovePair {
            number: i as u64 + 1,
            white: pair[0].clone(),
            black: pair.get(1).cloned(),
        })
        .collect();
    Standing {
        game: GameState {
            player: Color::White,
            turn,
            initial_fen: START.to_owned(),
            fen,
            moves: moves.iter().map(|m| m.to_string()).collect(),
        },
        may_move: turn == Color::White,
        player_turn: turn == Color::White,
        finished: false,
        verdict: None,
        reason: None,
        mated: None,
        pairs,
        balance: 0,
        opening: if moves.is_empty() {
            None
        } else {
            Some(Opening { name: "King's Pawn".to_owned(), eco: "B00".to_owned(), plies: 1 })
        },
    }
}

fn thought() -> Thought {
    Thought { nanos: 2_500_000_000, seconds: "2.5".to_owned() }
}

fn found(moves: &[&str]) -> Option<FoundPlay> {
    Some(FoundPlay { uci: moves.last().unwrap().to_string(), played: Some(standing(moves)) })
}

fn started(engine: bool) -> PlayView {
    let name = if engine { Some("stockfish".to_owned()) } else { None };
    let mut play = PlayView::new(true, name, 1400);
    play.start_game(standing(&[]), 1400);
    play.take_effects();
    play
}

fn moves_played(play: &PlayView) -> usize {
    play.standing.as_ref().map(|s| s.game.moves.len()).unwrap_or(0)
}

fn quality() -> Quality {
    Quality {
        empty: false,
        accuracy: "81.2".to_owned(),
        per_move: "3.1".to_owned(),
        blunders: 1,
        mistakes: 2,
        inaccuracies: 1,
        weakest: Some(("endgame".to_owned(), "6.0".to_owned(), 9)),
        pressure: None,
    }
}

fn exercise(done: usize, solved: bool) -> Exercise {
    Exercise { fen: START.to_owned(), turn: Color::White, done, total: 2, solved }
}

fn report(flagged: bool) -> Report {
    Report {
        quality: quality(),
        drillable: if flagged {
            vec![Flagged {
                ply: 6,
                severity: Some("blunder".to_owned()),
                played: "Kh4".to_owned(),
                best: "d4".to_owned(),
                cost: "60".to_owned(),
                position: Some(START.to_owned()),
            }]
        } else {
            Vec::new()
        },
        has_moment: flagged,
        moment: if flagged {
            Some(Moment { exercise: exercise(0, false), ply: 6, lost: "60".to_owned() })
        } else {
            None
        },
    }
}

#[test]
fn a_game_against_the_engine_starts() {
    let play = started(false);
    assert!(play.standing.is_some());
    assert_eq!(moves_played(&play), 0, "a fresh game already had moves in it");
    assert_eq!(play.status, "Your move.");
    assert_eq!(play.detail, "Opponent capped near 1400 Elo.");
    assert!(play.resign_visible);
}

#[test]
fn a_move_clicked_on_the_board_is_played() {
    let mut play = started(false);
    play.on_square(sq("e2"), None, thought(), 1400);
    assert_eq!(play.board.selected(), Some(sq("e2")));
    play.on_square(sq("e4"), found(&["e2e4"]), thought(), 1400);
    assert_eq!(moves_played(&play), 1);
    assert_eq!(play.board.selected(), None);
}

#[test]
fn clicking_another_piece_changes_the_origin() {
    let mut play = started(false);
    play.on_square(sq("e2"), None, thought(), 1400);
    play.on_square(sq("d2"), None, thought(), 1400);
    assert_eq!(play.board.selected(), Some(sq("d2")));
    play.on_square(sq("d5"), None, thought(), 1400);
    assert_eq!(play.board.selected(), None);
    assert_eq!(moves_played(&play), 0);
}

#[test]
fn a_move_dragged_on_the_board_is_played_and_marked() {
    let mut play = started(false);
    play.on_drag(sq("e2"), sq("e4"), found(&["e2e4"]), thought(), 1400);
    assert_eq!(moves_played(&play), 1);
    assert!(play.board.cell(sq("e2")).last_move && play.board.cell(sq("e4")).last_move);
    assert!(!play.opening.is_empty(), "the opening went unnamed");
    assert!(play.moves.contains("1. e4"));
    assert!(play.take_effects().iter().any(|e| matches!(e, Effect::Sound(Cue::Move))));
}

#[test]
fn the_engine_answers_a_move() {
    let mut play = started(true);
    play.on_drag(sq("e2"), sq("e4"), found(&["e2e4"]), thought(), 1400);
    assert!(play.thinking);
    assert!(!play.may_move());
    assert!(play.take_effects().iter().any(|e| matches!(
        e,
        Effect::Ask(Request::Move { moves, elo: 1400, .. }) if moves.len() == 1
    )));
    // Nothing can be played meanwhile.
    play.on_square(sq("d2"), None, thought(), 1400);
    assert_eq!(play.board.selected(), None);
    play.engine_moved("e7e5", Some(standing(&["e2e4", "e7e5"])), 1400);
    assert_eq!(moves_played(&play), 2);
    assert!(!play.thinking);
    assert_eq!(play.status, "Your move.");
    assert!(play.board.cell(sq("e5")).last_move);
    // A move that is not legal leaves the game alone.
    play.engine_moved("e7e5", None, 1400);
    assert_eq!(moves_played(&play), 2);
}

#[test]
fn resigning_ends_the_game_and_asks_for_a_review() {
    let mut play = started(true);
    play.on_drag(sq("e2"), sq("e4"), found(&["e2e4"]), thought(), 1400);
    play.take_effects();
    let mut over = standing(&["e2e4"]);
    over.finished = true;
    over.may_move = false;
    over.verdict = Some(Verdict::Lost);
    over.reason = Some((EndReason::Resigned, "You resigned.".to_owned()));
    play.resign_game(over);
    assert!(!play.resign_visible);
    assert!(!play.clock);
    assert!(play.banner_visible);
    assert_eq!(play.banner_good, Some(false));
    assert!(play.status.to_lowercase().contains("resign"), "{:?}", play.status);
    let effects = play.take_effects();
    assert!(effects.iter().any(|e| matches!(e, Effect::Sound(Cue::End))));
    assert!(effects.iter().any(|e| matches!(e, Effect::Ask(Request::Review { .. }))));
    play.reviewed(report(false), 1400);
    assert!(play.figures[0].contains("Accuracy 81.2%"));
    assert_eq!(play.detail, "");
    assert!(play.take_effects().iter().any(|e| matches!(
        e,
        Effect::RecordGame { player_white: true, opponent_elo: 1400, result } if result == "lost"
    )));
    assert!(!play.add_button);
}

#[test]
fn a_game_with_a_mistake_offers_it_back_to_practise() {
    let mut play = started(true);
    play.reviewed(report(true), 1400);
    assert!(play.drill_button && play.add_button && play.review_visible);
    assert_eq!(
        play.rows,
        vec![(
            "Move 4 — blunder".to_owned(),
            "played Kh4, better was d4 (60% given away)".to_owned()
        )]
    );
    play.start_drill();
    assert!(play.is_drilling());
    assert_eq!(play.status, "Find the move.");
    play.take_effects();
    play.on_square(sq("d2"), None, thought(), 1400);
    play.on_square(sq("d4"), None, thought(), 1400);
    assert!(play.take_effects().iter().any(|e| matches!(
        e,
        Effect::OfferDrill { from, to } if *from == sq("d2") && *to == sq("d4")
    )));
    play.drill_offered(Offer::Wrong { revealed: None, reply: None, finished: false }, exercise(0, false));
    assert!(play.wrong);
    assert_eq!(play.status, "Not that one. Look again.");
    play.wrong_over();
    assert!(!play.wrong);
    play.drill_offered(Offer::Correct { reply: Some("e7e5".to_owned()), finished: false }, exercise(1, false));
    assert_eq!(play.status, "Right. Now find the next one.");
    assert_eq!(play.detail, "Move 2 of 2 in the line.");
    assert_eq!(play.board.last_move(), Some((sq("e7"), sq("e5"))));
    play.drill_offered(
        Offer::Wrong { revealed: Some("Nf3".to_owned()), reply: None, finished: true },
        exercise(2, true),
    );
    assert_eq!(play.status, "That was the line.");
    assert!(play.detail.starts_with("The move was Nf3. "));
    assert!(!play.is_drilling());
    assert_eq!(moves_played(&play), 0, "an exercise leaves the game alone");
}

#[test]
fn a_flagged_position_can_be_looked_at() {
    let mut play = started(true);
    play.reviewed(report(true), 1400);
    play.show_position(0);
    assert_eq!(play.status, "Reviewing — this is the position you misjudged.");
    play.show_position(5);
    play.add_found_to_training(900, 1100);
    assert!(play
        .take_effects()
        .iter()
        .any(|e| matches!(e, Effect::AddToTraining { rating: 1100 })));
    play.add_found_to_training(1450, 1100);
    assert!(play
        .take_effects()
        .iter()
        .any(|e| matches!(e, Effect::AddToTraining { rating: 1450 })));
    assert!(play.add_button);
    play.added_to_training(Err("locked".to_owned()));
    assert!(play.detail.contains("locked"));
    assert!(play.add_button, "nothing was stored, so it can be tried again");
    play.added_to_training(Ok(1));
    assert!(play.detail.contains('1'));
    assert!(!play.add_button);
}

/// Nothing easier than the floor is ever stored.
#[test]
fn what_is_added_is_rated_at_the_floor_at_least() {
    assert_eq!(training_rating(900, 1100), 1100);
    assert_eq!(training_rating(1100, 1100), 1100);
    assert_eq!(training_rating(1640, 1100), 1640);
    assert_eq!(training_rating(0, 0), 0);
    let mut play = started(true);
    play.take_effects();
    play.add_found_to_training(900, 1100);
    assert!(play.take_effects().is_empty(), "there was no report to add from");
}

#[test]
fn an_engine_that_is_gone_is_said_to_be() {
    let mut play = started(true);
    play.engine_gone();
    assert!(!play.start_sensitive);
    assert!(play.detail.starts_with("The engine is no longer running."));
    let mut again = started(true);
    again.engine_failed("broken pipe");
    assert!(!again.thinking);
}

#[test]
fn the_report_counts_what_was_given_away() {
    assert_eq!(
        describe(&quality()),
        [
            "Accuracy 81.2%  ·  3.1% given away per move",
            "1 blunder, 2 mistakes, 1 inaccuracy",
            "Weakest phase: endgame (6.0% per move over 9 moves)",
        ]
    );
    let mut rushed = rushed();
    assert_eq!(
        describe(&rushed),
        [
            "Accuracy 81.2%  ·  3.1% given away per move",
            "1 blunder, 2 mistakes, 2 inaccuracies",
            "Quick moves (under 4.0s) gave away 8.0% each; considered moves 2.0%.",
            "Your errors took 1.5s to play; your sound moves 6.0s.",
            "No reliable link between speed and error in this game.",
        ]
    );
    if let Some(pressure) = &mut rushed.pressure {
        pressure.significant = true;
        pressure.times = None;
    }
    assert_eq!(
        describe(&rushed)[2..],
        [
            "Quick moves (under 4.0s) gave away 8.0% each; considered moves 2.0%.",
            "Your mistakes really are concentrated in the moves you rush (p<0.05).",
            "Slowing down would cost you less than studying more tactics.",
        ]
    );
    rushed.empty = true;
    assert_eq!(describe(&rushed), ["Not enough of the game could be analysed."]);
}

/// A game whose moves were rushed.
fn rushed() -> Quality {
    let mut rushed = quality();
    rushed.weakest = None;
    rushed.inaccuracies = 2;
    rushed.pressure = Some(Pressure {
        median: "4.0".to_owned(),
        quick: "8.0".to_owned(),
        considered: "2.0".to_owned(),
        times: Some(("1.5".to_owned(), "6.0".to_owned())),
        significant: false,
    });
    rushed
}

#[test]
fn the_play_panel_states_numbers_not_paragraphs() {
    for significant in [false, true] {
        let mut review = report(true);
        review.quality = rushed();
        review.quality.weakest = Some(("endgame".to_owned(), "6.0".to_owned(), 9));
        if let Some(pressure) = &mut review.quality.pressure {
            pressure.significant = significant;
        }
        let mut play = started(true);
        play.on_drag(sq("e2"), sq("e4"), found(&["e2e4"]), thought(), 1400);
        let mut over = standing(&["e2e4"]);
        over.finished = true;
        over.verdict = Some(Verdict::Lost);
        over.reason = Some((EndReason::Resigned, "You resigned.".to_owned()));
        play.resign_game(over);
        play.reviewed(review, 1400);
        let mut labels = vec![
            play.banner.clone(),
            play.status.clone(),
            play.detail.clone(),
            play.material.clone(),
            play.opening.clone(),
            play.moves.clone(),
        ];
        labels.extend(play.figures.iter().cloned());
        for (heading, line) in &play.rows {
            labels.push(heading.clone());
            labels.push(line.clone());
        }
        assert!(labels.iter().any(|label| label.contains("Accuracy")));
        for label in &labels {
            assert!(label.split_whitespace().count() <= LABEL_WORDS, "{label:?}");
        }
        play.start_game(standing(&[]), 1400);
        assert!(play.figures.is_empty(), "an old report stands beside a new game");
    }
}

#[test]
fn a_moment_is_offered_back_whether_or_not_it_makes_a_puzzle() {
    let mut play = started(true);
    let mut unclean = report(true);
    unclean.drillable = Vec::new();
    play.reviewed(unclean, 1400);
    assert!(play.drill_button, "a game with a mistake offered nothing to practise");
    assert!(!play.add_button && !play.review_visible);
    play.start_drill();
    assert!(play.is_drilling());
    assert!(play.figures.is_empty());
    let mut clean = started(true);
    clean.reviewed(report(false), 1400);
    assert!(!clean.drill_button);
}

#[test]
fn sides_and_strengths_are_chosen() {
    assert_eq!(chosen_side(0), Color::White);
    assert_eq!(chosen_side(1), Color::Black);
    assert_eq!(capped_elo(1200, 1320), 1320);
    assert_eq!(capped_elo(1500, 1320), 1500);
    let text = format_moves(&standing(&["e2e4", "e7e5", "g1f3"]), &vec![thought(), thought()]);
    assert!(text.contains("1. e4"));
    assert!(text.contains("Nf3"));
}
