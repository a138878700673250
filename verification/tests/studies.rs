use omachess::chess::Color;
use omachess::rules::to_san;
use omachess::study_view::{
    describe_choice, describe_score, describe_variation, format_moves, step_for_key, Score, Step,
    WalkKey,
};

const START: &str = "rnbqkbnr/pppppppp/8/8/8/8/PPPPPPPP/RNBQKBNR w KQkq - 0 1";

fn strings(list: &[&str]) -> Vec<String> {
    list.iter().map(|m| m.to_string()).collect()
}

#[test]
fn evaluations_are_stated_from_whites_point_of_view() {
    // Plus two pawns for the side to move; White to move means +2.00.
    assert_eq!(describe_score(Score::Cp(200), Color::White), "+2.00");
    // The same score with Black to move is minus two for White.
    assert_eq!(describe_score(Score::Cp(200), Color::Black), "-2.00");
}

#[test]
fn a_near_equal_position_is_called_level_rather_than_a_number() {
    assert_eq!(describe_score(Score::Cp(10), Color::White), "Level");
    assert_eq!(describe_score(Score::Cp(-10), Color::Black), "Level");
}

#[test]
fn mate_names_the_side_delivering_it() {
    assert_eq!(describe_score(Score::Mate(3), Color::White), "Mate in 3 for White");
    assert_eq!(describe_score(Score::Mate(3), Color::Black), "Mate in 3 for Black");
    assert_eq!(describe_score(Score::Mate(-2), Color::White), "Mate in 2 for Black");
}

#[test]
fn engine_moves_become_readable_notation() {
    let line = strings(&["e2e4", "e7e5", "g1f3"]);
    assert_eq!(to_san(START, &line), ["e4", "e5", "Nf3"]);
}

#[test]
fn an_unplayable_variation_is_truncated_rather_than_dropped() {
    let line = strings(&["e2e4", "a1a8"]);
    assert_eq!(to_san(START, &line), ["e4"]);
}

#[test]
fn the_scoresheet_pairs_moves_by_number() {
    let san = strings(&["e4", "e5", "Nf3"]);
    let text = format_moves(&san, 3);
    assert!(text.contains("1. e4 e5"));
    assert!(text.contains("2. Nf3"));
}

#[test]
fn scores_agree_with_division() {
    for cp in -1000..=1000 {
        let text = describe_score(Score::Cp(cp), Color::White);
        if text != "Level" {
            assert_eq!(text, format!("{:+.2}", f64::from(cp) / 100.0));
        } else {
            assert!(cp.abs() < 15);
        }
    }
}

#[test]
fn arrow_keys_step_through_the_game() {
    assert_eq!(step_for_key(WalkKey::Left), Some(Step::Back));
    assert_eq!(step_for_key(WalkKey::Right), Some(Step::Forward));
    assert_eq!(step_for_key(WalkKey::Home), Some(Step::Start));
    assert_eq!(step_for_key(WalkKey::End), Some(Step::End));
    assert_eq!(step_for_key(WalkKey::Other), None);
}

#[test]
fn the_engines_choice_is_set_against_the_move_played() {
    let same = describe_choice(&Some("e4".to_owned()), Some(&"e4".to_owned()));
    let other = describe_choice(&Some("e4".to_owned()), Some(&"d4".to_owned()));
    assert_ne!(same, other);
    assert!(other.contains("d4"));
    assert!(describe_variation(18, &strings(&["e4", "e5"])).contains("e4"));
}
