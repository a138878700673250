use omachess::chess::{promotion_uci, File, Rank, Role, Square};
use omachess::promotion::{ask, glyph};

/// The glyphs have to differ by piece and by colour, or the row is four identical buttons and the
/// choice is a guess.
#[test]
fn every_piece_has_its_own_symbol() {
    let roles = [Role::Queen, Role::Rook, Role::Bishop, Role::Knight];
    for white in [true, false] {
        let mut seen: Vec<&str> = roles.iter().map(|r| glyph(*r, white)).collect();
        let before = seen.len();
        seen.sort_unstable();
        seen.dedup();
        assert_eq!(seen.len(), before, "two pieces share a symbol");
    }
    assert_ne!(glyph(Role::Queen, true), glyph(Role::Queen, false));
}

/// A pawn is never a promotion target, and asking for one should not produce a button that means
/// nothing.
#[test]
fn a_piece_that_cannot_be_promoted_to_is_marked_rather_than_guessed() {
    assert_eq!(glyph(Role::Pawn, true), "?");
    assert_eq!(glyph(Role::King, false), "?");
}

#[test]
fn the_offer_names_every_choice_in_order() {
    let (heading, buttons) = ask(&vec![Role::Queen, Role::Knight], false);
    assert_eq!(heading, "Promote to");
    assert_eq!(buttons, vec![("\u{265B}", Role::Queen), ("\u{265E}", Role::Knight)]);
}

#[test]
fn a_promotion_is_written_with_its_piece() {
    let from = Square::from_coords(File::A, Rank::Seventh);
    let to = Square::from_coords(File::B, Rank::Eighth);
    assert_eq!(promotion_uci(from, to, Role::Knight), "a7b8n");
    assert_eq!(promotion_uci(from, to, Role::Queen), "a7b8q");
    assert_eq!(promotion_uci(from, to, Role::Rook), "a7b8r");
    assert_eq!(promotion_uci(from, to, Role::Bishop), "a7b8b");
}
