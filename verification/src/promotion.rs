//! Asking which piece a pawn becomes.
//!
//! Defaulting to a queen is right almost always, and wrong exactly when it matters: a knight that
//! forks the king, or a rook that avoids stalemating an opponent who has nothing else to move. A
//! board that never asks cannot play those positions at all.

use crate::chess::Role;
use vstd::prelude::*;
use vstd::string::*;

verus! {

/// The figurine of a piece that a pawn can become; a question mark for any other.
pub open spec fn figurine(role: Role, white: bool) -> Seq<char> {
    match (role, white) {
        (Role::Queen, true) => "\u{2655}"@,
        (Role::Rook, true) => "\u{2656}"@,
        (Role::Bishop, true) => "\u{2657}"@,
        (Role::Knight, true) => "\u{2658}"@,
        (Role::Queen, false) => "\u{265B}"@,
        (Role::Rook, false) => "\u{265C}"@,
        (Role::Bishop, false) => "\u{265D}"@,
        (Role::Knight, false) => "\u{265E}"@,
        _ => "?"@,
    }
}

/// Whether a pawn can become a piece.
pub open spec fn can_become(role: Role) -> bool {
    role != Role::Pawn && role != Role::King
}

/// The label for a promotion choice. Figurine rather than words, so the row reads at a glance and
/// needs no translating.
pub fn glyph(role: Role, white: bool) -> (r: &'static str)
    ensures
        r@ == figurine(role, white),
{
    match (role, white) {
        (Role::Queen, true) => "\u{2655}",
        (Role::Rook, true) => "\u{2656}",
        (Role::Bishop, true) => "\u{2657}",
        (Role::Knight, true) => "\u{2658}",
        (Role::Queen, false) => "\u{265B}",
        (Role::Rook, false) => "\u{265C}",
        (Role::Bishop, false) => "\u{265D}",
        (Role::Knight, false) => "\u{265E}",
        _ => "?",
    }
}

/// The figurines differ by piece and by colour, or the row would be four identical buttons and
/// the choice a guess; and a piece that no pawn can become is marked rather than guessed.
pub proof fn every_choice_has_its_own_figurine(a: Role, b: Role, white: bool, other: bool)
    ensures
        can_become(a) && can_become(b) && figurine(a, white) == figurine(b, other) ==> a == b
            && white == other,
        !can_become(a) ==> figurine(a, white) == "?"@,
        can_become(a) ==> figurine(a, white) != "?"@,
{
    reveal_strlit("\u{2655}");
    reveal_strlit("\u{2656}");
    reveal_strlit("\u{2657}");
    reveal_strlit("\u{2658}");
    reveal_strlit("\u{265B}");
    reveal_strlit("\u{265C}");
    reveal_strlit("\u{265D}");
    reveal_strlit("\u{265E}");
    reveal_strlit("?");
    let x = figurine(a, white)[0];
    let y = figurine(b, other)[0];
}

/// The offer beside the board: a heading, and a button for each choice in the order given. Nothing
/// happens until a choice is made, because a move the player did not choose is worse than no move
/// at all.
pub fn ask(choices: &Vec<Role>, white: bool) -> (r: (&'static str, Vec<(&'static str, Role)>))
    ensures
        r.0@ == "Promote to"@,
        r.1@.len() == choices@.len(),
        forall|i: int|
            0 <= i < choices@.len() ==> (#[trigger] r.1@[i]).1 == choices@[i] && r.1@[i].0@
                == figurine(choices@[i], white),
{
    let mut buttons: Vec<(&'static str, Role)> = Vec::new();
    let mut i: usize = 0;
    while i < choices.len()
        invariant
            i <= choices.len(),
            buttons@.len() == i,
            forall|j: int|
                0 <= j < i ==> (#[trigger] buttons@[j]).1 == choices@[j] && buttons@[j].0@
                    == figurine(choices@[j], white),
        decreases choices.len() - i,
    {
        buttons.push((glyph(choices[i], white), choices[i]));
        i += 1;
    }
    ("Promote to", buttons)
}

} // verus!
