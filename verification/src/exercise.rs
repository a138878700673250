//! What the exercises that are played out on a board have in common.

use crate::chess::{opt_game, square_name, Color, GameModel, GameState, Square};
use vstd::prelude::*;
use vstd::string::*;

verus! {

/// What a position is worth, and so what is asked of the player.
#[derive(Debug, Clone, Copy, PartialEq, Eq, Structural)]
pub enum Objective {
    Win,
    Draw,
}

/// How a position that has finished ended.
#[derive(Debug, Clone, Copy, PartialEq, Eq, Structural)]
pub struct Ended {
    /// Who won; nobody, where it was drawn.
    pub winner: Option<Color>,
    /// Whether the player reached what was asked.
    pub achieved: bool,
}

/// The game after a move.
pub struct Played {
    pub game: GameState,
    /// How many moves are left before the fifty-move draw.
    pub left: u32,
    /// How the position ended, where it has.
    pub ended: Option<Ended>,
}

/// What a [`Played`] holds.
#[verifier::ext_equal]
pub struct PlayedModel {
    pub game: GameModel,
    pub left: u32,
    pub ended: Option<Ended>,
}

impl View for Played {
    type V = PlayedModel;

    open spec fn view(&self) -> PlayedModel {
        PlayedModel { game: self.game@, left: self.left, ended: self.ended }
    }
}

/// What an optional game after a move holds.
pub open spec fn opt_played(played: Option<Played>) -> Option<PlayedModel> {
    match played {
        Some(played) => Some(played@),
        None => None,
    }
}

/// A legal move that joins two squares, and the game after it where it could be played.
pub struct FoundMove {
    pub uci: String,
    pub played: Option<Played>,
}

/// What a [`FoundMove`] holds.
#[verifier::ext_equal]
pub struct FoundModel {
    pub uci: Seq<char>,
    pub played: Option<PlayedModel>,
}

impl View for FoundMove {
    type V = FoundModel;

    open spec fn view(&self) -> FoundModel {
        FoundModel { uci: self.uci@, played: opt_played(self.played) }
    }
}

/// What an optional move holds.
pub open spec fn opt_found(found: Option<FoundMove>) -> Option<FoundModel> {
    match found {
        Some(found) => Some(found@),
        None => None,
    }
}

/// The position that every game begins from.
pub open spec fn start_position() -> Seq<char> {
    "rnbqkbnr/pppppppp/8/8/8/8/PPPPPPPP/RNBQKBNR w KQkq - 0 1"@
}

/// The position that every game begins from.
pub fn start_fen() -> (r: &'static str)
    ensures
        r@ == start_position(),
{
    "rnbqkbnr/pppppppp/8/8/8/8/PPPPPPPP/RNBQKBNR w KQkq - 0 1"
}

/// Two squares and what is to be said of a move between them.
pub open spec fn squares_text(from: Square, to: Square, tail: Seq<char>) -> Seq<char> {
    square_name(from) + " to "@ + square_name(to) + tail
}

/// Say something of a move between two squares.
pub fn say_squares(from: Square, to: Square, tail: &str) -> (r: String)
    ensures
        r@ == squares_text(from, to, tail@),
{
    crate::text::glue4(from.name().as_str(), " to ", to.name().as_str(), tail)
}

/// The number of the move just played, counted from 0.
pub open spec fn last_ply(game: GameModel) -> u32 {
    (if game.moves.len() > 0 {
        game.moves.len() - 1
    } else {
        0
    }) as u32
}

/// The move just played.
pub open spec fn last_uci(game: GameModel) -> Seq<char> {
    if game.moves.len() > 0 {
        game.moves.last()
    } else {
        ""@
    }
}

/// The number of the move just played, and its text.
pub fn last_played(game: &GameState) -> (r: (u32, String))
    ensures
        r.0 == last_ply(game@),
        r.1@ == last_uci(game@),
{
    let count = game.moves.len();
    if count > 0 {
        ((count - 1) as u32, game.moves[count - 1].clone())
    } else {
        (0, "".to_owned())
    }
}

/// How much of the fifty-move budget was left, as the log keeps it.
pub open spec fn budget_detail(left: u32) -> Seq<char> {
    "{\"moves_until_fifty\":"@ + crate::text::decimal(left as nat) + "}"@
}

/// How much of the fifty-move budget was left, as the log keeps it.
pub fn budget_text(left: u32) -> (r: String)
    ensures
        r@ == budget_detail(left),
{
    crate::text::glue3(
        "{\"moves_until_fifty\":",
        crate::text::number(left as u64).as_str(),
        "}",
    )
}

/// Whether the player owns the piece on a square.
pub open spec fn owns(game: Option<GameModel>, square: Square) -> bool {
    game matches Some(game) && crate::rules::holds(game.fen, square, game.player)
}

/// Whether the player owns the piece on a square.
pub fn has_own_piece(game: &Option<GameState>, square: Square) -> (r: bool)
    ensures
        r == owns(opt_game(*game), square),
{
    match game {
        Some(game) => crate::rules::holds_piece_of(game.fen.as_str(), square, game.player),
        None => false,
    }
}

/// Whether the player has the white pieces. Without a game, it is taken that they do.
pub open spec fn plays_white(game: Option<GameModel>) -> bool {
    match game {
        Some(game) => game.player == Color::White,
        None => true,
    }
}

/// Whether the player has the white pieces.
pub fn is_white(game: &Option<GameState>) -> (r: bool)
    ensures
        r == plays_white(opt_game(*game)),
{
    match game {
        Some(game) => game.player == Color::White,
        None => true,
    }
}

/// The move just played is the last that was added to the game, and its number counts those before
/// it. A player is taken to have White exactly where there is no game or they do.
pub proof fn the_last_move_is_the_one_just_played(game: GameModel, uci: Seq<char>)
    requires
        game.moves.len() < u32::MAX,
    ensures
        ({
            let later = GameModel { moves: game.moves.push(uci), ..game };
            &&& last_uci(later) == uci
            &&& last_ply(later) == game.moves.len()
        }),
        game.moves.len() == 0 ==> last_uci(game) == ""@ && last_ply(game) == 0,
        plays_white(None),
        plays_white(Some(game)) <==> game.player == Color::White,
{
}

/// How long the engine gets for each defensive move, in milliseconds. Long enough that the
/// defence is genuinely hard, short enough that a session is not a wait.
pub const DEFENCE_MS: u64 = 700;

/// How often replies from the engine thread are collected, in milliseconds.
pub const POLL_MS: u64 = 80;

/// The side that the player has in a position: whichever side is to move. White, where the
/// position cannot be set up.
pub fn player_side(turn: Option<Color>) -> (r: Color)
    ensures
        r == match turn {
            Some(side) => side,
            None => Color::White,
        },
{
    match turn {
        Some(side) => side,
        None => Color::White,
    }
}

} // verus!
