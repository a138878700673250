//! The rules of chess, as the `shakmaty` crate knows them.
//!
//! A position crosses into this library as its FEN and a move as the text that engines read
//! (`e2e4`, `e7e8q`), so that everything said about them is said about plain text. What a
//! position or a move amounts to is `shakmaty`'s to say: each function here that asks it is
//! trusted, and names what it answered.

use crate::chess::{nth_square, Color, Piece, Role, Square};
use crate::text::texts;
use vstd::prelude::*;
use vstd::string::*;

verus! {

/// Whether `fen` reads as a position and `uci` is a legal move in it.
pub uninterp spec fn legal_in(fen: Seq<char>, uci: Seq<char>) -> bool;

/// A legal move in algebraic notation, without a mark for check.
pub uninterp spec fn san_in(fen: Seq<char>, uci: Seq<char>) -> Seq<char>;

/// A legal move in algebraic notation, with its mark for check or mate.
pub uninterp spec fn san_plus_in(fen: Seq<char>, uci: Seq<char>) -> Seq<char>;

/// The position after a legal move.
pub uninterp spec fn fen_after(fen: Seq<char>, uci: Seq<char>) -> Seq<char>;

/// The square that a legal move goes to, by its index; the rook's, where it castles.
pub uninterp spec fn target_in(fen: Seq<char>, uci: Seq<char>) -> u32;

/// Whether a legal move takes something.
pub uninterp spec fn captures_in(fen: Seq<char>, uci: Seq<char>) -> bool;

/// The piece on a square, given by its index. Nothing where the square is empty or the
/// position cannot be read.
pub uninterp spec fn piece_in(fen: Seq<char>, square: int) -> Option<Piece>;

/// Whose move it is. Nothing where the position cannot be read.
pub uninterp spec fn turn_in(fen: Seq<char>) -> Option<Color>;

/// Whether the side to move is in check. Nothing where the position cannot be read.
pub uninterp spec fn check_in(fen: Seq<char>) -> Option<bool>;

/// Whether the side to move is mated. Nothing where the position cannot be read.
pub uninterp spec fn checkmate_in(fen: Seq<char>) -> Option<bool>;

/// The index of the square that a side's king stands on. Nothing where it has none, or more
/// than one, or the position cannot be read.
pub uninterp spec fn king_in(fen: Seq<char>, side: Color) -> Option<u32>;

/// The square that two characters of a text name: a lower-case letter from `a` to `h`, then a
/// digit from `1` to `8`.
pub open spec fn square_in_text(text: Seq<char>, at: int) -> Option<u32> {
    let file = text[at] as int - 97;
    let rank = text[at + 1] as int - 49;
    if 0 <= file < 8 && 0 <= rank < 8 {
        Some((8 * rank + file) as u32)
    } else {
        None
    }
}

/// Whether a character stands for a kind of piece, in either case.
pub open spec fn role_letter(c: char) -> bool {
    ||| c == 'P' || c == 'p' || c == 'N' || c == 'n' || c == 'B' || c == 'b'
    ||| c == 'R' || c == 'r' || c == 'Q' || c == 'q' || c == 'K' || c == 'k'
}

/// The two squares that a move's text names, where it names two: four characters, or five where
/// the last stands for the piece that a pawn becomes.
pub open spec fn squares_in_text(text: Seq<char>) -> Option<(u32, u32)> {
    if text.len() == 4 || text.len() == 5 && role_letter(text[4]) {
        match (square_in_text(text, 0), square_in_text(text, 2)) {
            (Some(from), Some(to)) => Some((from, to)),
            _ => None,
        }
    } else {
        None
    }
}

/// The square that a move's text leaves, where it names two.
pub open spec fn origin_text(text: Seq<char>) -> Option<u32> {
    match squares_in_text(text) {
        Some((from, _)) => Some(from),
        None => None,
    }
}

/// The square that a move's text goes to, where it names two.
pub open spec fn target_text(text: Seq<char>) -> Option<u32> {
    match squares_in_text(text) {
        Some((_, to)) => Some(to),
        None => None,
    }
}

/// Whether a square, given by its index, holds a piece of the side to move, of a certain kind.
pub open spec fn mover_has(fen: Seq<char>, square: int, role: Role) -> bool {
    turn_in(fen) is Some && piece_in(fen, square) == Some(Piece { color: turn_in(fen)->0, role })
}

/// `shakmaty::san::San::from_move`, on the position of `fen` and the move that `uci` is there.
///
/// There is a notation exactly where the move is legal; which one, [`san_in`] names.
#[verifier::external_body]
fn san_of(fen: &str, uci: &str) -> (r: Option<String>)
    ensures
        r is Some <==> legal_in(fen@, uci@),
        r matches Some(san) ==> san@ == san_in(fen@, uci@),
{
    let fen: shakmaty::fen::Fen = fen.parse().ok()?;
    let position: shakmaty::Chess = fen.into_position(shakmaty::CastlingMode::Standard).ok()?;
    let uci: shakmaty::uci::UciMove = uci.parse().ok()?;
    let mv = uci.to_move(&position).ok()?;
    Some(shakmaty::san::San::from_move(&position, mv).to_string())
}

/// `shakmaty::san::SanPlus::from_move`, on the position of `fen` and the move that `uci` is
/// there.
///
/// There is a notation exactly where the move is legal; which one, [`san_plus_in`] names.
#[verifier::external_body]
fn san_plus_of(fen: &str, uci: &str) -> (r: Option<String>)
    ensures
        r is Some <==> legal_in(fen@, uci@),
        r matches Some(san) ==> san@ == san_plus_in(fen@, uci@),
{
    let fen: shakmaty::fen::Fen = fen.parse().ok()?;
    let position: shakmaty::Chess = fen.into_position(shakmaty::CastlingMode::Standard).ok()?;
    let uci: shakmaty::uci::UciMove = uci.parse().ok()?;
    let mv = uci.to_move(&position).ok()?;
    Some(shakmaty::san::SanPlus::from_move(position, mv).to_string())
}

/// `shakmaty::Position::play_unchecked`, on the position of `fen` and the move that `uci` is
/// there; the position it leads to is written with an en passant square only where that capture
/// is legal.
///
/// There is such a position exactly where the move is legal; which one, [`fen_after`] names.
#[verifier::external_body]
fn position_after(fen: &str, uci: &str) -> (r: Option<String>)
    ensures
        r is Some <==> legal_in(fen@, uci@),
        r matches Some(next) ==> next@ == fen_after(fen@, uci@),
{
    let fen: shakmaty::fen::Fen = fen.parse().ok()?;
    let mut position: shakmaty::Chess = fen.into_position(shakmaty::CastlingMode::Standard).ok()?;
    let uci: shakmaty::uci::UciMove = uci.parse().ok()?;
    let mv = uci.to_move(&position).ok()?;
    shakmaty::Position::play_unchecked(&mut position, mv);
    let mode = shakmaty::EnPassantMode::Legal;
    Some(shakmaty::fen::Fen::from_position(&position, mode).to_string())
}

/// `shakmaty::Move::from`, of the move that `uci` is in the position of `fen`.
///
/// There is an answer exactly where the move is legal, and it is the first of the two squares that
/// the move's text then names. A square is given by its index, below 64.
#[verifier::external_body]
fn move_origin(fen: &str, uci: &str) -> (r: Option<Option<u32>>)
    ensures
        r is Some <==> legal_in(fen@, uci@),
        r matches Some(from) ==> from is Some && from == origin_text(uci@),
{
    let fen: shakmaty::fen::Fen = fen.parse().ok()?;
    let position: shakmaty::Chess = fen.into_position(shakmaty::CastlingMode::Standard).ok()?;
    let uci: shakmaty::uci::UciMove = uci.parse().ok()?;
    let mv = uci.to_move(&position).ok()?;
    Some(mv.from().map(|from| from.to_u32()))
}

/// `shakmaty::Move::to`, of the move that `uci` is in the position of `fen`.
///
/// There is an answer exactly where the move is legal; which one, [`target_in`] names. It is the
/// second of the two squares that the move's text names, unless the king castles, when it may be
/// the square of the rook instead. The square is given by its index, below 64.
#[verifier::external_body]
fn move_target(fen: &str, uci: &str) -> (r: Option<u32>)
    ensures
        r is Some <==> legal_in(fen@, uci@),
        r matches Some(to) ==> to == target_in(fen@, uci@) && to < 64,
        r matches Some(to) ==> target_text(uci@) == Some(to) || (origin_text(uci@) matches Some(
            from,
        ) && mover_has(fen@, from as int, Role::King) && mover_has(fen@, to as int, Role::Rook)),
{
    let fen: shakmaty::fen::Fen = fen.parse().ok()?;
    let position: shakmaty::Chess = fen.into_position(shakmaty::CastlingMode::Standard).ok()?;
    let uci: shakmaty::uci::UciMove = uci.parse().ok()?;
    let mv = uci.to_move(&position).ok()?;
    Some(mv.to().to_u32())
}

/// `shakmaty::Move::is_capture`, of the move that `uci` is in the position of `fen`.
///
/// There is an answer exactly where the move is legal; which one, [`captures_in`] names.
#[verifier::external_body]
fn move_captures(fen: &str, uci: &str) -> (r: Option<bool>)
    ensures
        r is Some <==> legal_in(fen@, uci@),
        r matches Some(capture) ==> capture == captures_in(fen@, uci@),
{
    let fen: shakmaty::fen::Fen = fen.parse().ok()?;
    let position: shakmaty::Chess = fen.into_position(shakmaty::CastlingMode::Standard).ok()?;
    let uci: shakmaty::uci::UciMove = uci.parse().ok()?;
    let mv = uci.to_move(&position).ok()?;
    Some(mv.is_capture())
}

/// `shakmaty::Board::piece_at`, on the position of `fen`, which [`piece_in`] names.
#[verifier::external_body]
fn piece_at_index(fen: &str, square: u32) -> (r: Option<Piece>)
    requires
        square < 64,
    ensures
        r == piece_in(fen@, square as int),
{
    let fen: shakmaty::fen::Fen = fen.parse().ok()?;
    let position: shakmaty::Chess = fen.into_position(shakmaty::CastlingMode::Standard).ok()?;
    let board = shakmaty::Position::board(&position);
    let piece = board.piece_at(shakmaty::Square::new(square))?;
    let color = piece.color.fold_wb(Color::White, Color::Black);
    let role = match piece.role {
        shakmaty::Role::Pawn => Role::Pawn,
        shakmaty::Role::Knight => Role::Knight,
        shakmaty::Role::Bishop => Role::Bishop,
        shakmaty::Role::Rook => Role::Rook,
        shakmaty::Role::Queen => Role::Queen,
        shakmaty::Role::King => Role::King,
    };
    Some(Piece { color, role })
}

/// `shakmaty::Position::turn`, on the position of `fen`, which [`turn_in`] names.
#[verifier::external_body]
fn turn_of(fen: &str) -> (r: Option<Color>)
    ensures
        r == turn_in(fen@),
{
    let fen: shakmaty::fen::Fen = fen.parse().ok()?;
    let position: shakmaty::Chess = fen.into_position(shakmaty::CastlingMode::Standard).ok()?;
    match shakmaty::Position::turn(&position) {
        shakmaty::Color::White => Some(Color::White),
        shakmaty::Color::Black => Some(Color::Black),
    }
}

/// `shakmaty::Position::is_check`, on the position of `fen`, which [`check_in`] names.
#[verifier::external_body]
fn is_check(fen: &str) -> (r: Option<bool>)
    ensures
        r == check_in(fen@),
{
    let fen: shakmaty::fen::Fen = fen.parse().ok()?;
    let position: shakmaty::Chess = fen.into_position(shakmaty::CastlingMode::Standard).ok()?;
    Some(shakmaty::Position::is_check(&position))
}

/// `shakmaty::Position::is_checkmate`, on the position of `fen`, which [`checkmate_in`] names.
#[verifier::external_body]
fn is_checkmate(fen: &str) -> (r: Option<bool>)
    ensures
        r == checkmate_in(fen@),
{
    let fen: shakmaty::fen::Fen = fen.parse().ok()?;
    let position: shakmaty::Chess = fen.into_position(shakmaty::CastlingMode::Standard).ok()?;
    Some(shakmaty::Position::is_checkmate(&position))
}

/// `shakmaty::Board::king_of`, on the position of `fen`, which [`king_in`] names. The square is
/// given by its index, below 64.
#[verifier::external_body]
fn king_index(fen: &str, side: Color) -> (r: Option<u32>)
    ensures
        r == king_in(fen@, side),
        r matches Some(square) ==> square < 64,
{
    let fen: shakmaty::fen::Fen = fen.parse().ok()?;
    let position: shakmaty::Chess = fen.into_position(shakmaty::CastlingMode::Standard).ok()?;
    let side = match side {
        Color::White => shakmaty::Color::White,
        Color::Black => shakmaty::Color::Black,
    };
    let king = shakmaty::Position::board(&position).king_of(side)?;
    Some(king.to_u32())
}

/// `shakmaty::uci::UciMove`'s `from` and `to`, of the move that `uci` reads as, by their indices.
///
/// Both are there exactly where the text names two squares, as [`squares_in_text`] says.
#[verifier::external_body]
fn uci_parts(uci: &str) -> (r: Option<(u32, u32)>)
    ensures
        r == squares_in_text(uci@),
{
    let parsed: shakmaty::uci::UciMove = uci.parse().ok()?;
    let from = parsed.from()?;
    let to = parsed.to()?;
    Some((from.to_u32(), to.to_u32()))
}

/// What a move does on the board.
#[derive(Debug, Clone, Copy, PartialEq, Eq)]
pub struct Moved {
    pub from: Option<Square>,
    /// Where the piece goes; the rook's square, where the move castles.
    pub to: Square,
    pub capture: bool,
}

/// An index as a square.
pub open spec fn square_of(index: Option<u32>) -> Option<Square> {
    match index {
        Some(index) => Some(nth_square(index as int)),
        None => None,
    }
}

/// What a move does on the board.
pub open spec fn moved_in(fen: Seq<char>, uci: Seq<char>) -> Option<Moved> {
    if legal_in(fen, uci) {
        Some(
            Moved {
                from: square_of(origin_text(uci)),
                to: nth_square(target_in(fen, uci) as int),
                capture: captures_in(fen, uci),
            },
        )
    } else {
        None
    }
}

/// What a move does on the board, where it is legal.
pub fn moved(fen: &str, uci: &str) -> (r: Option<Moved>)
    ensures
        r == moved_in(fen@, uci@),
{
    match (move_origin(fen, uci), move_target(fen, uci), move_captures(fen, uci)) {
        (Some(from), Some(to), Some(capture)) => {
            let from = match from {
                Some(index) => Some(Square::new(index)),
                None => None,
            };
            Some(Moved { from, to: Square::new(to), capture })
        },
        _ => None,
    }
}

/// The squares that a move's text names.
pub fn uci_squares(uci: &str) -> (r: Option<(Square, Square)>)
    ensures
        r == match squares_in_text(uci@) {
            Some((from, to)) => Some((nth_square(from as int), nth_square(to as int))),
            None => None,
        },
{
    match uci_parts(uci) {
        Some((from, to)) => Some((Square::new(from), Square::new(to))),
        None => None,
    }
}

/// The piece on a square.
pub open spec fn piece_on(fen: Seq<char>, square: Square) -> Option<Piece> {
    piece_in(fen, crate::chess::square_index(square))
}

/// The piece on a square. Nothing where the square is empty.
pub fn piece_at(fen: &str, square: Square) -> (r: Option<Piece>)
    ensures
        r == piece_on(fen@, square),
{
    piece_at_index(fen, square.index())
}

/// Every square's piece, from a1 to h8.
#[verifier::opaque]
pub open spec fn placement_of(fen: Seq<char>) -> Seq<Option<Piece>> {
    Seq::new(64, |i: int| piece_in(fen, i))
}

/// Every square's piece, from a1 to h8.
pub fn placement(fen: &str) -> (r: Vec<Option<Piece>>)
    ensures
        r@ == placement_of(fen@),
{
    let mut out: Vec<Option<Piece>> = Vec::new();
    let mut i: u32 = 0;
    while i < 64
        invariant
            i <= 64,
            out@.len() == i,
            forall|j: int| 0 <= j < i ==> out@[j] == piece_in(fen@, j),
        decreases 64 - i,
    {
        out.push(piece_at_index(fen, i));
        i += 1;
    }
    proof {
        reveal(placement_of);
    }
    assert(out@ =~= placement_of(fen@));
    out
}

/// Whether a piece belongs to a side.
pub fn belongs_to(piece: Option<Piece>, side: Color) -> (r: bool)
    ensures
        r == (piece is Some && piece->0.color == side),
{
    match piece {
        Some(piece) => piece.color == side,
        None => false,
    }
}

/// Whether a square holds a piece of a side.
pub open spec fn holds(fen: Seq<char>, square: Square, side: Color) -> bool {
    piece_on(fen, square) is Some && piece_on(fen, square)->0.color == side
}

/// Whether a square holds a piece of a side.
pub fn holds_piece_of(fen: &str, square: Square, side: Color) -> (r: bool)
    ensures
        r == holds(fen@, square, side),
{
    belongs_to(piece_at(fen, square), side)
}

/// Whose move it is. Nothing where the position cannot be read.
pub fn turn(fen: &str) -> (r: Option<Color>)
    ensures
        r == turn_in(fen@),
{
    turn_of(fen)
}

/// The king to mark: the one that the mark applies to, where it applies.
pub fn marked_king(applies: Option<bool>, king: Option<Square>) -> (r: Option<Square>)
    ensures
        r == if applies == Some(true) {
            king
        } else {
            None
        },
{
    match applies {
        Some(true) => king,
        _ => None,
    }
}

/// The king of the side to move.
pub open spec fn king_to_move(fen: Seq<char>) -> Option<Square> {
    match turn_in(fen) {
        Some(side) => square_of(king_in(fen, side)),
        None => None,
    }
}

/// The king of the side to move.
fn mover_king(fen: &str) -> (r: Option<Square>)
    ensures
        r == king_to_move(fen@),
{
    match turn_of(fen) {
        Some(side) => match king_index(fen, side) {
            Some(index) => Some(Square::new(index)),
            None => None,
        },
        None => None,
    }
}

/// The king in check, which is the king of the side to move.
pub open spec fn checked_king(fen: Seq<char>) -> Option<Square> {
    if check_in(fen) == Some(true) {
        king_to_move(fen)
    } else {
        None
    }
}

/// The mated king, which is the king of the side to move.
pub open spec fn mated_king(fen: Seq<char>) -> Option<Square> {
    if checkmate_in(fen) == Some(true) {
        king_to_move(fen)
    } else {
        None
    }
}

/// The king in check. It is the king of the side to move: marking the other one would point at
/// the wrong danger.
pub fn check_square(fen: &str) -> (r: Option<Square>)
    ensures
        r == checked_king(fen@),
{
    marked_king(is_check(fen), mover_king(fen))
}

/// The mated king, where the position is checkmate.
pub fn mate_square(fen: &str) -> (r: Option<Square>)
    ensures
        r == mated_king(fen@),
{
    marked_king(is_checkmate(fen), mover_king(fen))
}

/// Whether the side to move is in check.
pub fn in_check(fen: &str) -> (r: bool)
    ensures
        r == (check_in(fen@) == Some(true)),
{
    match is_check(fen) {
        Some(check) => check,
        None => false,
    }
}

/// A move in algebraic notation, without a mark for check.
pub fn san(fen: &str, uci: &str) -> (r: Option<String>)
    ensures
        r is Some <==> legal_in(fen@, uci@),
        r matches Some(san) ==> san@ == san_in(fen@, uci@),
{
    san_of(fen, uci)
}

/// A move in algebraic notation, with its mark for check or mate.
pub fn san_plus(fen: &str, uci: &str) -> (r: Option<String>)
    ensures
        r is Some <==> legal_in(fen@, uci@),
        r matches Some(san) ==> san@ == san_plus_in(fen@, uci@),
{
    san_plus_of(fen, uci)
}

/// The position after a move.
pub fn after(fen: &str, uci: &str) -> (r: Option<String>)
    ensures
        r is Some <==> legal_in(fen@, uci@),
        r matches Some(next) ==> next@ == fen_after(fen@, uci@),
{
    position_after(fen, uci)
}

/// A line of moves in algebraic notation, as far as it can be played.
pub open spec fn san_line(fen: Seq<char>, moves: Seq<Seq<char>>) -> Seq<Seq<char>>
    decreases moves.len(),
{
    if moves.len() == 0 || !legal_in(fen, moves[0]) {
        Seq::empty()
    } else {
        seq![san_in(fen, moves[0])] + san_line(fen_after(fen, moves[0]), moves.drop_first())
    }
}

/// How many moves of a line can be played.
pub open spec fn playable(fen: Seq<char>, moves: Seq<Seq<char>>) -> nat
    decreases moves.len(),
{
    if moves.len() == 0 || !legal_in(fen, moves[0]) {
        0
    } else {
        1 + playable(fen_after(fen, moves[0]), moves.drop_first())
    }
}

/// The position that a line leads to, as far as it can be played.
pub open spec fn line_end(fen: Seq<char>, moves: Seq<Seq<char>>) -> Seq<char>
    decreases moves.len(),
{
    if moves.len() == 0 || !legal_in(fen, moves[0]) {
        fen
    } else {
        line_end(fen_after(fen, moves[0]), moves.drop_first())
    }
}

/// The squares of the last move of a line, as far as it can be played; `before` where none can.
pub open spec fn line_last(
    fen: Seq<char>,
    moves: Seq<Seq<char>>,
    before: Option<(Square, Square)>,
) -> Option<(Square, Square)>
    decreases moves.len(),
{
    if moves.len() == 0 || !legal_in(fen, moves[0]) {
        before
    } else {
        line_last(
            fen_after(fen, moves[0]),
            moves.drop_first(),
            squares_moved(moved_in(fen, moves[0])->0),
        )
    }
}

/// The squares that a move joins, where it leaves one.
pub open spec fn squares_moved(moved: Moved) -> Option<(Square, Square)> {
    match moved.from {
        Some(from) => Some((from, moved.to)),
        None => None,
    }
}

/// The squares that a move joins, where it leaves one.
pub fn move_squares(moved: Moved) -> (r: Option<(Square, Square)>)
    ensures
        r == squares_moved(moved),
{
    match moved.from {
        Some(from) => Some((from, moved.to)),
        None => None,
    }
}

/// Engine moves in the notation that a person reads. A line that cannot be played to its end is
/// cut short rather than dropped.
pub fn to_san(fen: &str, moves: &Vec<String>) -> (r: Vec<String>)
    ensures
        texts(r@) == san_line(fen@, texts(moves@)),
{
    let ghost line = texts(moves@);
    let mut out: Vec<String> = Vec::new();
    let mut here = fen.to_owned();
    let mut i: usize = 0;
    assert(line.skip(0) =~= line);
    assert(texts(out@) + san_line(here@, line.skip(0)) =~= san_line(fen@, line));
    while i < moves.len()
        invariant
            i <= moves.len(),
            line == texts(moves@),
            texts(out@) + san_line(here@, line.skip(i as int)) == san_line(fen@, line),
        decreases moves.len() - i,
    {
        let ghost rest = line.skip(i as int);
        let ghost before = texts(out@);
        assert(rest[0] == moves@[i as int]@);
        assert(rest.drop_first() =~= line.skip(i + 1));
        match san_of(here.as_str(), moves[i].as_str()) {
            Some(san) => {
                out.push(san);
                assert(texts(out@) =~= before.push(san@));
            },
            None => {
                assert(san_line(here@, rest) =~= Seq::<Seq<char>>::empty());
                assert(texts(out@) =~= san_line(fen@, line));
                return out;
            },
        }
        match position_after(here.as_str(), moves[i].as_str()) {
            Some(next) => {
                here = next;
            },
            None => {
                return out;
            },
        }
        assert(texts(out@) + san_line(here@, line.skip(i + 1)) =~= san_line(fen@, line));
        i += 1;
    }
    assert(line.skip(i as int).len() == 0);
    assert(texts(out@) =~= san_line(fen@, line));
    out
}

/// A readable line is never longer than the line it was made from, and it is shorter exactly
/// where a move cannot be played: it is truncated there, not dropped.
pub proof fn a_line_is_truncated_not_dropped(fen: Seq<char>, moves: Seq<Seq<char>>)
    ensures
        san_line(fen, moves).len() == playable(fen, moves),
        playable(fen, moves) <= moves.len(),
        moves.len() > 0 && legal_in(fen, moves[0]) ==> san_line(fen, moves).len() >= 1,
    decreases moves.len(),
{
    if moves.len() > 0 && legal_in(fen, moves[0]) {
        a_line_is_truncated_not_dropped(fen_after(fen, moves[0]), moves.drop_first());
    }
}

/// Whatever follows the part of a line that can be played changes nothing of what is shown.
pub proof fn only_the_playable_part_is_shown(fen: Seq<char>, moves: Seq<Seq<char>>)
    ensures
        san_line(fen, moves.take(playable(fen, moves) as int)) == san_line(fen, moves),
        playable(fen, moves) <= moves.len(),
    decreases moves.len(),
{
    if moves.len() > 0 && legal_in(fen, moves[0]) {
        let rest = moves.drop_first();
        let next = fen_after(fen, moves[0]);
        only_the_playable_part_is_shown(next, rest);
        let cut = moves.take(playable(fen, moves) as int);
        assert(cut[0] == moves[0]);
        assert(cut.drop_first() =~= rest.take(playable(next, rest) as int));
    } else {
        assert(moves.take(0).len() == 0);
    }
}

/// The first moves of a line read as they do in the whole line: a prefix of a line reads as a
/// prefix of what the line reads as.
pub proof fn a_prefix_reads_as_a_prefix(fen: Seq<char>, moves: Seq<Seq<char>>, count: int)
    requires
        0 <= count <= moves.len(),
    ensures
        san_line(fen, moves.take(count)).len() <= san_line(fen, moves).len(),
        san_line(fen, moves.take(count)) == san_line(fen, moves).take(
            san_line(fen, moves.take(count)).len() as int,
        ),
    decreases moves.len(),
{
    let first = moves.take(count);
    if count > 0 && legal_in(fen, moves[0]) {
        let next = fen_after(fen, moves[0]);
        assert(first[0] == moves[0]);
        assert(first.drop_first() =~= moves.drop_first().take(count - 1));
        a_prefix_reads_as_a_prefix(next, moves.drop_first(), count - 1);
        let short = san_line(next, first.drop_first());
        let long = san_line(next, moves.drop_first());
        assert(seq![san_in(fen, moves[0])] + short =~= (seq![san_in(fen, moves[0])] + long).take(
            short.len() as int + 1,
        ));
    } else {
        assert(san_line(fen, first) =~= Seq::<Seq<char>>::empty());
        assert(san_line(fen, moves).take(0) =~= Seq::<Seq<char>>::empty());
    }
}

/// A position is read square by square: every square of the board has the piece that the position
/// has there, at the square's own place, and a square belongs to a side exactly where it has a piece
/// of that side.
pub proof fn a_position_is_read_square_by_square(fen: Seq<char>, square: Square, side: Color)
    ensures
        placement_of(fen).len() == 64,
        0 <= crate::chess::square_index(square) < 64,
        placement_of(fen)[crate::chess::square_index(square)] == piece_in(
            fen,
            crate::chess::square_index(square),
        ),
        piece_on(fen, square) == piece_in(fen, crate::chess::square_index(square)),
        holds(fen, square, side) <==> (piece_in(fen, crate::chess::square_index(square)) matches Some(
            piece,
        ) && piece.color == side),
{
    reveal(placement_of);
    crate::chess::square_round_trip(square);
}

/// The king that is marked in check, or as mated, is the king of the side to move, and none is marked
/// where that side is not.
pub proof fn the_marked_king_is_the_movers(fen: Seq<char>)
    ensures
        check_in(fen) != Some(true) ==> checked_king(fen) is None,
        checkmate_in(fen) != Some(true) ==> mated_king(fen) is None,
        turn_in(fen) is None ==> checked_king(fen) is None && mated_king(fen) is None,
        turn_in(fen) matches Some(side) ==> {
            &&& check_in(fen) == Some(true) ==> (checked_king(fen) is Some <==> king_in(
                fen,
                side,
            ) is Some)
            &&& checkmate_in(fen) == Some(true) ==> (mated_king(fen) is Some <==> king_in(
                fen,
                side,
            ) is Some)
            &&& checked_king(fen) matches Some(square) ==> square == nth_square(
                king_in(fen, side)->0 as int,
            )
            &&& mated_king(fen) matches Some(square) ==> square == nth_square(
                king_in(fen, side)->0 as int,
            )
        },
{
}

/// A move does something exactly where it is legal: it leaves the first square of its text, goes to
/// its target, and takes something where it is a capture.
pub proof fn a_legal_move_joins_its_squares(fen: Seq<char>, uci: Seq<char>)
    ensures
        moved_in(fen, uci) is Some <==> legal_in(fen, uci),
        moved_in(fen, uci) matches Some(moved) ==> {
            &&& moved.to == nth_square(target_in(fen, uci) as int)
            &&& moved.capture == captures_in(fen, uci)
            &&& moved.from is Some <==> squares_in_text(uci) is Some
            &&& squares_in_text(uci) matches Some((from, _)) ==> squares_moved(moved) == Some(
                (nth_square(from as int), moved.to),
            )
        },
{
}

/// The text of a move names its two squares by their names, one behind the other, with or without
/// the letter of the piece that a pawn becomes; and no other text of that length names them.
pub proof fn a_moves_text_names_its_squares(from: Square, to: Square, letter: char)
    ensures
        ({
            let text = crate::chess::square_name(from) + crate::chess::square_name(to);
            let named = Some(
                (
                    crate::chess::square_index(from) as u32,
                    crate::chess::square_index(to) as u32,
                ),
            );
            &&& squares_in_text(text) == named
            &&& "PNBRQKpnbrqk"@.contains(letter) ==> squares_in_text(text.push(letter)) == named
            &&& !"PNBRQKpnbrqk"@.contains(letter) ==> squares_in_text(text.push(letter)) is None
        }),
{
    reveal_strlit("PNBRQKpnbrqk");
    let letters = "PNBRQKpnbrqk"@;
    assert(letters.len() == 12);
    assert(letters[0] == 'P' && letters[1] == 'N' && letters[2] == 'B' && letters[3] == 'R'
        && letters[4] == 'Q' && letters[5] == 'K' && letters[6] == 'p' && letters[7] == 'n'
        && letters[8] == 'b' && letters[9] == 'r' && letters[10] == 'q' && letters[11] == 'k');
    let text = crate::chess::square_name(from) + crate::chess::square_name(to);
    let longer = text.push(letter);
    assert(longer[0] == text[0] && longer[1] == text[1] && longer[2] == text[2] && longer[3]
        == text[3]);
}

/// A line leads on from where its beginning leads: one more move, where the line before it can be
/// played and it is legal there, leads to the position after it and is the last move. Where it is
/// not, the line ends where it ended, and its last move is what it was.
pub proof fn a_line_leads_on(
    fen: Seq<char>,
    moves: Seq<Seq<char>>,
    uci: Seq<char>,
    before: Option<(Square, Square)>,
)
    ensures
        ({
            let here = line_end(fen, moves);
            if playable(fen, moves) == moves.len() && legal_in(here, uci) {
                &&& line_end(fen, moves.push(uci)) == fen_after(here, uci)
                &&& line_last(fen, moves.push(uci), before) == squares_moved(
                    moved_in(here, uci)->0,
                )
                &&& san_line(fen, moves.push(uci)) == san_line(fen, moves).push(san_in(here, uci))
            } else {
                &&& line_end(fen, moves.push(uci)) == here
                &&& line_last(fen, moves.push(uci), before) == line_last(fen, moves, before)
                &&& san_line(fen, moves.push(uci)) == san_line(fen, moves)
            }
        }),
        line_end(fen, Seq::empty()) == fen,
        line_last(fen, Seq::empty(), before) == before,
        san_line(fen, Seq::empty()) == Seq::<Seq<char>>::empty(),
    decreases moves.len(),
{
    reveal_with_fuel(line_end, 2);
    reveal_with_fuel(line_last, 2);
    reveal_with_fuel(san_line, 2);
    let longer = moves.push(uci);
    assert(san_line(fen, Seq::empty()) =~= Seq::<Seq<char>>::empty());
    if moves.len() == 0 {
        assert(longer[0] == uci);
        assert(longer.drop_first() =~= Seq::<Seq<char>>::empty());
        assert(san_line(fen, moves) =~= Seq::<Seq<char>>::empty());
        if legal_in(fen, uci) {
            let next = fen_after(fen, uci);
            assert(san_line(next, longer.drop_first()) =~= Seq::<Seq<char>>::empty());
            assert(san_line(fen, longer) =~= seq![san_in(fen, uci)]);
            assert(san_line(fen, longer) =~= san_line(fen, moves).push(san_in(fen, uci)));
            assert(line_end(next, longer.drop_first()) == next);
        }
    } else {
        assert(longer[0] == moves[0]);
        assert(longer.drop_first() =~= moves.drop_first().push(uci));
        if legal_in(fen, moves[0]) {
            let next = fen_after(fen, moves[0]);
            let then_last = squares_moved(moved_in(fen, moves[0])->0);
            a_line_leads_on(next, moves.drop_first(), uci, then_last);
            let here = line_end(fen, moves);
            if playable(fen, moves) == moves.len() && legal_in(here, uci) {
                assert(seq![san_in(fen, moves[0])] + san_line(next, moves.drop_first()).push(
                    san_in(here, uci),
                ) =~= (seq![san_in(fen, moves[0])] + san_line(next, moves.drop_first())).push(
                    san_in(here, uci),
                ));
            }
        }
    }
}

/// Walk a line on the board: the position that it leads to and the last move's squares, as far
/// as it can be played.
pub fn walk_line(fen: &str, moves: &Vec<String>, upto: usize) -> (r: (String, Option<(Square, Square)>))
    requires
        upto <= moves@.len(),
    ensures
        r.0@ == line_end(fen@, texts(moves@).take(upto as int)),
        r.1 == line_last(fen@, texts(moves@).take(upto as int), None),
{
    let ghost line = texts(moves@).take(upto as int);
    let mut here = fen.to_owned();
    let mut last: Option<(Square, Square)> = None;
    let mut i: usize = 0;
    assert(line.skip(0) =~= line);
    while i < upto
        invariant
            i <= upto <= moves@.len(),
            line == texts(moves@).take(upto as int),
            line_end(here@, line.skip(i as int)) == line_end(fen@, line),
            line_last(here@, line.skip(i as int), last) == line_last(fen@, line, None),
        decreases upto - i,
    {
        let ghost rest = line.skip(i as int);
        assert(rest[0] == moves@[i as int]@);
        assert(rest.drop_first() =~= line.skip(i + 1));
        let step = moved(here.as_str(), moves[i].as_str());
        match (step, position_after(here.as_str(), moves[i].as_str())) {
            (Some(step), Some(next)) => {
                last = move_squares(step);
                here = next;
            },
            _ => {
                return (here, last);
            },
        }
        i += 1;
    }
    assert(line.skip(i as int).len() == 0);
    (here, last)
}

} // verus!
