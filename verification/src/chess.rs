//! The chess that every board needs: sides, pieces and squares.

use vstd::prelude::*;
use vstd::string::*;

verus! {

/// A side.
#[derive(Debug, Clone, Copy, PartialEq, Eq, Structural, Hash)]
pub enum Color {
    White,
    Black,
}

/// A kind of piece.
#[derive(Debug, Clone, Copy, PartialEq, Eq, Structural, Hash)]
pub enum Role {
    Pawn,
    Knight,
    Bishop,
    Rook,
    Queen,
    King,
}

/// A piece of one side.
#[derive(Debug, Clone, Copy, PartialEq, Eq, Structural, Hash)]
pub struct Piece {
    pub color: Color,
    pub role: Role,
}

/// A column of the board.
#[derive(Debug, Clone, Copy, PartialEq, Eq, Structural, Hash)]
pub enum File {
    A,
    B,
    C,
    D,
    E,
    F,
    G,
    H,
}

/// A row of the board.
#[derive(Debug, Clone, Copy, PartialEq, Eq, Structural, Hash)]
pub enum Rank {
    First,
    Second,
    Third,
    Fourth,
    Fifth,
    Sixth,
    Seventh,
    Eighth,
}

/// A square of the board.
#[derive(Debug, Clone, Copy, PartialEq, Eq, Structural, Hash)]
pub struct Square {
    pub file: File,
    pub rank: Rank,
}

/// How far a file stands to the right of the a-file.
pub open spec fn file_index(file: File) -> int {
    match file {
        File::A => 0,
        File::B => 1,
        File::C => 2,
        File::D => 3,
        File::E => 4,
        File::F => 5,
        File::G => 6,
        File::H => 7,
    }
}

/// How far a rank stands above the first.
pub open spec fn rank_index(rank: Rank) -> int {
    match rank {
        Rank::First => 0,
        Rank::Second => 1,
        Rank::Third => 2,
        Rank::Fourth => 3,
        Rank::Fifth => 4,
        Rank::Sixth => 5,
        Rank::Seventh => 6,
        Rank::Eighth => 7,
    }
}

/// Squares are counted along the ranks, from a1 to h8.
pub open spec fn square_index(square: Square) -> int {
    8 * rank_index(square.rank) + file_index(square.file)
}

/// The file at an index.
pub open spec fn file_at(index: int) -> File {
    if index <= 0 {
        File::A
    } else if index == 1 {
        File::B
    } else if index == 2 {
        File::C
    } else if index == 3 {
        File::D
    } else if index == 4 {
        File::E
    } else if index == 5 {
        File::F
    } else if index == 6 {
        File::G
    } else {
        File::H
    }
}

/// The rank at an index.
pub open spec fn rank_at(index: int) -> Rank {
    if index <= 0 {
        Rank::First
    } else if index == 1 {
        Rank::Second
    } else if index == 2 {
        Rank::Third
    } else if index == 3 {
        Rank::Fourth
    } else if index == 4 {
        Rank::Fifth
    } else if index == 5 {
        Rank::Sixth
    } else if index == 6 {
        Rank::Seventh
    } else {
        Rank::Eighth
    }
}

/// The square at an index.
pub open spec fn nth_square(index: int) -> Square {
    Square { file: file_at(index % 8), rank: rank_at(index / 8) }
}

/// A square's name: the letter of its file, then the digit of its rank.
pub open spec fn square_name(square: Square) -> Seq<char> {
    seq![(97 + file_index(square.file)) as char, (49 + rank_index(square.rank)) as char]
}

/// The other side.
pub open spec fn opponent(color: Color) -> Color {
    match color {
        Color::White => Color::Black,
        Color::Black => Color::White,
    }
}

/// A side's name.
pub open spec fn color_name(color: Color) -> Seq<char> {
    match color {
        Color::White => "White"@,
        Color::Black => "Black"@,
    }
}

impl Color {
    /// A side's name.
    pub fn name(self) -> (r: &'static str)
        ensures
            r@ == color_name(self),
    {
        match self {
            Color::White => "White",
            Color::Black => "Black",
        }
    }
}

/// The name of a kind of piece.
pub open spec fn role_name(role: Role) -> Seq<char> {
    match role {
        Role::Pawn => "Pawn"@,
        Role::Knight => "Knight"@,
        Role::Bishop => "Bishop"@,
        Role::Rook => "Rook"@,
        Role::Queen => "Queen"@,
        Role::King => "King"@,
    }
}

impl Role {
    /// The name of a kind of piece.
    pub fn name(self) -> (r: &'static str)
        ensures
            r@ == role_name(self),
    {
        match self {
            Role::Pawn => "Pawn",
            Role::Knight => "Knight",
            Role::Bishop => "Bishop",
            Role::Rook => "Rook",
            Role::Queen => "Queen",
            Role::King => "King",
        }
    }
}

impl File {
    /// How far a file stands to the right of the a-file.
    pub fn index(self) -> (r: u32)
        ensures
            r == file_index(self),
            r < 8,
    {
        match self {
            File::A => 0,
            File::B => 1,
            File::C => 2,
            File::D => 3,
            File::E => 4,
            File::F => 5,
            File::G => 6,
            File::H => 7,
        }
    }

    /// The file at an index.
    pub fn new(index: u32) -> (r: File)
        requires
            index < 8,
        ensures
            r == file_at(index as int),
            file_index(r) == index,
    {
        match index {
            0 => File::A,
            1 => File::B,
            2 => File::C,
            3 => File::D,
            4 => File::E,
            5 => File::F,
            6 => File::G,
            _ => File::H,
        }
    }
}

impl Rank {
    /// How far a rank stands above the first.
    pub fn index(self) -> (r: u32)
        ensures
            r == rank_index(self),
            r < 8,
    {
        match self {
            Rank::First => 0,
            Rank::Second => 1,
            Rank::Third => 2,
            Rank::Fourth => 3,
            Rank::Fifth => 4,
            Rank::Sixth => 5,
            Rank::Seventh => 6,
            Rank::Eighth => 7,
        }
    }

    /// The rank at an index.
    pub fn new(index: u32) -> (r: Rank)
        requires
            index < 8,
        ensures
            r == rank_at(index as int),
            rank_index(r) == index,
    {
        match index {
            0 => Rank::First,
            1 => Rank::Second,
            2 => Rank::Third,
            3 => Rank::Fourth,
            4 => Rank::Fifth,
            5 => Rank::Sixth,
            6 => Rank::Seventh,
            _ => Rank::Eighth,
        }
    }
}

impl Square {
    /// The square at an index, counted along the ranks from a1 to h8.
    pub fn new(index: u32) -> (r: Square)
        requires
            index < 64,
        ensures
            r == nth_square(index as int),
            square_index(r) == index,
    {
        Square { file: File::new(index % 8), rank: Rank::new(index / 8) }
    }

    /// The square where a file and a rank cross.
    pub fn from_coords(file: File, rank: Rank) -> (r: Square)
        ensures
            r.file == file,
            r.rank == rank,
    {
        Square { file, rank }
    }

    /// Where a square stands, counted along the ranks from a1 to h8.
    pub fn index(self) -> (r: u32)
        ensures
            r == square_index(self),
            r < 64,
            nth_square(r as int) == self,
    {
        proof {
            square_round_trip(self);
        }
        8 * self.rank.index() + self.file.index()
    }

    /// A square's name, such as `e4`.
    pub fn name(self) -> (r: String)
        ensures
            r@ == square_name(self),
    {
        let mut out = file_letter(self.file).to_owned();
        out.append(rank_digit(self.rank));
        assert(out@ =~= square_name(self));
        out
    }
}

/// The letter of a file.
pub fn file_letter(file: File) -> (r: &'static str)
    ensures
        r@ == seq![(97 + file_index(file)) as char],
{
    let letters: &'static str = "abcdefgh";
    proof {
        reveal_strlit("abcdefgh");
    }
    let i = file.index() as usize;
    let r = letters.substring_char(i, i + 1);
    assert(r@ =~= seq![(97 + file_index(file)) as char]);
    r
}

/// The digit of a rank.
pub fn rank_digit(rank: Rank) -> (r: &'static str)
    ensures
        r@ == seq![(49 + rank_index(rank)) as char],
{
    let digits: &'static str = "12345678";
    proof {
        reveal_strlit("12345678");
    }
    let i = rank.index() as usize;
    let r = digits.substring_char(i, i + 1);
    assert(r@ =~= seq![(49 + rank_index(rank)) as char]);
    r
}

/// A square's name with its letter in upper case.
pub open spec fn square_label(square: Square) -> Seq<char> {
    seq![(65 + file_index(square.file)) as char, (49 + rank_index(square.rank)) as char]
}

/// A square's name with its letter in upper case, such as `E4`.
pub fn square_caps(square: Square) -> (r: String)
    ensures
        r@ == square_label(square),
{
    let letters: &'static str = "ABCDEFGH";
    proof {
        reveal_strlit("ABCDEFGH");
    }
    let i = square.file.index() as usize;
    let mut out = letters.substring_char(i, i + 1).to_owned();
    out.append(rank_digit(square.rank));
    assert(out@ =~= square_label(square));
    out
}

/// Every square is the square at its own index.
pub proof fn square_round_trip(square: Square)
    ensures
        0 <= square_index(square) < 64,
        nth_square(square_index(square)) == square,
{
}

/// Every index from 0 to 63 is the index of the square that stands there.
pub proof fn index_round_trip(index: int)
    requires
        0 <= index < 64,
    ensures
        square_index(nth_square(index)) == index,
{
}

/// Two squares with one index are one square.
pub proof fn square_index_is_injective(a: Square, b: Square)
    requires
        square_index(a) == square_index(b),
    ensures
        a == b,
{
    square_round_trip(a);
    square_round_trip(b);
}

/// The letter that stands for a promotion in a move's notation. A piece that a pawn cannot
/// become is written as a queen.
pub open spec fn promotion_letter(role: Role) -> Seq<char> {
    match role {
        Role::Rook => "r"@,
        Role::Bishop => "b"@,
        Role::Knight => "n"@,
        _ => "q"@,
    }
}

/// A promoting move in the notation that engines read: where from, where to, what becomes of
/// the pawn.
pub open spec fn promotion_text(from: Square, to: Square, role: Role) -> Seq<char> {
    square_name(from) + square_name(to) + promotion_letter(role)
}

/// A promoting move names its two squares and then, by its letter, the piece that the pawn becomes:
/// two such moves read alike only where they go between the same squares and become the same piece.
pub proof fn a_promotion_names_its_piece(
    from: Square,
    to: Square,
    role: Role,
    start: Square,
    end: Square,
    other: Role,
)
    requires
        role != Role::Pawn && role != Role::King,
        other != Role::Pawn && other != Role::King,
    ensures
        promotion_text(from, to, role) == promotion_text(start, end, other) ==> from == start && to
            == end && role == other,
        crate::rules::squares_in_text(promotion_text(from, to, role)) == Some(
            (square_index(from) as u32, square_index(to) as u32),
        ),
        role == Role::Queen ==> promotion_text(from, to, role)[4] == 'q',
        role == Role::Rook ==> promotion_text(from, to, role)[4] == 'r',
        role == Role::Bishop ==> promotion_text(from, to, role)[4] == 'b',
        role == Role::Knight ==> promotion_text(from, to, role)[4] == 'n',
{
    reveal_strlit("q");
    reveal_strlit("r");
    reveal_strlit("b");
    reveal_strlit("n");
    let x = promotion_text(from, to, role);
    let y = promotion_text(start, end, other);
    let letter = promotion_letter(role)[0];
    crate::rules::a_moves_text_names_its_squares(from, to, letter);
    assert(x =~= (square_name(from) + square_name(to)).push(letter));
    if x == y {
        assert(x[0] == y[0] && x[1] == y[1] && x[2] == y[2] && x[3] == y[3] && x[4] == y[4]);
    }
}

/// A promoting move in the notation that engines read.
pub fn promotion_uci(from: Square, to: Square, role: Role) -> (r: String)
    ensures
        r@ == promotion_text(from, to, role),
{
    let mut out = from.name();
    out.append(to.name().as_str());
    out.append(
        match role {
            Role::Rook => "r",
            Role::Bishop => "b",
            Role::Knight => "n",
            _ => "q",
        },
    );
    out
}

/// A game as far as a board needs to know it: who the player is, whose move it is, where it
/// began, where it stands, and the moves between.
pub struct GameState {
    pub player: Color,
    pub turn: Color,
    /// The position that the game began from.
    pub initial_fen: String,
    /// The position on the board.
    pub fen: String,
    /// The moves played, in the notation that engines read.
    pub moves: Vec<String>,
}

/// What a [`GameState`] holds.
#[verifier::ext_equal]
pub struct GameModel {
    pub player: Color,
    pub turn: Color,
    pub initial_fen: Seq<char>,
    pub fen: Seq<char>,
    pub moves: Seq<Seq<char>>,
}

impl View for GameState {
    type V = GameModel;

    open spec fn view(&self) -> GameModel {
        GameModel {
            player: self.player,
            turn: self.turn,
            initial_fen: self.initial_fen@,
            fen: self.fen@,
            moves: crate::text::texts(self.moves@),
        }
    }
}

/// What an optional game holds.
pub open spec fn opt_game(game: Option<GameState>) -> Option<GameModel> {
    match game {
        Some(game) => Some(game@),
        None => None,
    }
}

impl GameState {
    /// The same game again.
    pub fn copy(&self) -> (r: GameState)
        ensures
            r@ == self@,
    {
        GameState {
            player: self.player,
            turn: self.turn,
            initial_fen: self.initial_fen.clone(),
            fen: self.fen.clone(),
            moves: crate::text::copy_texts(&self.moves),
        }
    }
}

} // verus!
