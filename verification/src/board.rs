//! The chess board: what each square shows, and what a gesture on it means.
//!
//! The front end draws each cell as [`BoardView::cell`] describes it, and reports presses,
//! releases and keys by the square they fell on.

use crate::chess::{file_index, rank_index, role_name, square_index, Color, File, Piece, Rank, Role, Square};
use crate::rules::{placement, placement_of};
use vstd::prelude::*;
use vstd::string::*;

verus! {

/// What a press-and-release on the board meant.
///
/// A single gesture serves both interaction styles, so the decision between them is stated once.
#[derive(Debug, Clone, Copy, PartialEq, Eq, Structural)]
pub enum Interaction {
    /// Pressed and released on the same square, or pressed off the board.
    Click(Square),
    /// Pressed on one square and released on another.
    Drag { from: Square, to: Square },
    /// Nothing usable happened: released off the board, for instance.
    Nothing,
}

/// What a press at one square and a release at another mean.
pub open spec fn interaction(press: Option<Square>, release: Option<Square>) -> Interaction {
    match release {
        Some(to) => match press {
            Some(from) => if from == to {
                Interaction::Click(to)
            } else {
                Interaction::Drag { from, to }
            },
            None => Interaction::Click(to),
        },
        None => Interaction::Nothing,
    }
}

/// Decide what a press at one square and a release at another meant.
pub fn resolve_interaction(press: Option<Square>, release: Option<Square>) -> (r: Interaction)
    ensures
        r == interaction(press, release),
{
    match (press, release) {
        (Some(from), Some(to)) => {
            if from != to {
                Interaction::Drag { from, to }
            } else {
                Interaction::Click(to)
            }
        },
        (None, Some(to)) => Interaction::Click(to),
        _ => Interaction::Nothing,
    }
}

/// The column that a square stands in, from the left, with `side` at the bottom of the board.
pub open spec fn column_of(square: Square, side: Color) -> int {
    match side {
        Color::White => file_index(square.file),
        Color::Black => 7 - file_index(square.file),
    }
}

/// The row that a square stands in, from the top, with `side` at the bottom of the board.
pub open spec fn row_of(square: Square, side: Color) -> int {
    match side {
        Color::White => 7 - rank_index(square.rank),
        Color::Black => rank_index(square.rank),
    }
}

/// The square that stands in a column and a row.
pub open spec fn shown_at(column: int, row: int, side: Color) -> Option<Square> {
    if 0 <= column < 8 && 0 <= row < 8 {
        Some(
            match side {
                Color::White => Square {
                    file: crate::chess::file_at(column),
                    rank: crate::chess::rank_at(7 - row),
                },
                Color::Black => Square {
                    file: crate::chess::file_at(7 - column),
                    rank: crate::chess::rank_at(row),
                },
            },
        )
    } else {
        None
    }
}

/// Whether a square is a light one.
pub open spec fn light(square: Square) -> bool {
    (file_index(square.file) + rank_index(square.rank)) % 2 == 1
}

/// Where a square sits in the grid for a given orientation.
pub fn grid_position(square: Square, orientation: Color) -> (r: (i32, i32))
    ensures
        r.0 == column_of(square, orientation),
        r.1 == row_of(square, orientation),
        0 <= r.0 < 8,
        0 <= r.1 < 8,
{
    let file = square.file.index() as i32;
    let rank = square.rank.index() as i32;
    match orientation {
        // White at the bottom: rank 8 on top, file a on the left.
        Color::White => (file, 7 - rank),
        Color::Black => (7 - file, rank),
    }
}

/// The square shown at a grid cell, or `None` off the board. The inverse of [`grid_position`],
/// used to walk the keyboard cursor in the direction the player sees rather than the direction
/// the ranks run.
pub fn square_at(column: i32, row: i32, orientation: Color) -> (r: Option<Square>)
    ensures
        r == shown_at(column as int, row as int, orientation),
{
    if column < 0 || column >= 8 || row < 0 || row >= 8 {
        return None;
    }
    let (file, rank): (i32, i32) = match orientation {
        Color::White => (column, 7 - row),
        Color::Black => (7 - column, row),
    };
    Some(Square::from_coords(File::new(file as u32), Rank::new(rank as u32)))
}

/// The square one step away in a screen direction.
pub open spec fn stepped(from: Square, dx: int, dy: int, side: Color) -> Option<Square> {
    shown_at(column_of(from, side) + dx, row_of(from, side) + dy, side)
}

/// Step the keyboard cursor in a screen direction.
///
/// `dx` and `dy` are in screen terms, right and down, so the same key does the same visible
/// thing whichever way the board is facing.
pub fn step_cursor(from: Square, dx: i32, dy: i32, orientation: Color) -> (r: Option<Square>)
    requires
        column_of(from, orientation) + dx <= i32::MAX,
        row_of(from, orientation) + dy <= i32::MAX,
    ensures
        r == stepped(from, dx as int, dy as int, orientation),
{
    let (column, row) = grid_position(from, orientation);
    square_at(column + dx, row + dy, orientation)
}

/// Whether a square is a light one.
pub fn square_is_light(square: Square) -> (r: bool)
    ensures
        r == light(square),
{
    (square.file.index() + square.rank.index()) % 2 == 1
}

/// The solid chess glyph of a kind of piece.
pub open spec fn glyph_of(role: Role) -> char {
    match role {
        Role::King => '\u{265A}',
        Role::Queen => '\u{265B}',
        Role::Rook => '\u{265C}',
        Role::Bishop => '\u{265D}',
        Role::Knight => '\u{265E}',
        Role::Pawn => '\u{265F}',
    }
}

/// Solid chess glyphs for both sides, used when no piece set is installed. Colouring one glyph
/// set per side renders more evenly than mixing the outline and solid ranges, which many fonts
/// draw at different weights.
pub fn glyph(role: Role) -> (r: char)
    ensures
        r == glyph_of(role),
{
    match role {
        Role::King => '\u{265A}',
        Role::Queen => '\u{265B}',
        Role::Rook => '\u{265C}',
        Role::Bishop => '\u{265D}',
        Role::Knight => '\u{265E}',
        Role::Pawn => '\u{265F}',
    }
}

/// Every square is the square shown at its own place in the grid.
pub proof fn square_at_inverts_grid_position(square: Square, side: Color)
    ensures
        shown_at(column_of(square, side), row_of(square, side), side) == Some(square),
{
}

/// Every place in the grid is the place of the square shown there.
pub proof fn grid_position_inverts_square_at(column: int, row: int, side: Color)
    requires
        0 <= column < 8,
        0 <= row < 8,
    ensures
        shown_at(column, row, side) matches Some(square) && column_of(square, side) == column
            && row_of(square, side) == row,
{
}

/// No two squares share a place in the grid.
pub proof fn squares_do_not_collide(a: Square, b: Square, side: Color)
    requires
        column_of(a, side) == column_of(b, side),
        row_of(a, side) == row_of(b, side),
    ensures
        a == b,
{
    square_at_inverts_grid_position(a, side);
    square_at_inverts_grid_position(b, side);
}

/// Turning the board round mirrors it in both axes.
pub proof fn flipping_mirrors_both_axes(square: Square, side: Color)
    ensures
        column_of(square, crate::chess::opponent(side)) == 7 - column_of(square, side),
        row_of(square, crate::chess::opponent(side)) == 7 - row_of(square, side),
{
}

/// Neighbours in a row or a column never share a colour, whichever way the board faces.
pub proof fn neighbours_differ_in_colour(a: Square, b: Square, side: Color)
    requires
        (column_of(a, side) + 1 == column_of(b, side) && row_of(a, side) == row_of(b, side)) || (
        column_of(a, side) == column_of(b, side) && row_of(a, side) + 1 == row_of(b, side)),
    ensures
        light(a) != light(b),
{
}

/// The near-right corner is light, whichever way the board faces.
pub proof fn the_near_right_corner_is_light(square: Square, side: Color)
    requires
        column_of(square, side) == 7,
        row_of(square, side) == 7,
    ensures
        light(square),
{
}

/// The rank digits stand in the left column, one for each rank; the file letters stand in the
/// bottom row, one for each file.
pub proof fn coordinates_label_each_edge_once(rank: Rank, file: File, side: Color)
    ensures
        exists|square: Square|
            #![trigger column_of(square, side)]
            column_of(square, side) == 0 && square.rank == rank,
        exists|square: Square|
            #![trigger row_of(square, side)]
            row_of(square, side) == 7 && square.file == file,
        forall|a: Square, b: Square|
            #![trigger column_of(a, side), column_of(b, side)]
            column_of(a, side) == 0 && column_of(b, side) == 0 && a.rank == b.rank ==> a == b,
        forall|a: Square, b: Square|
            #![trigger row_of(a, side), row_of(b, side)]
            row_of(a, side) == 7 && row_of(b, side) == 7 && a.file == b.file ==> a == b,
{
    let left = Square {
        file: match side {
            Color::White => File::A,
            Color::Black => File::H,
        },
        rank,
    };
    assert(column_of(left, side) == 0);
    let bottom = Square {
        file,
        rank: match side {
            Color::White => Rank::First,
            Color::Black => Rank::Eighth,
        },
    };
    assert(row_of(bottom, side) == 7);
}

/// A step and the step back lead to where they began, unless the board ends in between.
pub proof fn a_step_can_be_taken_back(from: Square, dx: int, dy: int, side: Color)
    ensures
        stepped(from, dx, dy, side) matches Some(to) ==> stepped(to, -dx, -dy, side) == Some(from),
{
}

/// The cursor stops at the edge rather than wrapping round to the other side.
pub proof fn the_cursor_never_wraps(from: Square, dx: int, dy: int, side: Color)
    ensures
        stepped(from, dx, dy, side) matches Some(to) ==> column_of(to, side) == column_of(from, side)
            + dx && row_of(to, side) == row_of(from, side) + dy,
        stepped(from, dx, dy, side) is None <==> !(0 <= column_of(from, side) + dx < 8 && 0
            <= row_of(from, side) + dy < 8),
{
}

/// A gesture is a drag exactly where it joins two different squares, and only where it ends on
/// the board does it mean anything at all.
pub proof fn a_gesture_is_a_click_a_drag_or_nothing(press: Option<Square>, release: Option<Square>)
    ensures
        interaction(press, release) is Nothing <==> release is None,
        interaction(press, release) matches Interaction::Drag { from, to } ==> from != to && press
            == Some(from) && release == Some(to),
        interaction(press, release) matches Interaction::Click(square) ==> release == Some(square),
        press is Some && release is Some && press != release ==> interaction(press, release) is Drag,
{
}

/// How one cell of the board looks.
#[derive(Debug, Clone, Copy, PartialEq, Eq, Structural)]
pub struct Cell {
    pub light: bool,
    pub column: i32,
    pub row: i32,
    /// The rank digit is shown only while this square sits in the leftmost column.
    pub rank_shown: bool,
    /// The file letter is shown only while this square sits in the bottom row.
    pub file_shown: bool,
    pub piece: Option<Piece>,
    pub selected: bool,
    pub last_move: bool,
    pub in_check: bool,
    pub mated: bool,
    /// One of several squares picked out.
    pub marked: bool,
    pub cursor: bool,
    /// The pointer went down here and has not come up yet.
    pub pressed: bool,
    /// The piece of this square is being carried, so its own image is faint.
    pub faded: bool,
}

/// Where a cell was laid out, in pixels.
#[derive(Debug, Clone, Copy, PartialEq, Eq, Structural)]
pub struct Spot {
    pub x: i32,
    pub y: i32,
    pub width: i32,
    pub height: i32,
}

/// The promotion picker, drawn as a column on the board itself.
pub struct Picker {
    /// The offered pieces in the order they are drawn, from the top.
    pub roles: Vec<Role>,
    pub color: Color,
    pub x: i32,
    pub top: i32,
    /// The edge length of one choice.
    pub size: i32,
}

/// What a [`Picker`] holds.
#[verifier::ext_equal]
pub struct PickerModel {
    pub roles: Seq<Role>,
    pub color: Color,
    pub x: int,
    pub top: int,
    pub size: int,
}

impl View for Picker {
    type V = PickerModel;

    open spec fn view(&self) -> PickerModel {
        PickerModel {
            roles: self.roles@,
            color: self.color,
            x: self.x as int,
            top: self.top as int,
            size: self.size as int,
        }
    }
}

/// What an optional picker holds.
pub open spec fn opt_picker(picker: Option<Picker>) -> Option<PickerModel> {
    match picker {
        Some(picker) => Some(picker@),
        None => None,
    }
}

/// A key, as far as the board cares.
#[derive(Debug, Clone, Copy, PartialEq, Eq, Structural)]
pub enum Key {
    Left,
    Right,
    Up,
    Down,
    /// Return, the keypad's Enter, or Space.
    Activate,
    Escape,
    Other,
}

/// What became of a key.
#[derive(Debug, Clone, Copy, PartialEq, Eq, Structural)]
pub enum KeyOutcome {
    /// The key is not the board's, and goes on to whoever wants it.
    Ignored,
    /// The board used the key.
    Handled,
    /// The board used the key, and it clicked a square.
    Clicked(Square),
}

/// The state of the board.
pub struct BoardView {
    /// Whether pieces are drawn from a piece set rather than as glyphs.
    art: bool,
    /// Which side is at the bottom of the board.
    orientation: Color,
    /// What each square shows.
    pieces: [Option<Piece>; 64],
    pressed: [bool; 64],
    faded: [bool; 64],
    selected: Option<Square>,
    /// The move just played, highlighted so the reply is easy to see.
    last_move: Option<(Square, Square)>,
    /// The king to mark when the side to move is in check.
    check: Option<Square>,
    /// The mated king, if the game ended that way.
    mate: Option<Square>,
    /// Squares picked out, where a question is answered by naming some.
    marks: Vec<Square>,
    /// Square the pointer went down on, used to tell a drag from a click.
    press_origin: Option<Square>,
    /// The keyboard cursor, so the board can be played without a mouse.
    cursor: Option<Square>,
    /// Whether a carried piece follows the pointer.
    carried: bool,
    /// Edge length of the carried piece, in pixels.
    carried_size: i32,
    picker: Option<Picker>,
    /// Whether anyone listens for clicked squares.
    hears_moves: bool,
    /// Whether anyone listens for dragged pieces.
    hears_drags: bool,
}

/// What a [`BoardView`] holds.
pub struct BoardModel {
    pub art: bool,
    pub orientation: Color,
    pub pieces: Seq<Option<Piece>>,
    pub pressed: Seq<bool>,
    pub faded: Seq<bool>,
    pub selected: Option<Square>,
    pub last_move: Option<(Square, Square)>,
    pub check: Option<Square>,
    pub mate: Option<Square>,
    pub marks: Seq<Square>,
    pub press_origin: Option<Square>,
    pub cursor: Option<Square>,
    pub carried: bool,
    pub carried_size: i32,
    pub picker: Option<PickerModel>,
    pub hears_moves: bool,
    pub hears_drags: bool,
}

impl View for BoardView {
    type V = BoardModel;

    closed spec fn view(&self) -> BoardModel {
        BoardModel {
            art: self.art,
            orientation: self.orientation,
            pieces: self.pieces@,
            pressed: self.pressed@,
            faded: self.faded@,
            selected: self.selected,
            last_move: self.last_move,
            check: self.check,
            mate: self.mate,
            marks: self.marks@,
            press_origin: self.press_origin,
            cursor: self.cursor,
            carried: self.carried,
            carried_size: self.carried_size,
            picker: opt_picker(self.picker),
            hears_moves: self.hears_moves,
            hears_drags: self.hears_drags,
        }
    }
}

/// An empty board, seen from White's side, with nothing marked on it.
pub open spec fn fresh_board(art: bool) -> BoardModel {
    BoardModel {
        art,
        orientation: Color::White,
        pieces: Seq::new(64, |i: int| None),
        pressed: Seq::new(64, |i: int| false),
        faded: Seq::new(64, |i: int| false),
        selected: None,
        last_move: None,
        check: None,
        mate: None,
        marks: Seq::empty(),
        press_origin: None,
        cursor: None,
        carried: false,
        carried_size: 0,
        picker: None,
        hears_moves: false,
        hears_drags: false,
    }
}

/// How a cell looks.
pub open spec fn cell_of(board: BoardModel, square: Square) -> Cell {
    let i = square_index(square);
    Cell {
        light: light(square),
        column: column_of(square, board.orientation) as i32,
        row: row_of(square, board.orientation) as i32,
        rank_shown: column_of(square, board.orientation) == 0,
        file_shown: row_of(square, board.orientation) == 7,
        piece: board.pieces[i],
        selected: board.selected == Some(square),
        last_move: board.last_move matches Some(mv) && (mv.0 == square || mv.1 == square),
        in_check: board.check == Some(square),
        mated: board.mate == Some(square),
        marked: board.marks.contains(square),
        cursor: board.cursor == Some(square),
        pressed: board.pressed[i],
        faded: board.faded[i],
    }
}

/// The carried piece is put down and every square is itself again.
pub open spec fn put_down(board: BoardModel) -> BoardModel {
    BoardModel {
        carried: false,
        pressed: Seq::new(64, |i: int| false),
        faded: Seq::new(64, |i: int| false),
        ..board
    }
}

/// The pointer goes down: the square is marked, and a piece that is drawn there is lifted.
pub open spec fn picked_up(
    board: BoardModel,
    at: Option<Square>,
    drawn: bool,
    size: i32,
) -> BoardModel {
    match at {
        None => BoardModel { press_origin: None, ..board },
        Some(square) => {
            let i = square_index(square);
            let marked = BoardModel {
                press_origin: Some(square),
                pressed: board.pressed.update(i, true),
                ..board
            };
            if board.art && drawn && size > 0 {
                BoardModel {
                    carried: true,
                    carried_size: size,
                    faded: board.faded.update(i, true),
                    ..marked
                }
            } else {
                marked
            }
        },
    }
}

/// What of a gesture reaches anyone.
pub open spec fn delivered(board: BoardModel, what: Interaction) -> Interaction {
    match what {
        Interaction::Click(square) => if board.hears_moves {
            what
        } else {
            Interaction::Nothing
        },
        Interaction::Drag { from, to } => if board.hears_drags {
            what
        } else {
            Interaction::Nothing
        },
        Interaction::Nothing => what,
    }
}

/// Where the keyboard cursor goes: one step, staying put at an edge, or to the middle of the
/// board where it has no place yet.
pub open spec fn next_cursor(board: BoardModel, dx: int, dy: int) -> Square {
    match board.cursor {
        Some(square) => match stepped(square, dx, dy, board.orientation) {
            Some(next) => next,
            None => square,
        },
        None => shown_at(4, 4, board.orientation)->0,
    }
}

/// The screen direction of a key.
pub open spec fn key_step(key: Key) -> Option<(int, int)> {
    match key {
        Key::Left => Some((-1, 0)),
        Key::Right => Some((1, 0)),
        Key::Up => Some((0, -1)),
        Key::Down => Some((0, 1)),
        _ => None,
    }
}

/// The board after a key.
pub open spec fn after_key(board: BoardModel, key: Key) -> BoardModel {
    match key_step(key) {
        Some((dx, dy)) => BoardModel { cursor: Some(next_cursor(board, dx, dy)), ..board },
        None => if key == Key::Escape {
            BoardModel { selected: None, ..board }
        } else {
            board
        },
    }
}

/// What becomes of a key.
pub open spec fn key_outcome(board: BoardModel, key: Key) -> KeyOutcome {
    match key {
        Key::Other => KeyOutcome::Ignored,
        Key::Activate => match board.cursor {
            Some(square) => if board.hears_moves {
                KeyOutcome::Clicked(square)
            } else {
                KeyOutcome::Handled
            },
            None => KeyOutcome::Handled,
        },
        _ => KeyOutcome::Handled,
    }
}

/// The smaller of two lengths.
pub open spec fn lesser(a: int, b: int) -> int {
    if a < b {
        a
    } else {
        b
    }
}

/// Whether the column of choices runs down from the promotion square.
pub open spec fn runs_down(board: BoardModel, to: Square) -> bool {
    row_of(to, board.orientation) == 0
}

/// Where the column of choices begins.
pub open spec fn picker_top(board: BoardModel, to: Square, count: int, spot: Spot) -> int {
    if runs_down(board, to) {
        spot.y as int
    } else {
        spot.y - (count - 1) * lesser(spot.width as int, spot.height as int)
    }
}

/// The picker that a promotion raises. There is none where there is nothing to choose from, or
/// where nothing has been laid out yet.
pub open spec fn picker_for(
    board: BoardModel,
    to: Square,
    white: bool,
    choices: Seq<Role>,
    spot: Spot,
) -> Option<PickerModel> {
    let size = lesser(spot.width as int, spot.height as int);
    if choices.len() == 0 || size <= 0 {
        None
    } else {
        Some(
            PickerModel {
                roles: if runs_down(board, to) {
                    choices
                } else {
                    choices.reverse()
                },
                color: if white {
                    Color::White
                } else {
                    Color::Black
                },
                x: spot.x as int,
                top: picker_top(board, to, choices.len() as int, spot),
                size,
            },
        )
    }
}

/// Whether the picker can be laid out in coordinates of its kind.
pub open spec fn picker_fits(board: BoardModel, to: Square, choices: Seq<Role>, spot: Spot) -> bool {
    let size = lesser(spot.width as int, spot.height as int);
    choices.len() > 0 && size > 0 && !runs_down(board, to) ==> {
        &&& choices.len() <= i32::MAX
        &&& (choices.len() - 1) * size <= i32::MAX
        &&& picker_top(board, to, choices.len() as int, spot) >= i32::MIN
    }
}

/// Whichever way the column runs, it covers the promotion square with its first choice and runs
/// into the board: down from the top row, up from any other.
pub proof fn the_first_choice_touches_the_promotion_square(
    board: BoardModel,
    to: Square,
    white: bool,
    choices: Seq<Role>,
    spot: Spot,
)
    ensures
        picker_for(board, to, white, choices, spot) matches Some(picker) ==> {
            let nearest = if runs_down(board, to) {
                0
            } else {
                choices.len() - 1
            };
            &&& picker.roles.len() == choices.len()
            &&& picker.roles[nearest] == choices[0]
            &&& picker.top + nearest * picker.size == spot.y
        },
{
    let size = lesser(spot.width as int, spot.height as int);
    if choices.len() > 0 && size > 0 && !runs_down(board, to) {
        assert(choices.reverse()[choices.len() - 1] == choices[0]);
    }
}

/// A cell shows what is on its own square: the piece that the board has at that square's place, and
/// each mark exactly where the mark is on that square. It stands where the orientation puts it.
pub proof fn a_cell_shows_its_own_square(board: BoardModel, square: Square)
    ensures
        ({
            let cell = cell_of(board, square);
            let place = 8 * rank_index(square.rank) + file_index(square.file);
            &&& cell.piece == board.pieces[place]
            &&& cell.pressed == board.pressed[place]
            &&& cell.faded == board.faded[place]
            &&& cell.selected <==> board.selected == Some(square)
            &&& cell.in_check <==> board.check == Some(square)
            &&& cell.mated <==> board.mate == Some(square)
            &&& cell.cursor <==> board.cursor == Some(square)
            &&& cell.marked <==> board.marks.contains(square)
            &&& cell.last_move <==> match board.last_move {
                Some((from, to)) => square == from || square == to,
                None => false,
            }
            &&& cell.light <==> (file_index(square.file) + rank_index(square.rank)) % 2 == 1
            &&& board.orientation == Color::White ==> cell.column == file_index(square.file)
                && cell.row == 7 - rank_index(square.rank)
            &&& board.orientation == Color::Black ==> cell.column == 7 - file_index(square.file)
                && cell.row == rank_index(square.rank)
            &&& cell.rank_shown <==> cell.column == 0
            &&& cell.file_shown <==> cell.row == 7
        }),
{
}

/// A press on one square and a release on another is a drag between those two, and a press and a
/// release on one square is a click on it; each reaches whoever listens for it and nobody else.
/// Afterwards nothing is pressed, faded or carried.
pub proof fn a_gesture_reaches_whoever_listens(
    board: BoardModel,
    from: Square,
    to: Square,
    drawn: bool,
    size: i32,
)
    ensures
        ({
            let held = picked_up(board, Some(from), drawn, size);
            let what = delivered(held, interaction(held.press_origin, Some(to)));
            let after = put_down(held);
            &&& held.press_origin == Some(from)
            &&& board.hears_drags && from != to ==> what == (Interaction::Drag { from, to })
            &&& board.hears_moves && from == to ==> what == Interaction::Click(to)
            &&& !board.hears_drags && from != to ==> what == Interaction::Nothing
            &&& !board.hears_moves && from == to ==> what == Interaction::Nothing
            &&& delivered(held, interaction(held.press_origin, None)) == Interaction::Nothing
            &&& held.carried ==> board.carried || board.art && drawn && size > 0
            &&& board.art && drawn && size > 0 ==> held.carried && held.carried_size == size
            &&& held.pieces == board.pieces
            &&& !after.carried
            &&& forall|i: int| 0 <= i < 64 ==> !(#[trigger] after.pressed[i])
            &&& forall|i: int| 0 <= i < 64 ==> !(#[trigger] after.faded[i])
            &&& after.pieces == board.pieces
        }),
        picked_up(board, None, drawn, size).press_origin is None,
{
}

/// The pointer going down presses its own square and no other, and lifts only the piece that is
/// drawn there.
pub proof fn only_the_square_pressed_is_pressed(
    board: BoardModel,
    at: Square,
    other: Square,
    drawn: bool,
    size: i32,
)
    requires
        board.pressed.len() == 64,
        board.faded.len() == 64,
    ensures
        ({
            let held = picked_up(board, Some(at), drawn, size);
            &&& held.pressed[square_index(at)]
            &&& other != at ==> held.pressed[square_index(other)] == board.pressed[square_index(
                other,
            )]
            &&& other != at ==> held.faded[square_index(other)] == board.faded[square_index(other)]
            &&& board.art && drawn && size > 0 ==> held.faded[square_index(at)]
            &&& !(board.art && drawn && size > 0) ==> held.faded == board.faded
        }),
{
    crate::chess::square_round_trip(at);
    crate::chess::square_round_trip(other);
    if square_index(other) == square_index(at) {
        crate::chess::square_index_is_injective(at, other);
    }
}

/// An arrow key moves the cursor one cell in the direction that it points to on the screen, whichever
/// way the board faces, and leaves it where it is at the edge; the first one puts it in the middle.
/// Escape drops the selection, the key that activates clicks the cursor's square where anyone listens,
/// and any other key is left alone.
pub proof fn keys_go_where_they_point(board: BoardModel, key: Key)
    ensures
        ({
            let after = after_key(board, key);
            let outcome = key_outcome(board, key);
            let dx: int = if key == Key::Right {
                1
            } else if key == Key::Left {
                -1
            } else {
                0
            };
            let dy: int = if key == Key::Down {
                1
            } else if key == Key::Up {
                -1
            } else {
                0
            };
            let arrow = dx != 0 || dy != 0;
            &&& arrow ==> outcome == KeyOutcome::Handled
            &&& arrow ==> after.cursor is Some
            &&& arrow ==> (board.cursor matches Some(from) ==> {
                let to = after.cursor->0;
                let column = column_of(from, board.orientation) + dx;
                let row = row_of(from, board.orientation) + dy;
                if 0 <= column < 8 && 0 <= row < 8 {
                    column_of(to, board.orientation) == column && row_of(to, board.orientation)
                        == row
                } else {
                    to == from
                }
            })
            &&& arrow && board.cursor is None ==> column_of(after.cursor->0, board.orientation) == 4
                && row_of(after.cursor->0, board.orientation) == 4
            &&& !arrow ==> after.cursor == board.cursor
            &&& key == Key::Escape ==> after.selected is None && outcome == KeyOutcome::Handled
            &&& key != Key::Escape ==> after.selected == board.selected
            &&& key == Key::Other ==> outcome == KeyOutcome::Ignored && after == board
            &&& key == Key::Activate ==> {
                &&& after == board
                &&& board.cursor matches Some(square) ==> outcome == if board.hears_moves {
                    KeyOutcome::Clicked(square)
                } else {
                    KeyOutcome::Handled
                }
                &&& board.cursor is None ==> outcome == KeyOutcome::Handled
            }
            &&& after.pieces == board.pieces
        }),
{
}

/// A new board is bare: no square holds or marks anything, it is seen from White's side, and nobody
/// listens to it yet. The column of choices runs down exactly where the pawn arrives at the edge that
/// is drawn at the top.
pub proof fn a_new_board_is_bare(art: bool, square: int, board: BoardModel, to: Square)
    ensures
        ({
            let board = fresh_board(art);
            &&& board.art == art
            &&& board.orientation == Color::White
            &&& board.pieces.len() == 64 && board.pressed.len() == 64 && board.faded.len() == 64
            &&& 0 <= square < 64 ==> board.pieces[square] is None && !board.pressed[square]
                && !board.faded[square]
            &&& board.selected is None && board.last_move is None
            &&& board.check is None && board.mate is None
            &&& board.marks.len() == 0
            &&& board.press_origin is None && board.cursor is None
            &&& !board.carried && board.picker is None
            &&& !board.hears_moves && !board.hears_drags
        }),
        runs_down(board, to) <==> (board.orientation == Color::White && to.rank == Rank::Eighth
            || board.orientation == Color::Black && to.rank == Rank::First),
{
}

/// The picker offers the pieces that can be chosen and no other, in the colour of the pawn, and is not
/// raised where there is nothing to choose.
pub proof fn the_picker_offers_what_can_be_chosen(
    board: BoardModel,
    to: Square,
    white: bool,
    choices: Seq<Role>,
    spot: Spot,
    role: Role,
)
    ensures
        ({
            let asked = BoardModel { picker: picker_for(board, to, white, choices, spot), ..board };
            &&& choices.len() == 0 ==> asked.picker is None
            &&& asked.picker matches Some(picker) ==> {
                &&& offers(asked, role) <==> choices.contains(role)
                &&& picker.color == Color::White <==> white
                &&& picker.roles.len() == choices.len()
                &&& picker.x == spot.x
            }
            &&& choices.len() > 0 && spot.width > 0 && spot.height > 0 ==> asked.picker is Some
            &&& offers(BoardModel { picker: None, ..board }, role) == false
        }),
{
    let back = choices.reverse();
    if choices.contains(role) {
        let i = choices.index_of(role);
        assert(back[choices.len() - 1 - i] == role);
    }
    if back.contains(role) {
        let i = back.index_of(role);
        assert(choices[choices.len() - 1 - i] == role);
    }
}

impl BoardView {
    /// An empty board, seen from White's side. `art` says whether a piece set is installed.
    pub fn new(art: bool) -> (r: BoardView)
        ensures
            r@ == fresh_board(art),
    {
        let r = BoardView {
            art,
            orientation: Color::White,
            pieces: [None; 64],
            pressed: [false; 64],
            faded: [false; 64],
            selected: None,
            last_move: None,
            check: None,
            mate: None,
            marks: Vec::new(),
            press_origin: None,
            cursor: None,
            carried: false,
            carried_size: 0,
            picker: None,
            hears_moves: false,
            hears_drags: false,
        };
        assert(r@.marks =~= fresh_board(art).marks);
        assert(r@.pieces =~= fresh_board(art).pieces);
        assert(r@.pressed =~= fresh_board(art).pressed);
        assert(r@.faded =~= fresh_board(art).faded);
        r
    }

    /// How a cell looks.
    pub fn cell(&self, square: Square) -> (r: Cell)
        ensures
            r == cell_of(self@, square),
    {
        let i = square.index() as usize;
        let (column, row) = grid_position(square, self.orientation);
        let moved = match self.last_move {
            Some((from, to)) => from == square || to == square,
            None => false,
        };
        Cell {
            light: square_is_light(square),
            column,
            row,
            rank_shown: column == 0,
            file_shown: row == 7,
            piece: self.pieces[i],
            selected: is_at(self.selected, square),
            last_move: moved,
            in_check: is_at(self.check, square),
            mated: is_at(self.mate, square),
            marked: contains_square(&self.marks, square),
            cursor: is_at(self.cursor, square),
            pressed: self.pressed[i],
            faded: self.faded[i],
        }
    }

    /// Offer the pieces a pawn can become, as a column on the board itself.
    ///
    /// The column starts on the promotion square, laid out at `spot`, and runs into the board, so
    /// the piece being chosen sits under the pointer that just dragged the pawn there. Whichever
    /// way it runs, the first choice is the one touching the promotion square.
    pub fn ask_promotion(&mut self, to: Square, white: bool, choices: &Vec<Role>, spot: Spot)
        requires
            picker_fits(old(self)@, to, choices@, spot),
        ensures
            final(self)@ == (BoardModel {
                picker: picker_for(old(self)@, to, white, choices@, spot),
                ..old(self)@
            }),
    {
        self.dismiss_promotion();
        if choices.len() == 0 {
            return;
        }
        let size: i32 = if spot.width < spot.height {
            spot.width
        } else {
            spot.height
        };
        if size <= 0 {
            return;
        }
        let (_, row) = grid_position(to, self.orientation);
        let downward = row == 0;
        let top: i32 = if downward {
            spot.y
        } else {
            assert(0 <= (choices@.len() - 1) * size) by (nonlinear_arith)
                requires
                    choices@.len() >= 1,
                    size > 0,
            ;
            spot.y - (choices.len() as i32 - 1) * size
        };
        let roles = if downward {
            same_roles(choices)
        } else {
            reversed_roles(choices)
        };
        let color = if white {
            Color::White
        } else {
            Color::Black
        };
        self.picker = Some(Picker { roles, color, x: spot.x, top, size });
    }

    /// Whether the picker can be laid out at a spot.
    pub fn can_ask(&self, to: Square, choices: &Vec<Role>, spot: Spot) -> (r: bool)
        ensures
            r == picker_fits(self@, to, choices@, spot),
    {
        let size: i32 = if spot.width < spot.height {
            spot.width
        } else {
            spot.height
        };
        let (_, row) = grid_position(to, self.orientation);
        if choices.len() == 0 || size <= 0 || row == 0 {
            return true;
        }
        if choices.len() > 0x7fff_ffff {
            return false;
        }
        let count: i64 = choices.len() as i64 - 1;
        assert(0 <= count * size <= 0x7fff_ffff * 0x7fff_ffff) by (nonlinear_arith)
            requires
                0 <= count <= 0x7fff_ffff,
                0 < size <= 0x7fff_ffff,
        ;
        let column: i64 = count * size as i64;
        column <= i32::MAX as i64 && spot.y as i64 - column >= i32::MIN as i64
    }

    /// Take the picker down.
    pub fn dismiss_promotion(&mut self)
        ensures
            final(self)@ == (BoardModel { picker: None, ..old(self)@ }),
    {
        self.picker = None;
    }

    /// Whether the picker is on screen.
    pub fn promotion_showing(&self) -> (r: bool)
        ensures
            r == (self@.picker is Some),
    {
        self.picker.is_some()
    }

    /// How many pieces the picker offers.
    pub fn promotion_choice_count(&self) -> (r: usize)
        ensures
            r == match self@.picker {
                Some(picker) => picker.roles.len(),
                None => 0,
            },
    {
        match &self.picker {
            Some(picker) => picker.roles.len(),
            None => 0,
        }
    }

    /// Click an offered piece, exactly as the pointer would. The picker comes down with the
    /// choice; a piece that was not offered leaves it up.
    pub fn click_promotion_choice(&mut self, role: Role) -> (r: Result<Role, String>)
        ensures
            offers(old(self)@, role) ==> r == Ok::<Role, String>(role) && final(self)@ == (BoardModel {
                picker: None,
                ..old(self)@
            }),
            !offers(old(self)@, role) ==> r is Err && r->Err_0@ == role_name(role)
                + " was not offered"@ && final(self)@ == old(self)@,
    {
        let found = match &self.picker {
            Some(picker) => contains_role(&picker.roles, role),
            None => false,
        };
        if found {
            self.dismiss_promotion();
            Ok(role)
        } else {
            let mut message = role.name().to_owned();
            message.append(" was not offered");
            Err(message)
        }
    }

    /// Put `side` at the bottom of the board.
    ///
    /// A solver reads far more slowly from the wrong side, so a puzzle where Black is to move
    /// must be shown from Black's point of view; otherwise the recorded solve time measures
    /// disorientation rather than chess.
    pub fn set_orientation(&mut self, side: Color)
        ensures
            final(self)@ == (BoardModel { orientation: side, ..old(self)@ }),
    {
        self.orientation = side;
    }

    /// From now on, clicked squares are delivered.
    pub fn connect_move(&mut self)
        ensures
            final(self)@ == (BoardModel { hears_moves: true, ..old(self)@ }),
    {
        self.hears_moves = true;
    }

    /// From now on, dragged pieces are delivered.
    pub fn connect_drag(&mut self)
        ensures
            final(self)@ == (BoardModel { hears_drags: true, ..old(self)@ }),
    {
        self.hears_drags = true;
    }

    /// Click a square, exactly as a press and release on it would. What comes back is what
    /// reaches whoever listens.
    pub fn click(&self, square: Square) -> (r: Interaction)
        ensures
            r == delivered(self@, Interaction::Click(square)),
    {
        if self.hears_moves {
            Interaction::Click(square)
        } else {
            Interaction::Nothing
        }
    }

    /// Pick a piece up: mark the square, lift its image, and leave the square looking empty until
    /// the drag finishes. `drawn` says whether the square's image shows anything, and `size` how
    /// large it is.
    pub fn begin_drag(&mut self, at: Option<Square>, drawn: bool, size: i32)
        ensures
            final(self)@ == picked_up(old(self)@, at, drawn, size),
    {
        match at {
            None => {
                self.press_origin = None;
            },
            Some(square) => {
                let i = square.index() as usize;
                self.press_origin = Some(square);
                self.pressed[i] = true;
                if self.art && drawn && size > 0 {
                    self.carried_size = size;
                    self.faded[i] = true;
                    self.carried = true;
                }
            },
        }
    }

    /// Put the dragged piece down and restore the board's own rendering.
    pub fn end_drag(&mut self)
        ensures
            final(self)@ == put_down(old(self)@),
    {
        self.carried = false;
        self.pressed = [false; 64];
        self.faded = [false; 64];
        assert(self@.pressed =~= Seq::new(64, |i: int| false));
        assert(self@.faded =~= Seq::new(64, |i: int| false));
    }

    /// The pointer comes up: the piece is put down, and what the gesture meant goes to whoever
    /// listens.
    pub fn release(&mut self, at: Option<Square>) -> (r: Interaction)
        ensures
            final(self)@ == (BoardModel { press_origin: None, ..put_down(old(self)@) }),
            r == delivered(old(self)@, interaction(old(self)@.press_origin, at)),
    {
        let from = self.press_origin;
        self.press_origin = None;
        self.end_drag();
        match resolve_interaction(from, at) {
            Interaction::Drag { from, to } => {
                if self.hears_drags {
                    Interaction::Drag { from, to }
                } else {
                    Interaction::Nothing
                }
            },
            Interaction::Click(square) => self.click(square),
            Interaction::Nothing => Interaction::Nothing,
        }
    }

    /// A key was pressed while the board had the focus. Arrow keys walk a cursor, Enter or Space
    /// acts on it: the same two steps a click makes, for anyone not using a mouse.
    pub fn press_key(&mut self, key: Key) -> (r: KeyOutcome)
        ensures
            final(self)@ == after_key(old(self)@, key),
            r == key_outcome(old(self)@, key),
    {
        match key {
            Key::Left => {
                self.move_cursor(-1, 0);
                KeyOutcome::Handled
            },
            Key::Right => {
                self.move_cursor(1, 0);
                KeyOutcome::Handled
            },
            Key::Up => {
                self.move_cursor(0, -1);
                KeyOutcome::Handled
            },
            Key::Down => {
                self.move_cursor(0, 1);
                KeyOutcome::Handled
            },
            Key::Activate => match self.cursor {
                Some(square) => match self.click(square) {
                    Interaction::Click(square) => KeyOutcome::Clicked(square),
                    _ => KeyOutcome::Handled,
                },
                None => KeyOutcome::Handled,
            },
            Key::Escape => {
                self.select(None);
                KeyOutcome::Handled
            },
            Key::Other => KeyOutcome::Ignored,
        }
    }

    /// Move the keyboard cursor, starting from the middle if it has none yet.
    pub fn move_cursor(&mut self, dx: i32, dy: i32)
        requires
            dx <= i32::MAX - 7,
            dy <= i32::MAX - 7,
        ensures
            final(self)@ == (BoardModel {
                cursor: Some(next_cursor(old(self)@, dx as int, dy as int)),
                ..old(self)@
            }),
    {
        let next = match self.cursor {
            Some(square) => match step_cursor(square, dx, dy, self.orientation) {
                Some(next) => next,
                None => square,
            },
            // The first key press lands somewhere central rather than a corner.
            None => match square_at(4, 4, self.orientation) {
                Some(square) => square,
                None => Square { file: File::E, rank: Rank::Fourth },
            },
        };
        self.cursor = Some(next);
    }

    /// Draw a position.
    pub fn set_position(&mut self, fen: &str)
        ensures
            final(self)@ == (BoardModel { pieces: placement_of(fen@), ..old(self)@ }),
    {
        let drawn = placement(fen);
        proof {
            reveal(placement_of);
        }
        let mut i: usize = 0;
        while i < 64
            invariant
                i <= 64,
                drawn@ == placement_of(fen@),
                drawn@.len() == 64,
                self@ == (BoardModel { pieces: self@.pieces, ..old(self)@ }),
                forall|j: int| 0 <= j < i ==> self@.pieces[j] == drawn@[j],
            decreases 64 - i,
        {
            self.pieces[i] = drawn[i];
            i += 1;
        }
        proof {
            reveal(placement_of);
        }
        assert(self@.pieces =~= placement_of(fen@));
    }

    /// Empty every square. Used to withhold a puzzle until the solver is ready, so the clock and
    /// the position start together.
    pub fn clear(&mut self)
        ensures
            final(self)@ == (BoardModel { pieces: Seq::new(64, |i: int| None), ..old(self)@ }),
    {
        self.pieces = [None; 64];
        assert(self@.pieces =~= Seq::new(64, |i: int| None));
    }

    /// The origin of a move in progress.
    pub fn selected(&self) -> (r: Option<Square>)
        ensures
            r == self@.selected,
    {
        self.selected
    }

    /// Mark a square as the origin of a move in progress.
    pub fn select(&mut self, square: Option<Square>)
        ensures
            final(self)@ == (BoardModel { selected: square, ..old(self)@ }),
    {
        self.selected = square;
    }

    /// The move that is highlighted.
    pub fn last_move(&self) -> (r: Option<(Square, Square)>)
        ensures
            r == self@.last_move,
    {
        self.last_move
    }

    /// Highlight the move just played.
    pub fn set_last_move(&mut self, mv: Option<(Square, Square)>)
        ensures
            final(self)@ == (BoardModel { last_move: mv, ..old(self)@ }),
    {
        self.last_move = mv;
    }

    /// Mark a king as mated: deliberately louder than check, because the game being over is the
    /// single most important thing the board can say.
    pub fn set_mate(&mut self, square: Option<Square>)
        ensures
            final(self)@ == (BoardModel { mate: square, ..old(self)@ }),
    {
        self.mate = square;
    }

    /// Draw an arrangement of pieces, from a1 to h8, that need not be a position of a game.
    pub fn set_board(&mut self, pieces: &Vec<Option<Piece>>)
        requires
            pieces@.len() == 64,
        ensures
            final(self)@ == (BoardModel { pieces: pieces@, ..old(self)@ }),
    {
        let mut i: usize = 0;
        while i < 64
            invariant
                i <= 64,
                pieces@.len() == 64,
                self@ == (BoardModel { pieces: self@.pieces, ..old(self)@ }),
                forall|j: int| 0 <= j < i ==> self@.pieces[j] == pieces@[j],
            decreases 64 - i,
        {
            self.pieces[i] = pieces[i];
            i += 1;
        }
        assert(self@.pieces =~= pieces@);
    }

    /// Pick some squares out, and no others.
    pub fn set_marks(&mut self, squares: &Vec<Square>)
        ensures
            final(self)@ == (BoardModel { marks: squares@, ..old(self)@ }),
    {
        self.marks = same_squares(squares);
    }

    /// Which side is at the bottom of the board.
    pub fn orientation(&self) -> (r: Color)
        ensures
            r == self@.orientation,
    {
        self.orientation
    }

    /// The promotion picker, where it is up.
    pub fn picker(&self) -> (r: Option<&Picker>)
        ensures
            r is Some <==> self@.picker is Some,
            r matches Some(picker) ==> picker@ == self@.picker->0,
    {
        match &self.picker {
            Some(picker) => Some(picker),
            None => None,
        }
    }

    /// The edge length of the piece that follows the pointer, where one does.
    pub fn carried(&self) -> (r: Option<i32>)
        ensures
            r == if self@.carried {
                Some(self@.carried_size)
            } else {
                None
            },
    {
        if self.carried {
            Some(self.carried_size)
        } else {
            None
        }
    }

    /// Mark a king in check.
    pub fn set_check(&mut self, square: Option<Square>)
        ensures
            final(self)@ == (BoardModel { check: square, ..old(self)@ }),
    {
        self.check = square;
    }
}

/// Whether the picker offers a piece.
pub open spec fn offers(board: BoardModel, role: Role) -> bool {
    board.picker matches Some(picker) && picker.roles.contains(role)
}

/// Whether a mark is on a square.
fn is_at(mark: Option<Square>, square: Square) -> (r: bool)
    ensures
        r == (mark == Some(square)),
{
    match mark {
        Some(marked) => marked == square,
        None => false,
    }
}

/// Whether a list holds a square.
pub fn contains_square(squares: &Vec<Square>, square: Square) -> (r: bool)
    ensures
        r == squares@.contains(square),
{
    let mut i: usize = 0;
    while i < squares.len()
        invariant
            i <= squares.len(),
            forall|j: int| 0 <= j < i ==> squares@[j] != square,
        decreases squares.len() - i,
    {
        if squares[i] == square {
            assert(squares@[i as int] == square);
            return true;
        }
        i += 1;
    }
    false
}

/// The same list again.
pub fn same_squares(squares: &Vec<Square>) -> (r: Vec<Square>)
    ensures
        r@ == squares@,
{
    let mut out: Vec<Square> = Vec::new();
    let mut i: usize = 0;
    while i < squares.len()
        invariant
            i <= squares.len(),
            out@ == squares@.take(i as int),
        decreases squares.len() - i,
    {
        out.push(squares[i]);
        i += 1;
        assert(out@ =~= squares@.take(i as int));
    }
    assert(squares@.take(i as int) =~= squares@);
    out
}

/// Whether a list holds a kind of piece.
pub fn contains_role(roles: &Vec<Role>, role: Role) -> (r: bool)
    ensures
        r == roles@.contains(role),
{
    let mut i: usize = 0;
    while i < roles.len()
        invariant
            i <= roles.len(),
            forall|j: int| 0 <= j < i ==> roles@[j] != role,
        decreases roles.len() - i,
    {
        if roles[i] == role {
            assert(roles@[i as int] == role);
            return true;
        }
        i += 1;
    }
    false
}

/// The same list again.
pub fn same_roles(roles: &Vec<Role>) -> (r: Vec<Role>)
    ensures
        r@ == roles@,
{
    let mut out: Vec<Role> = Vec::new();
    let mut i: usize = 0;
    while i < roles.len()
        invariant
            i <= roles.len(),
            out@ == roles@.take(i as int),
        decreases roles.len() - i,
    {
        out.push(roles[i]);
        i += 1;
        assert(out@ =~= roles@.take(i as int));
    }
    assert(roles@.take(i as int) =~= roles@);
    out
}

/// A list from its end to its beginning.
fn reversed_roles(roles: &Vec<Role>) -> (r: Vec<Role>)
    ensures
        r@ == roles@.reverse(),
{
    let mut out: Vec<Role> = Vec::new();
    let mut i: usize = 0;
    while i < roles.len()
        invariant
            i <= roles.len(),
            out@.len() == i,
            forall|j: int| 0 <= j < i ==> out@[j] == roles@[roles@.len() - 1 - j],
        decreases roles.len() - i,
    {
        out.push(roles[roles.len() - 1 - i]);
        i += 1;
    }
    assert(out@ =~= roles@.reverse());
    out
}

} // verus!
