use omachess::board::{
    contains_role, contains_square, glyph, grid_position, resolve_interaction, same_roles,
    same_squares, square_at, square_is_light, step_cursor, BoardView, Interaction, Key, KeyOutcome,
    Spot,
};
use omachess::chess::{file_letter, rank_digit, Color, File, Piece, Rank, Role, Square};

fn sq(name: &str) -> Square {
    let bytes = name.as_bytes();
    Square::from_coords(
        File::new(u32::from(bytes[0] - b'a')),
        Rank::new(u32::from(bytes[1] - b'1')),
    )
}

fn spot() -> Spot {
    Spot { x: 0, y: 0, width: 60, height: 60 }
}

const START: &str = "rnbqkbnr/pppppppp/8/8/8/8/PPPPPPPP/RNBQKBNR w KQkq - 0 1";

#[test]
fn the_cursor_moves_the_way_the_board_is_facing() {
    // With White at the bottom, "up" goes toward rank 8.
    assert_eq!(step_cursor(sq("e4"), 0, -1, Color::White), Some(sq("e5")));
    // Flipped, the same key still moves up the screen, which is rank 3.
    assert_eq!(step_cursor(sq("e4"), 0, -1, Color::Black), Some(sq("e3")));
}

#[test]
fn the_cursor_moves_right_on_screen_in_both_orientations() {
    assert_eq!(step_cursor(sq("d4"), 1, 0, Color::White), Some(sq("e4")));
    assert_eq!(step_cursor(sq("d4"), 1, 0, Color::Black), Some(sq("c4")));
}

#[test]
fn the_cursor_stops_at_the_edge_rather_than_wrapping() {
    assert_eq!(step_cursor(sq("a1"), -1, 0, Color::White), None);
    assert_eq!(step_cursor(sq("h8"), 0, -1, Color::White), None);
    assert_eq!(step_cursor(sq("a1"), 1, 0, Color::Black), None);
}

#[test]
fn square_at_is_the_exact_inverse_of_grid_position() {
    for orientation in [Color::White, Color::Black] {
        for index in 0..64u32 {
            let square = Square::new(index);
            let (column, row) = grid_position(square, orientation);
            assert_eq!(square_at(column, row, orientation), Some(square));
        }
    }
}

#[test]
fn releasing_on_a_different_square_is_a_drag() {
    assert_eq!(
        resolve_interaction(Some(sq("e1")), Some(sq("g1"))),
        Interaction::Drag { from: sq("e1"), to: sq("g1") },
        "dragging the king two squares is how castling is played"
    );
}

#[test]
fn releasing_where_you_pressed_is_a_click() {
    assert_eq!(
        resolve_interaction(Some(sq("e2")), Some(sq("e2"))),
        Interaction::Click(sq("e2"))
    );
}

#[test]
fn a_press_that_began_off_the_board_still_selects_where_it_ended() {
    assert_eq!(resolve_interaction(None, Some(sq("d4"))), Interaction::Click(sq("d4")));
}

#[test]
fn releasing_off_the_board_does_nothing() {
    assert_eq!(resolve_interaction(Some(sq("e2")), None), Interaction::Nothing);
    assert_eq!(resolve_interaction(None, None), Interaction::Nothing);
}

#[test]
fn a1_is_dark_and_h1_is_light() {
    // The near-right corner is light on every real board.
    assert!(!square_is_light(sq("a1")));
    assert!(square_is_light(sq("h1")));
    assert!(square_is_light(sq("a8")));
    assert!(!square_is_light(sq("h8")));
}

#[test]
fn white_orientation_puts_a1_bottom_left() {
    assert_eq!(grid_position(sq("a1"), Color::White), (0, 7));
    assert_eq!(grid_position(sq("h8"), Color::White), (7, 0));
}

#[test]
fn flipping_mirrors_the_board_in_both_axes() {
    assert_eq!(grid_position(sq("a1"), Color::Black), (7, 0));
    assert_eq!(grid_position(sq("h8"), Color::Black), (0, 7));
}

/// Flipping moves squares but must never disturb the checker pattern.
#[test]
fn the_checker_pattern_survives_flipping() {
    for orientation in [Color::White, Color::Black] {
        let mut cells = std::collections::HashMap::new();
        for index in 0..64u32 {
            let square = Square::new(index);
            cells.insert(grid_position(square, orientation), square_is_light(square));
        }
        assert_eq!(cells.len(), 64, "{orientation:?}: squares collided");

        for row in 0..8 {
            for col in 0..7 {
                assert_ne!(
                    cells[&(col, row)],
                    cells[&(col + 1, row)],
                    "{orientation:?}: ({col},{row}) and ({},{row}) share a colour",
                    col + 1
                );
            }
        }
        assert!(cells[&(7, 7)], "{orientation:?}: near-right corner must be light");
    }
}

#[test]
fn coordinates_label_one_full_edge_each() {
    for orientation in [Color::White, Color::Black] {
        let mut ranks = Vec::new();
        let mut files = Vec::new();
        for index in 0..64u32 {
            let square = Square::new(index);
            let (column, row) = grid_position(square, orientation);
            if column == 0 {
                ranks.push(rank_digit(square.rank).chars().next().unwrap());
            }
            if row == 7 {
                files.push(file_letter(square.file).chars().next().unwrap());
            }
        }
        ranks.sort_unstable();
        files.sort_unstable();
        assert_eq!(ranks, vec!['1', '2', '3', '4', '5', '6', '7', '8']);
        assert_eq!(files, vec!['a', 'b', 'c', 'd', 'e', 'f', 'g', 'h']);
    }
}

/// The cells themselves show the labels on the left edge and on the bottom edge, and nowhere else.
#[test]
fn labels_stand_on_two_edges() {
    let mut board = BoardView::new(true);
    for side in [Color::White, Color::Black] {
        board.set_orientation(side);
        assert_eq!(board.orientation(), side);
        for index in 0..64u32 {
            let cell = board.cell(Square::new(index));
            assert_eq!(cell.rank_shown, cell.column == 0);
            assert_eq!(cell.file_shown, cell.row == 7);
            assert_eq!((cell.column, cell.row), grid_position(Square::new(index), side));
            assert_eq!(cell.light, square_is_light(Square::new(index)));
        }
    }
}

#[test]
fn off_the_grid_there_is_no_square() {
    for (column, row) in [(-1, 0), (8, 0), (0, -1), (0, 8)] {
        assert_eq!(square_at(column, row, Color::White), None);
        assert_eq!(square_at(column, row, Color::Black), None);
    }
}

#[test]
fn a_position_is_put_on_the_board() {
    let mut board = BoardView::new(true);
    board.set_position(START);
    assert_eq!(
        board.cell(sq("e1")).piece,
        Some(Piece { color: Color::White, role: Role::King })
    );
    assert_eq!(
        board.cell(sq("d8")).piece,
        Some(Piece { color: Color::Black, role: Role::Queen })
    );
    assert_eq!(
        board.cell(sq("b1")).piece,
        Some(Piece { color: Color::White, role: Role::Knight })
    );
    assert_eq!(board.cell(sq("e4")).piece, None);
    board.clear();
    for index in 0..64u32 {
        assert_eq!(board.cell(Square::new(index)).piece, None);
    }
}

#[test]
fn marks_show_where_they_were_put() {
    let mut board = BoardView::new(true);
    board.set_position(START);
    board.select(Some(sq("e2")));
    board.set_last_move(Some((sq("e7"), sq("e5"))));
    board.set_check(Some(sq("e1")));
    board.set_mate(Some(sq("e8")));
    board.set_marks(&vec![sq("a1"), sq("h8")]);
    assert_eq!(board.selected(), Some(sq("e2")));
    assert_eq!(board.last_move(), Some((sq("e7"), sq("e5"))));
    for index in 0..64u32 {
        let square = Square::new(index);
        let cell = board.cell(square);
        assert_eq!(cell.selected, square == sq("e2"));
        assert_eq!(cell.last_move, square == sq("e7") || square == sq("e5"));
        assert_eq!(cell.in_check, square == sq("e1"));
        assert_eq!(cell.mated, square == sq("e8"));
        assert_eq!(cell.marked, square == sq("a1") || square == sq("h8"));
    }
    board.set_mate(None);
    board.set_marks(&Vec::new());
    assert!(!board.cell(sq("e8")).mated);
    assert!(!board.cell(sq("a1")).marked);
}

#[test]
fn nobody_hears_a_board_that_is_not_listened_to() {
    let mut board = BoardView::new(true);
    assert_eq!(board.click(sq("e2")), Interaction::Nothing);
    board.connect_move();
    assert_eq!(board.click(sq("e2")), Interaction::Click(sq("e2")));
}

#[test]
fn a_drag_lifts_a_piece_and_lets_it_down() {
    let mut board = BoardView::new(true);
    board.connect_move();
    board.connect_drag();
    board.set_position(START);
    board.begin_drag(Some(sq("g1")), true, 64);
    assert!(board.carried().is_some());
    assert!(board.cell(sq("g1")).faded);
    assert_eq!(
        board.release(Some(sq("f3"))),
        Interaction::Drag { from: sq("g1"), to: sq("f3") }
    );
    assert!(board.carried().is_none());
    assert!(!board.cell(sq("g1")).faded);
}

#[test]
fn the_keyboard_cursor_walks_the_board() {
    let mut board = BoardView::new(true);
    board.connect_move();
    assert_eq!(board.press_key(Key::Right), KeyOutcome::Handled);
    let start = (0..64u32).map(Square::new).find(|s| board.cell(*s).cursor);
    assert!(start.is_some(), "an arrow key produced no cursor");
    assert_eq!(board.press_key(Key::Right), KeyOutcome::Handled);
    let moved = (0..64u32).map(Square::new).find(|s| board.cell(*s).cursor);
    assert_ne!(start, moved, "the cursor stayed where it was when told to go right");
    assert_eq!(board.press_key(Key::Activate), KeyOutcome::Clicked(moved.unwrap()));
    assert_eq!(board.press_key(Key::Other), KeyOutcome::Ignored);
}

#[test]
fn the_promotion_picker_appears_and_can_be_clicked() {
    let mut board = BoardView::new(true);
    let choices = vec![Role::Queen, Role::Rook, Role::Bishop, Role::Knight];
    board.ask_promotion(sq("a8"), true, &choices, spot());
    assert!(board.promotion_showing(), "the promotion picker never became visible");
    assert_eq!(board.promotion_choice_count(), 4);
    assert_eq!(board.click_promotion_choice(Role::Knight), Ok(Role::Knight));
    assert!(!board.promotion_showing(), "the promotion picker stayed up after a choice");
    assert!(board.click_promotion_choice(Role::Knight).is_err());
}

#[test]
fn a_picker_is_asked_for_only_where_it_can_be_placed() {
    let board = BoardView::new(true);
    let choices = vec![Role::Queen, Role::Rook, Role::Bishop, Role::Knight];
    assert!(board.can_ask(sq("a8"), &choices, spot()));
    assert!(board.can_ask(sq("a1"), &choices, spot()));
    let huge = Spot { x: 0, y: i32::MIN, width: i32::MAX, height: i32::MAX };
    assert!(board.can_ask(sq("a8"), &choices, huge), "downwards there is always room");
    assert!(!board.can_ask(sq("a1"), &choices, huge), "upwards it would leave every screen");
    assert!(board.can_ask(sq("a1"), &Vec::new(), huge), "nothing is drawn for no choice");
}

#[test]
fn a_piece_that_is_not_offered_cannot_be_chosen() {
    let mut board = BoardView::new(true);
    board.ask_promotion(sq("a8"), true, &vec![Role::Queen, Role::Rook], spot());
    assert!(board.click_promotion_choice(Role::Knight).is_err());
    board.dismiss_promotion();
    assert!(!board.promotion_showing());
}

#[test]
fn the_board_can_be_turned_round() {
    let mut board = BoardView::new(true);
    let white = board.cell(sq("a1"));
    board.set_orientation(Color::Black);
    let black = board.cell(sq("a1"));
    assert_eq!((white.column, white.row), (0, 7));
    assert_eq!((black.column, black.row), (7, 0));
}

#[test]
fn glyphs_stand_in_for_missing_art() {
    let mut seen: Vec<char> =
        [Role::Pawn, Role::Knight, Role::Bishop, Role::Rook, Role::Queen, Role::King]
            .iter()
            .map(|role| glyph(*role))
            .collect();
    seen.sort_unstable();
    seen.dedup();
    assert_eq!(seen.len(), 6);
}

#[test]
fn lists_of_squares_and_roles_are_searched() {
    let squares = vec![sq("a1"), sq("c3")];
    assert!(contains_square(&squares, sq("c3")));
    assert!(!contains_square(&squares, sq("c4")));
    assert_eq!(same_squares(&squares), squares);
    let roles = vec![Role::Queen, Role::Knight];
    assert!(contains_role(&roles, Role::Knight));
    assert!(!contains_role(&roles, Role::Rook));
    assert_eq!(same_roles(&roles), roles);
}
