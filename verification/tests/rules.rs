use omachess::chess::{square_caps, Color, File, Piece, Rank, Role, Square};
use omachess::rules::{
    after, belongs_to, check_square, holds_piece_of, in_check, mate_square, move_squares, moved,
    piece_at, placement, san, san_plus, to_san, turn, uci_squares, walk_line,
};

const START: &str = "rnbqkbnr/pppppppp/8/8/8/8/PPPPPPPP/RNBQKBNR w KQkq - 0 1";

fn sq(name: &str) -> Square {
    let bytes = name.as_bytes();
    Square::from_coords(
        File::new(u32::from(bytes[0] - b'a')),
        Rank::new(u32::from(bytes[1] - b'1')),
    )
}

fn strings(list: &[&str]) -> Vec<String> {
    list.iter().map(|m| m.to_string()).collect()
}

/// The king in check is highlighted, and it must be the king of the side to move.
#[test]
fn the_highlighted_king_is_the_one_actually_in_check() {
    // Black is in check from the queen on e7; Black is to move.
    assert_eq!(check_square("4k3/4Q3/8/8/8/8/8/4K3 b - - 0 1"), Some(sq("e8")));
    assert_eq!(check_square("4k3/8/8/8/8/8/8/4K3 w - - 0 1"), None);
}

#[test]
fn a_mated_king_is_found() {
    let mated = "1R5k/5ppp/8/8/8/8/5PPP/6K1 b - - 2 2";
    assert_eq!(mate_square(mated), Some(sq("h8")));
    assert!(in_check(mated));
    assert_eq!(mate_square(START), None);
    assert!(!in_check(START));
    // Check is not mate.
    assert_eq!(mate_square("4k3/4Q3/8/8/8/8/8/4K3 b - - 0 1"), None);
}

#[test]
fn moves_are_written_the_way_they_are_read() {
    assert_eq!(san(START, "g1f3"), Some("Nf3".to_owned()));
    assert_eq!(san(START, "g1f4"), None);
    let back_rank = "7k/5ppp/8/8/8/8/5PPP/1R4K1 w - - 1 2";
    assert_eq!(san(back_rank, "b1b8"), Some("Rb8".to_owned()));
    assert_eq!(san_plus(back_rank, "b1b8"), Some("Rb8#".to_owned()));
    assert_eq!(san_plus(back_rank, "b1b4"), Some("Rb4".to_owned()));
    let castling = "r3k2r/8/8/8/8/8/8/R3K2R w KQkq - 0 1";
    assert_eq!(san(castling, "e1g1"), Some("O-O".to_owned()));
    assert_eq!(san(castling, "e1c1"), Some("O-O-O".to_owned()));
}

#[test]
fn a_move_leads_to_the_next_position() {
    let next = after(START, "e2e4").unwrap();
    assert_eq!(piece_at(&next, sq("e4")), Some(Piece { color: Color::White, role: Role::Pawn }));
    assert_eq!(piece_at(&next, sq("e2")), None);
    assert_eq!(turn(START), Some(Color::White));
    assert_eq!(turn(&next), Some(Color::Black));
    assert_eq!(after(START, "e2e5"), None);
    assert_eq!(turn("no position"), None);
}

#[test]
fn captures_are_told_from_other_moves() {
    let position = "4k3/8/8/3p4/4P3/8/8/4K3 w - - 0 1";
    assert!(moved(position, "e4d5").unwrap().capture);
    assert!(!moved(position, "e4e5").unwrap().capture);
    let passing = "4k3/8/8/3pP3/8/8/8/4K3 w - d6 0 2";
    assert!(moved(passing, "e5d6").unwrap().capture, "a pawn taken in passing is taken");
    assert!(moved(position, "e4f5").is_none());
    let step = moved(START, "g1f3").unwrap();
    assert_eq!(move_squares(step), Some((sq("g1"), sq("f3"))));
}

#[test]
fn squares_are_read_out_of_moves() {
    assert_eq!(uci_squares("e2e4"), Some((sq("e2"), sq("e4"))));
    assert_eq!(uci_squares("a7a8n"), Some((sq("a7"), sq("a8"))));
    assert_eq!(uci_squares("e2"), None);
    assert_eq!(uci_squares("z9z9"), None);
    assert_eq!(uci_squares(""), None);
}

#[test]
fn pieces_belong_to_their_sides() {
    assert!(holds_piece_of(START, sq("a2"), Color::White));
    assert!(!holds_piece_of(START, sq("a2"), Color::Black));
    assert!(!holds_piece_of(START, sq("a4"), Color::White));
    assert!(!belongs_to(None, Color::White));
    assert_eq!(placement(START).len(), 64);
    assert_eq!(placement(START).iter().filter(|piece| piece.is_some()).count(), 32);
}

#[test]
fn a_line_is_walked_as_far_as_it_can_be_played() {
    let line = strings(&["e2e4", "e7e5", "g1f3"]);
    let (fen, last) = walk_line(START, &line, 2);
    assert_eq!(turn(&fen), Some(Color::White));
    assert_eq!(last, Some((sq("e7"), sq("e5"))));
    let (fen, last) = walk_line(START, &line, 0);
    assert_eq!(fen, START);
    assert_eq!(last, None);
    assert_eq!(to_san(START, &strings(&["e2e5", "e7e5"])), Vec::<String>::new());
}

#[test]
fn squares_have_names() {
    for index in 0..64u32 {
        let square = Square::new(index);
        assert_eq!(square.index(), index);
        assert_eq!(sq(&square.name()), square);
        assert_eq!(square_caps(square), square.name().to_uppercase());
    }
    assert_eq!(Square::new(0).name(), "a1");
    assert_eq!(Square::new(63).name(), "h8");
    assert_eq!(Color::White.name(), "White");
}

/// A move leaves the square its text names first and goes to the one it names second; where the
/// king castles, it goes to the rook.
#[test]
fn a_move_goes_where_its_text_says() {
    let fen = "r3k2r/8/8/8/8/8/8/R3K2R w KQkq - 0 1";
    let castled = omachess::rules::moved(fen, "e1g1").unwrap();
    assert_eq!(castled.from.map(|s| s.name()), Some("e1".to_owned()));
    assert_eq!(castled.to.name(), "h1");
    let taken = omachess::rules::moved(fen, "a1a8").unwrap();
    assert_eq!(taken.from.map(|s| s.name()), Some("a1".to_owned()));
    assert_eq!(taken.to.name(), "a8");
    assert!(taken.capture);
    assert!(omachess::rules::moved(fen, "Q@d4").is_none(), "nothing is dropped in chess");
}

/// The first moves of a line read as they do in the whole line.
#[test]
fn a_prefix_reads_as_a_prefix() {
    let fen = "rnbqkbnr/pppppppp/8/8/8/8/PPPPPPPP/RNBQKBNR w KQkq - 0 1";
    let line: Vec<String> =
        ["e2e4", "e7e5", "g1f3", "a1a8"].iter().map(|m| m.to_string()).collect();
    let whole = omachess::rules::to_san(fen, &line);
    assert_eq!(whole, ["e4", "e5", "Nf3"]);
    for count in 0..=line.len() {
        let first = omachess::rules::to_san(fen, &line[..count].to_vec());
        assert_eq!(first, whole[..first.len()]);
        assert_eq!(first.len(), count.min(3));
    }
}
