//! Piece sets: which drawing stands for which piece.
//!
//! A piece set is a directory of drawings named by colour and piece (`wK.svg`, `bN.svg`, and so
//! on). How a drawing becomes an image is the front end's; `T` is that image here.

use crate::chess::{Color, Piece, Role};
use vstd::prelude::*;
use vstd::string::*;

verus! {

/// A kind of piece's place in a set.
pub open spec fn role_place(role: Role) -> int {
    match role {
        Role::King => 0,
        Role::Queen => 1,
        Role::Rook => 2,
        Role::Bishop => 3,
        Role::Knight => 4,
        Role::Pawn => 5,
    }
}

/// A piece's place in a set: the white pieces first, from the king down.
pub open spec fn place_of(color: Color, role: Role) -> int {
    match color {
        Color::White => role_place(role),
        Color::Black => 6 + role_place(role),
    }
}

/// The name of a piece's drawing, without its ending.
pub open spec fn stem(color: Color, role: Role) -> Seq<char> {
    let side = match color {
        Color::White => 'w',
        Color::Black => 'b',
    };
    let kind = match role {
        Role::King => 'K',
        Role::Queen => 'Q',
        Role::Rook => 'R',
        Role::Bishop => 'B',
        Role::Knight => 'N',
        Role::Pawn => 'P',
    };
    seq![side, kind]
}

/// A drawing that a set must hold.
pub struct Drawing {
    pub piece: Piece,
    /// The name of its file.
    pub file: String,
    /// Whether it is recoloured as dark wood. The light side already ships in a cream that reads
    /// as wood.
    pub woodify: bool,
}

/// The piece at a place of a set.
pub open spec fn piece_at(place: int) -> Piece {
    let role = if place % 6 == 0 {
        Role::King
    } else if place % 6 == 1 {
        Role::Queen
    } else if place % 6 == 2 {
        Role::Rook
    } else if place % 6 == 3 {
        Role::Bishop
    } else if place % 6 == 4 {
        Role::Knight
    } else {
        Role::Pawn
    };
    Piece {
        color: if place < 6 {
            Color::White
        } else {
            Color::Black
        },
        role,
    }
}

/// Every piece has a place of its own, and every place of a set has its piece.
pub proof fn every_piece_has_a_place(color: Color, role: Role, place: int)
    requires
        0 <= place < 12,
    ensures
        0 <= place_of(color, role) < 12,
        piece_at(place_of(color, role)) == (Piece { color, role }),
        place_of(piece_at(place).color, piece_at(place).role) == place,
{
}

/// No two pieces share a drawing.
pub proof fn drawings_differ(a: Piece, b: Piece)
    ensures
        stem(a.color, a.role) == stem(b.color, b.role) ==> a == b,
{
    let x = stem(a.color, a.role);
    let y = stem(b.color, b.role);
    assert(x[0] == y[0] && x[1] == y[1] || x != y);
}

/// A drawing is named by the side and the kind of its own piece.
pub proof fn a_drawing_is_named_by_its_piece(color: Color, role: Role)
    ensures
        stem(color, role).len() == 2,
        stem(color, role)[0] == 'w' <==> color == Color::White,
        stem(color, role)[0] == 'b' <==> color == Color::Black,
        stem(color, role)[1] == 'K' <==> role == Role::King,
        stem(color, role)[1] == 'Q' <==> role == Role::Queen,
        stem(color, role)[1] == 'R' <==> role == Role::Rook,
        stem(color, role)[1] == 'B' <==> role == Role::Bishop,
        stem(color, role)[1] == 'N' <==> role == Role::Knight,
        stem(color, role)[1] == 'P' <==> role == Role::Pawn,
{
}

/// The piece at a place of a set.
fn nth_piece(place: usize) -> (r: Piece)
    requires
        place < 12,
    ensures
        r == piece_at(place as int),
{
    let role = match place % 6 {
        0 => Role::King,
        1 => Role::Queen,
        2 => Role::Rook,
        3 => Role::Bishop,
        4 => Role::Knight,
        _ => Role::Pawn,
    };
    let color = if place < 6 {
        Color::White
    } else {
        Color::Black
    };
    Piece { color, role }
}

/// The name of a piece's file.
fn file_name(piece: Piece) -> (r: String)
    ensures
        r@ == stem(piece.color, piece.role) + ".svg"@,
{
    proof {
        reveal_strlit("w");
        reveal_strlit("b");
        reveal_strlit("K");
        reveal_strlit("Q");
        reveal_strlit("R");
        reveal_strlit("B");
        reveal_strlit("N");
        reveal_strlit("P");
    }
    let side = match piece.color {
        Color::White => "w",
        Color::Black => "b",
    };
    let kind = match piece.role {
        Role::King => "K",
        Role::Queen => "Q",
        Role::Rook => "R",
        Role::Bishop => "B",
        Role::Knight => "N",
        Role::Pawn => "P",
    };
    assert(side@ + kind@ =~= stem(piece.color, piece.role));
    crate::text::glue3(side, kind, ".svg")
}

/// The drawings that a set must hold, in the order that [`PieceSet::load`] takes them.
pub fn drawings() -> (r: Vec<Drawing>)
    ensures
        r@.len() == 12,
        forall|i: int|
            0 <= i < 12 ==> {
                let piece = piece_at(i);
                &&& (#[trigger] r@[i]).piece == piece
                &&& r@[i].file@ == stem(piece.color, piece.role) + ".svg"@
                &&& r@[i].woodify == (piece.color == Color::Black)
            },
{
    let mut list: Vec<Drawing> = Vec::new();
    let mut i: usize = 0;
    while i < 12
        invariant
            i <= 12,
            list@.len() == i,
            forall|j: int|
                0 <= j < i ==> {
                    let piece = piece_at(j);
                    &&& (#[trigger] list@[j]).piece == piece
                    &&& list@[j].file@ == stem(piece.color, piece.role) + ".svg"@
                    &&& list@[j].woodify == (piece.color == Color::Black)
                },
        decreases 12 - i,
    {
        let piece = nth_piece(i);
        list.push(
            Drawing { piece, file: file_name(piece), woodify: piece.color == Color::Black },
        );
        i += 1;
    }
    list
}

/// A complete set.
pub struct PieceSet<T> {
    name: String,
    images: Vec<T>,
}

impl<T> PieceSet<T> {
    /// The set's name.
    pub closed spec fn called(&self) -> Seq<char> {
        self.name@
    }

    /// The images, by the places of their pieces.
    pub closed spec fn images(&self) -> Seq<T> {
        self.images@
    }

    /// The set's name.
    pub fn name(&self) -> (r: &str)
        ensures
            r@ == self.called(),
    {
        self.name.as_str()
    }

    /// The image of a piece.
    pub fn texture(&self, color: Color, role: Role) -> (r: Option<&T>)
        ensures
            r is Some <==> place_of(color, role) < self.images().len(),
            r matches Some(image) ==> *image == self.images()[place_of(color, role)],
    {
        let within: usize = match role {
            Role::King => 0,
            Role::Queen => 1,
            Role::Rook => 2,
            Role::Bishop => 3,
            Role::Knight => 4,
            Role::Pawn => 5,
        };
        let place: usize = match color {
            Color::White => within,
            Color::Black => 6 + within,
        };
        if place < self.images.len() {
            Some(&self.images[place])
        } else {
            None
        }
    }

    /// A set of its drawings' images, in the order of [`drawings`], and the name of its directory.
    /// A set missing any piece is rejected outright: a board with holes in it is worse than the
    /// glyph fallback.
    pub fn load(name: Option<String>, drawn: Vec<Option<T>>) -> (r: Option<PieceSet<T>>)
        requires
            drawn@.len() == 12,
        ensures
            r is Some <==> name is Some && (forall|i: int|
                0 <= i < 12 ==> #[trigger] drawn@[i] is Some),
            r matches Some(set) ==> {
                &&& set.called() == name->0@
                &&& set.images().len() == 12
                &&& forall|i: int| 0 <= i < 12 ==> Some(#[trigger] set.images()[i]) == drawn@[i]
            },
    {
        let ghost all = drawn@;
        let mut rest = drawn;
        let mut turned: Vec<T> = Vec::new();
        while rest.len() > 0
            invariant
                all == drawn@,
                all.len() == 12,
                rest@ == all.take(rest@.len() as int),
                rest@.len() + turned@.len() == 12,
                forall|i: int|
                    0 <= i < turned@.len() ==> Some(#[trigger] turned@[i]) == all[11 - i],
            decreases rest@.len(),
        {
            let ghost at = rest@.len() - 1;
            match rest.pop() {
                Some(Some(image)) => {
                    assert(all[at] == Some(image));
                    turned.push(image);
                },
                _ => {
                    assert(all[at] is None);
                    return None;
                },
            }
            assert(rest@ =~= all.take(rest@.len() as int));
        }
        let mut images: Vec<T> = Vec::new();
        while turned.len() > 0
            invariant
                all.len() == 12,
                turned@.len() + images@.len() == 12,
                forall|i: int|
                    0 <= i < turned@.len() ==> Some(#[trigger] turned@[i]) == all[11 - i],
                forall|i: int| 0 <= i < images@.len() ==> Some(#[trigger] images@[i]) == all[i],
            decreases turned@.len(),
        {
            match turned.pop() {
                Some(image) => images.push(image),
                None => {},
            }
        }
        assert forall|i: int| 0 <= i < 12 implies #[trigger] all[i] is Some by {
            assert(Some(images@[i]) == all[i]);
        }
        match name {
            Some(name) => Some(PieceSet { name, images }),
            None => None,
        }
    }
}

/// Whether one text comes before another, or is the same: by the first character in which they
/// differ, and the shorter one first where they differ in none.
pub open spec fn comes_first(a: Seq<char>, b: Seq<char>) -> bool
    decreases a.len(),
{
    if a.len() == 0 {
        true
    } else if b.len() == 0 {
        false
    } else if a[0] == b[0] {
        comes_first(a.skip(1), b.skip(1))
    } else {
        a[0] < b[0]
    }
}

/// A text put into its place, from the end: behind every text that comes first.
pub open spec fn filed(list: Seq<Seq<char>>, text: Seq<char>) -> Seq<Seq<char>>
    decreases list.len(),
{
    if list.len() == 0 || comes_first(list.last(), text) {
        list.push(text)
    } else {
        filed(list.drop_last(), text).push(list.last())
    }
}

/// Texts in their order.
pub open spec fn in_order(list: Seq<Seq<char>>) -> Seq<Seq<char>>
    decreases list.len(),
{
    if list.len() == 0 {
        list
    } else {
        filed(in_order(list.drop_last()), list.last())
    }
}

/// The directories in which a set is looked for, in the order in which they are tried: the one
/// that was asked for and no other, or else all that are there.
pub open spec fn tried(named: Option<Seq<char>>, installed: Seq<Seq<char>>) -> Seq<Seq<char>> {
    match named {
        Some(name) => seq![name],
        None => in_order(installed),
    }
}

/// Of two texts one comes first.
proof fn one_comes_first(a: Seq<char>, b: Seq<char>)
    ensures
        comes_first(a, b) || comes_first(b, a),
    decreases a.len(),
{
    if a.len() > 0 && b.len() > 0 && a[0] == b[0] {
        one_comes_first(a.skip(1), b.skip(1));
    }
}

/// What comes before a text comes before all that the text comes before.
proof fn order_carries_over(a: Seq<char>, b: Seq<char>, c: Seq<char>)
    requires
        comes_first(a, b),
        comes_first(b, c),
    ensures
        comes_first(a, c),
    decreases a.len(),
{
    if a.len() > 0 && b.len() > 0 && c.len() > 0 && a[0] == b[0] && b[0] == c[0] {
        order_carries_over(a.skip(1), b.skip(1), c.skip(1));
    }
}

/// Texts are ordered by the first character in which they differ, and where one is the beginning of
/// the other it comes first.
pub proof fn names_go_by_their_first_difference(a: Seq<char>, b: Seq<char>, place: int)
    requires
        0 <= place <= a.len(),
        place <= b.len(),
        forall|i: int| 0 <= i < place ==> #[trigger] a[i] == b[i],
    ensures
        place == a.len() ==> comes_first(a, b),
        place == a.len() && place < b.len() ==> !comes_first(b, a),
        place < a.len() && place < b.len() && a[place] < b[place] ==> comes_first(a, b)
            && !comes_first(b, a),
    decreases place,
{
    if place > 0 {
        assert(a[0] == b[0]);
        assert forall|i: int| 0 <= i < place - 1 implies #[trigger] a.skip(1)[i] == b.skip(1)[i] by {
            assert(a[i + 1] == b[i + 1]);
        }
        names_go_by_their_first_difference(a.skip(1), b.skip(1), place - 1);
    }
}

/// Whether each text comes before those behind it.
pub open spec fn is_in_order(list: Seq<Seq<char>>) -> bool {
    forall|i: int, j: int|
        0 <= i < j < list.len() ==> comes_first(#[trigger] list[i], #[trigger] list[j])
}

/// Putting a text into its place keeps the order and adds that text.
proof fn filing(list: Seq<Seq<char>>, text: Seq<char>)
    requires
        is_in_order(list),
    ensures
        is_in_order(filed(list, text)),
        filed(list, text).to_multiset() =~= list.to_multiset().insert(text),
        forall|i: int| 0 <= i < filed(list, text).len() ==> list.contains(filed(list, text)[i])
            || filed(list, text)[i] == text,
    decreases list.len(),
{
    broadcast use vstd::seq_lib::group_to_multiset_ensures;

    let whole = filed(list, text);
    if list.len() == 0 || comes_first(list.last(), text) {
        assert forall|i: int, j: int| 0 <= i < j < whole.len() implies comes_first(
            #[trigger] whole[i],
            #[trigger] whole[j],
        ) by {
            if j == list.len() && i < list.len() - 1 {
                assert(comes_first(list[i], list[list.len() - 1]));
                order_carries_over(list[i], list.last(), text);
            }
        }
        assert forall|i: int| 0 <= i < whole.len() implies list.contains(whole[i]) || whole[i]
            == text by {
            if i < list.len() {
                assert(list[i] == whole[i]);
            }
        }
    } else {
        let rest = list.drop_last();
        let inner = filed(rest, text);
        filing(rest, text);
        one_comes_first(list.last(), text);
        assert(rest.push(list.last()) =~= list);
        assert forall|i: int| 0 <= i < inner.len() implies comes_first(
            #[trigger] inner[i],
            list.last(),
        ) by {
            if inner[i] != text {
                let k = choose|k: int| 0 <= k < rest.len() && rest[k] == inner[i];
                assert(comes_first(list[k], list[list.len() - 1]));
            }
        }
        assert forall|i: int, j: int| 0 <= i < j < whole.len() implies comes_first(
            #[trigger] whole[i],
            #[trigger] whole[j],
        ) by {
            if j < inner.len() {
                assert(comes_first(inner[i], inner[j]));
            } else {
                assert(comes_first(inner[i], list.last()));
            }
        }
        assert forall|i: int| 0 <= i < whole.len() implies list.contains(whole[i]) || whole[i]
            == text by {
            if i < inner.len() {
                if inner[i] != text {
                    let k = choose|k: int| 0 <= k < rest.len() && rest[k] == inner[i];
                    assert(list[k] == whole[i]);
                }
            } else {
                assert(list[list.len() - 1] == whole[i]);
            }
        }
        assert(list.to_multiset().insert(text) =~= rest.to_multiset().insert(list.last()).insert(
            text,
        ));
        assert(whole.to_multiset() =~= inner.to_multiset().insert(list.last()));
    }
}

/// Installed sets are tried in the order of their names, each as often as it is there and no
/// other; a set that was asked for is the only one tried.
pub proof fn sets_are_tried_in_order(named: Option<Seq<char>>, installed: Seq<Seq<char>>)
    ensures
        is_in_order(tried(named, installed)),
        named is None ==> tried(named, installed).to_multiset() =~= installed.to_multiset(),
        named matches Some(name) ==> tried(named, installed) == seq![name],
{
    if named is None {
        ordering(installed);
    }
}

/// Texts in their order are in order, and are the same texts.
proof fn ordering(list: Seq<Seq<char>>)
    ensures
        is_in_order(in_order(list)),
        in_order(list).to_multiset() =~= list.to_multiset(),
    decreases list.len(),
{
    broadcast use vstd::seq_lib::group_to_multiset_ensures;

    if list.len() > 0 {
        ordering(list.drop_last());
        filing(in_order(list.drop_last()), list.last());
        assert(list.drop_last().push(list.last()) =~= list);
    }
}

/// Whether one text comes before another, or is the same.
fn is_first(a: &str, b: &str) -> (r: bool)
    ensures
        r == comes_first(a@, b@),
{
    let len = a.unicode_len();
    let other = b.unicode_len();
    let mut i: usize = 0;
    assert(a@.skip(0) =~= a@);
    assert(b@.skip(0) =~= b@);
    while i < len && i < other
        invariant
            i <= len,
            i <= other,
            len == a@.len(),
            other == b@.len(),
            comes_first(a@, b@) == comes_first(a@.skip(i as int), b@.skip(i as int)),
        decreases len - i,
    {
        let x = a.get_char(i);
        let y = b.get_char(i);
        assert(a@.skip(i as int)[0] == x);
        assert(b@.skip(i as int)[0] == y);
        if x != y {
            return x < y;
        }
        assert(a@.skip(i as int).skip(1) =~= a@.skip(i + 1));
        assert(b@.skip(i as int).skip(1) =~= b@.skip(i + 1));
        i += 1;
    }
    i == len
}

/// Put a text into its place.
fn file_text(list: &mut Vec<String>, text: String)
    ensures
        crate::text::texts(final(list)@) == filed(crate::text::texts(old(list)@), text@),
{
    let ghost all = crate::text::texts(list@);
    let ghost new = text@;
    let mut at: usize = list.len();
    assert(all.take(at as int) =~= all);
    assert(filed(all.take(at as int), new) + all.skip(at as int) =~= filed(all, new));
    while at > 0 && !is_first(list[at - 1].as_str(), text.as_str())
        invariant
            at <= list@.len(),
            all == crate::text::texts(list@),
            new == text@,
            filed(all, new) == filed(all.take(at as int), new) + all.skip(at as int),
        decreases at,
    {
        at -= 1;
        let ghost upto = all.take(at + 1);
        assert(upto.drop_last() =~= all.take(at as int));
        assert(upto.last() == all[at as int]);
        assert(filed(upto, new) + all.skip(at + 1) =~= filed(all.take(at as int), new) + all.skip(
            at as int,
        ));
    }
    proof {
        if at > 0 {
            assert(all.take(at as int).last() == all[at - 1]);
        }
    }
    list.insert(at, text);
    assert(crate::text::texts(list@) =~= all.take(at as int).push(new) + all.skip(at as int));
}

/// Whether a set is the one that is taken: it loaded, and none that was tried before it did.
pub open spec fn is_taken(loaded: Seq<bool>, place: int) -> bool {
    &&& 0 <= place < loaded.len()
    &&& loaded[place]
    &&& forall|j: int| 0 <= j < place ==> !#[trigger] loaded[j]
}

/// Which set is taken, of those that were tried so far: the first that loaded.
pub fn first_loaded(loaded: &Vec<bool>) -> (r: Option<usize>)
    ensures
        forall|i: usize| r == Some(i) <==> #[trigger] is_taken(loaded@, i as int),
        r is None <==> forall|j: int| 0 <= j < loaded@.len() ==> !#[trigger] loaded@[j],
{
    let mut i: usize = 0;
    while i < loaded.len()
        invariant
            i <= loaded.len(),
            forall|j: int| 0 <= j < i ==> !#[trigger] loaded@[j],
        decreases loaded.len() - i,
    {
        if loaded[i] {
            assert(is_taken(loaded@, i as int));
            return Some(i);
        }
        i += 1;
    }
    None
}

/// Once a set has loaded, trying more of them would not change which is taken.
pub proof fn the_first_that_loads_is_kept(loaded: Seq<bool>, more: Seq<bool>, place: int)
    requires
        0 <= place < loaded.len(),
    ensures
        is_taken(loaded + more, place) == is_taken(loaded, place),
{
    let all = loaded + more;
    assert(forall|j: int| 0 <= j < place ==> all[j] == loaded[j]);
    if is_taken(all, place) {
        assert forall|j: int| 0 <= j < place implies !#[trigger] loaded[j] by {
            assert(!all[j]);
        }
    }
}

impl<T> PieceSet<T> {
    /// Where a usable set is looked for: in the directory that was asked for, or else in every
    /// directory that is there, in their order. The first that loads is the one.
    pub fn discover(named: Option<String>, installed: &Vec<String>) -> (r: Vec<String>)
        ensures
            crate::text::texts(r@) == tried(
                crate::text::opt_text(named),
                crate::text::texts(installed@),
            ),
    {
        match named {
            Some(name) => crate::text::one_text(name),
            None => {
                let ghost all = crate::text::texts(installed@);
                let mut list = crate::text::no_texts();
                let mut i: usize = 0;
                assert(crate::text::texts(list@) =~= in_order(all.take(0)));
                while i < installed.len()
                    invariant
                        i <= installed.len(),
                        all == crate::text::texts(installed@),
                        crate::text::texts(list@) == in_order(all.take(i as int)),
                    decreases installed.len() - i,
                {
                    file_text(&mut list, installed[i].clone());
                    assert(all.take(i + 1).drop_last() =~= all.take(i as int));
                    i += 1;
                }
                assert(all.take(i as int) =~= all);
                list
            },
        }
    }
}

} // verus!
