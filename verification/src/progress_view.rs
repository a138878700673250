//! What the repeated puzzles actually show.
//!
//! Everything on this page is paired: each puzzle's latest correct solve against its own first.
//! Nothing here is derived from solving new material, because a new puzzle has nothing to be
//! compared against. The measurements come in as they are to be read, and the page comes out as a
//! list of blocks.

use crate::figures::{caption, section_title, stat_line, tile, Line, Setting, Tile, Trend};
use crate::text::{glue2, glue3, glue4, glue5, number, push_number, push_plural, put_text};
use vstd::prelude::*;
use vstd::string::*;

verus! {

/// How unseen puzzles of one rating band went, later against earlier.
pub struct Transfer {
    /// Where the band begins.
    pub band: u32,
    /// How many puzzles were first met in it.
    pub seen: u64,
    /// How much faster or slower, in percent, without a sign.
    pub percent: String,
    /// Whether it is faster, or as fast.
    pub faster: bool,
    /// The probability of chance alone.
    pub p: String,
    /// Whether chance is ruled out.
    pub significant: bool,
}

/// How repeated puzzles went, as a whole.
pub struct Improvement {
    pub percent: String,
    pub p: String,
    pub puzzles: u64,
}

/// How the games against the engine went, later half against earlier half.
pub struct PlayTrend {
    pub earlier: String,
    pub recent: String,
    /// Whether the later accuracy is no lower.
    pub improving: bool,
    pub earlier_blunders: String,
    pub recent_blunders: String,
    pub games: u64,
    pub p: String,
    pub significant: bool,
}

/// One opening's record.
pub struct OpeningRecord {
    pub name: String,
    /// How many moves of it were known, on average.
    pub book: String,
    pub won: u32,
    pub drawn: u32,
    pub lost: u32,
    /// The score in percent, and in millionths of a point a game.
    pub score: String,
    pub millionths: u32,
}

/// One endgame's record.
pub struct EndgameRecord {
    pub name: String,
    pub objective: String,
    pub achieved: u32,
    pub attempts: u32,
    pub best: Option<u32>,
    pub optimal: Option<u32>,
    pub last_achieved: Option<bool>,
}

/// How often moves went wrong with little time left, and with enough.
pub struct PressureRecord {
    pub low_clock: String,
    pub time_in_hand: String,
    pub games: u64,
}

/// How much evidence each figure needs.
pub struct Needed {
    pub rating_points: usize,
    pub pairs: u64,
    pub theme_attempts: u64,
    pub transfer: u64,
    pub games: u64,
}

/// Everything the page needs, gathered once.
pub struct ProgressData {
    /// How many themes have enough attempts to be worth drawing.
    pub themes: usize,
    pub transfer: Vec<Transfer>,
    pub overall: Option<Improvement>,
    pub solved: u64,
    /// Of each puzzle that was solved twice, whether the latest solve was the faster.
    pub slopes: Vec<bool>,
    /// How many ratings the history holds.
    pub ratings: usize,
    /// The overall accuracy in percent.
    pub accuracy: String,
    /// The latest rating.
    pub rating: String,
    /// The latest rating less the first, with its sign.
    pub rating_change: String,
    pub games: usize,
    pub play: Option<PlayTrend>,
    pub endgames: Vec<EndgameRecord>,
    pub openings: Vec<OpeningRecord>,
    pub pressure: Option<PressureRecord>,
    /// Whether the tabs that are not finished are shown.
    pub all_tabs: bool,
    pub needed: Needed,
}

/// How the leading figure is coloured.
#[derive(Debug, Clone, Copy, PartialEq, Eq, Structural)]
pub enum Claim {
    /// There is no figure.
    Absent,
    /// The figure could be chance.
    Unproven,
    Improving,
    Slowing,
}

/// The style class of the leading figure.
pub open spec fn claim_class(claim: Claim) -> Option<Seq<char>> {
    match claim {
        Claim::Absent => None,
        Claim::Unproven => Some("dim-label"@),
        Claim::Improving => Some("improving"@),
        Claim::Slowing => Some("slowing"@),
    }
}

impl Claim {
    /// The style class of the leading figure.
    pub fn css(self) -> (r: Option<&'static str>)
        ensures
            crate::style::opt_str(r) == claim_class(self),
    {
        match self {
            Claim::Absent => None,
            Claim::Unproven => Some("dim-label"),
            Claim::Improving => Some("improving"),
            Claim::Slowing => Some("slowing"),
        }
    }
}

/// How a record is coloured.
#[derive(Debug, Clone, Copy, PartialEq, Eq, Structural)]
pub enum Mark {
    Error,
    Success,
}

/// The style class of a mark.
pub open spec fn mark_class(mark: Mark) -> Seq<char> {
    match mark {
        Mark::Error => "error"@,
        Mark::Success => "success"@,
    }
}

impl Mark {
    /// The style class of a mark.
    pub fn css(self) -> (r: &'static str)
        ensures
            r@ == mark_class(self),
    {
        match self {
            Mark::Error => "error",
            Mark::Success => "success",
        }
    }
}

/// One part of the page.
pub enum Block {
    Line(Line),
    /// The one figure that the page leads with.
    Hero { text: String, claim: Claim },
    Tiles(Vec<Tile>),
    RatingChart,
    ThemeChart,
    SlopeChart,
    AccuracyChart,
    /// A change in one line.
    Change { text: String, trend: Trend },
    /// What stands below a change.
    Detail(String),
    Opening { name: String, book: String, tally: String, mark: Option<Mark> },
    Endgame { name: String, objective: String, score: String, mark: Option<Mark> },
}

/// What a [`Block`] says.
pub enum BlockModel {
    Line { setting: Setting, text: Seq<char> },
    Hero { text: Seq<char>, claim: Claim },
    Tiles(Seq<crate::figures::TileModel>),
    RatingChart,
    ThemeChart,
    SlopeChart,
    AccuracyChart,
    Change { text: Seq<char>, trend: Trend },
    Detail(Seq<char>),
    Opening { name: Seq<char>, book: Seq<char>, tally: Seq<char>, mark: Option<Mark> },
    Endgame { name: Seq<char>, objective: Seq<char>, score: Seq<char>, mark: Option<Mark> },
}

impl View for Block {
    type V = BlockModel;

    open spec fn view(&self) -> BlockModel {
        match *self {
            Block::Line(line) => BlockModel::Line { setting: line.setting, text: line.text@ },
            Block::Hero { text, claim } => BlockModel::Hero { text: text@, claim },
            Block::Tiles(cells) => BlockModel::Tiles(crate::figures::tile_models(cells@)),
            Block::RatingChart => BlockModel::RatingChart,
            Block::ThemeChart => BlockModel::ThemeChart,
            Block::SlopeChart => BlockModel::SlopeChart,
            Block::AccuracyChart => BlockModel::AccuracyChart,
            Block::Change { text, trend } => BlockModel::Change { text: text@, trend },
            Block::Detail(text) => BlockModel::Detail(text@),
            Block::Opening { name, book, tally, mark } => BlockModel::Opening {
                name: name@,
                book: book@,
                tally: tally@,
                mark,
            },
            Block::Endgame { name, objective, score, mark } => BlockModel::Endgame {
                name: name@,
                objective: objective@,
                score: score@,
                mark,
            },
        }
    }
}

/// What each of some blocks says.
pub open spec fn blocks(list: Seq<Block>) -> Seq<BlockModel> {
    Seq::new(list.len(), |i: int| list[i]@)
}

/// A section's title.
pub open spec fn title(text: Seq<char>) -> BlockModel {
    BlockModel::Line { setting: Setting::Title, text }
}

/// What a figure is measured against.
pub open spec fn note(text: Seq<char>) -> BlockModel {
    BlockModel::Line { setting: Setting::Caption, text }
}

/// A line of figures.
pub open spec fn stat(text: Seq<char>) -> BlockModel {
    BlockModel::Line { setting: Setting::Stat, text }
}

/// Put a block at the end of a list.
fn put(list: &mut Vec<Block>, block: Block)
    ensures
        blocks(final(list)@) == blocks(old(list)@).push(block@),
{
    let ghost before = list@;
    list.push(block);
    assert(blocks(list@) =~= blocks(before).push(block@));
}

/// Put a section's title at the end of a list.
fn put_title(list: &mut Vec<Block>, text: &str)
    ensures
        blocks(final(list)@) == blocks(old(list)@).push(title(text@)),
{
    put(list, Block::Line(section_title(text)));
}

/// Put a caption at the end of a list.
fn put_note(list: &mut Vec<Block>, text: &str)
    ensures
        blocks(final(list)@) == blocks(old(list)@).push(note(text@)),
{
    put(list, Block::Line(caption(text)));
}

/// Put a line of figures at the end of a list.
fn put_stat(list: &mut Vec<Block>, text: &str)
    ensures
        blocks(final(list)@) == blocks(old(list)@).push(stat(text@)),
{
    put(list, Block::Line(stat_line(text)));
}

/// Put one list behind another.
fn put_all(list: &mut Vec<Block>, more: Vec<Block>)
    ensures
        blocks(final(list)@) == blocks(old(list)@) + blocks(more@),
{
    let ghost before = list@;
    let mut rest = more;
    list.append(&mut rest);
    assert(blocks(list@) =~= blocks(before) + blocks(more@));
}

/// Which way a band went, in a word.
pub open spec fn direction_of(faster: bool) -> Seq<char> {
    if faster {
        "faster"@
    } else {
        "slower"@
    }
}

/// Which way a band went, in a word.
pub fn direction(faster: bool) -> (r: &'static str)
    ensures
        r@ == direction_of(faster),
{
    if faster {
        "faster"
    } else {
        "slower"
    }
}

/// The line of one band.
pub open spec fn band_line(t: Transfer) -> Seq<char> {
    crate::text::decimal(t.band as nat) + "–"@ + crate::text::decimal((t.band + 99) as nat)
        + "   "@ + t.percent@ + "% "@ + direction_of(t.faster) + "   p "@ + t.p@ + "   n "@
        + crate::text::decimal(t.seen as nat)
}

/// A line, and the band it is placed by.
pub struct Row {
    pub band: u32,
    pub text: String,
}

/// What each of some rows says.
pub open spec fn rows(list: Seq<Row>) -> Seq<(u32, Seq<char>)> {
    Seq::new(list.len(), |i: int| (list[i].band, list[i].text@))
}

/// The rows of some bands, as they come.
pub open spec fn band_rows(transfer: Seq<Transfer>) -> Seq<(u32, Seq<char>)> {
    Seq::new(transfer.len(), |i: int| (transfer[i].band, band_line(transfer[i])))
}

/// A row put into its place: behind every row whose band is no greater, as far as rows with a
/// greater one stand at the end.
pub open spec fn placed(list: Seq<(u32, Seq<char>)>, row: (u32, Seq<char>)) -> Seq<
    (u32, Seq<char>),
>
    decreases list.len(),
{
    if list.len() == 0 || list.last().0 <= row.0 {
        list.push(row)
    } else {
        placed(list.drop_last(), row).push(list.last())
    }
}

/// Rows in ascending order of their bands, those of one band in the order they came.
pub open spec fn ordered(list: Seq<(u32, Seq<char>)>) -> Seq<(u32, Seq<char>)>
    decreases list.len(),
{
    if list.len() == 0 {
        list
    } else {
        placed(ordered(list.drop_last()), list.last())
    }
}

/// Whether rows ascend.
pub open spec fn ascending(list: Seq<(u32, Seq<char>)>) -> bool {
    forall|i: int, j: int| 0 <= i <= j < list.len() ==> (#[trigger] list[i]).0 <= (
    #[trigger] list[j]).0
}

/// The rows of one band.
pub open spec fn of_band(list: Seq<(u32, Seq<char>)>, band: u32) -> Seq<(u32, Seq<char>)> {
    list.filter(|row: (u32, Seq<char>)| row.0 == band)
}

/// One row more leaves the rows of other bands alone, and joins those of its own.
proof fn of_band_push(list: Seq<(u32, Seq<char>)>, row: (u32, Seq<char>), band: u32)
    ensures
        of_band(list.push(row), band) == if row.0 == band {
            of_band(list, band).push(row)
        } else {
            of_band(list, band)
        },
{
    let keep = |row: (u32, Seq<char>)| row.0 == band;
    assert(list.push(row).drop_last() =~= list);
    reveal(Seq::filter);
}

/// Putting a row into its place keeps the order, the bound and the rows of each band.
proof fn placing(list: Seq<(u32, Seq<char>)>, row: (u32, Seq<char>), band: u32)
    requires
        ascending(list),
    ensures
        ascending(placed(list, row)),
        placed(list, row).len() == list.len() + 1,
        placed(list, row).last().0 == (if list.len() == 0 || list.last().0 <= row.0 {
            row.0
        } else {
            list.last().0
        }),
        of_band(placed(list, row), band) == of_band(list.push(row), band),
    decreases list.len(),
{
    of_band_push(list, row, band);
    if list.len() == 0 || list.last().0 <= row.0 {
    } else {
        let rest = list.drop_last();
        let inner = placed(rest, row);
        placing(rest, row, band);
        of_band_push(rest, row, band);
        of_band_push(inner, list.last(), band);
        of_band_push(rest, list.last(), band);
        assert(rest.push(list.last()) =~= list);
        assert(inner.last().0 <= list.last().0) by {
            if rest.len() > 0 {
                assert(rest.last() == list[list.len() - 2]);
            }
        }
        let whole = placed(list, row);
        assert forall|i: int, j: int| 0 <= i <= j < whole.len() implies (#[trigger] whole[i]).0 <= (
        #[trigger] whole[j]).0 by {
            if j < inner.len() {
                assert(inner[i].0 <= inner[j].0);
            } else if i < inner.len() {
                assert(inner[i].0 <= inner[inner.len() - 1].0);
            }
        }
    }
}

/// The bands read in ascending order, every band's lines are there, and the lines of one band
/// stand in the order they came.
pub proof fn bands_read_in_order(list: Seq<(u32, Seq<char>)>, band: u32)
    ensures
        ascending(ordered(list)),
        ordered(list).len() == list.len(),
        of_band(ordered(list), band) == of_band(list, band),
    decreases list.len(),
{
    if list.len() > 0 {
        bands_read_in_order(list.drop_last(), band);
        placing(ordered(list.drop_last()), list.last(), band);
        of_band_push(ordered(list.drop_last()), list.last(), band);
        of_band_push(list.drop_last(), list.last(), band);
        assert(list.drop_last().push(list.last()) =~= list);
    }
}

/// Put a row into its place.
fn place(list: &mut Vec<Row>, row: Row)
    ensures
        rows(final(list)@) == placed(rows(old(list)@), (row.band, row.text@)),
{
    let ghost all = rows(list@);
    let ghost new = (row.band, row.text@);
    let mut at: usize = list.len();
    assert(all.take(at as int) =~= all);
    assert(placed(all.take(at as int), new) + all.skip(at as int) =~= placed(all, new));
    while at > 0 && list[at - 1].band > row.band
        invariant
            at <= list@.len(),
            all == rows(list@),
            new == (row.band, row.text@),
            placed(all, new) == placed(all.take(at as int), new) + all.skip(at as int),
        decreases at,
    {
        at -= 1;
        let ghost upto = all.take(at + 1);
        assert(upto.drop_last() =~= all.take(at as int));
        assert(upto.last() == all[at as int]);
        assert(placed(upto, new) + all.skip(at + 1) =~= placed(all.take(at as int), new) + all.skip(
            at as int,
        ));
    }
    proof {
        if at > 0 {
            assert(all.take(at as int).last() == all[at - 1]);
        }
    }
    list.insert(at, row);
    assert(rows(list@) =~= all.take(at as int).push(new) + all.skip(at as int));
}

/// The line of one band.
fn band_text(t: &Transfer) -> (r: String)
    requires
        t.band <= u32::MAX - 99,
    ensures
        r@ == band_line(*t),
{
    let mut text = glue5(
        number(t.band as u64).as_str(),
        "–",
        number((t.band + 99) as u64).as_str(),
        "   ",
        t.percent.as_str(),
    );
    text.append("% ");
    text.append(direction(t.faster));
    text.append("   p ");
    text.append(t.p.as_str());
    text.append("   n ");
    push_number(&mut text, t.seen);
    text
}

/// Whether every band ends where a band can.
pub open spec fn bands_fit(transfer: Seq<Transfer>) -> bool {
    forall|i: int| 0 <= i < transfer.len() ==> (#[trigger] transfer[i]).band <= u32::MAX - 99
}

/// The first band in which chance is ruled out.
pub open spec fn first_proven(transfer: Seq<Transfer>, from: int) -> Option<Transfer>
    decreases transfer.len() - from,
{
    if from >= transfer.len() {
        None
    } else if transfer[from].significant {
        Some(transfer[from])
    } else {
        first_proven(transfer, from + 1)
    }
}

/// The figure that the page leads with.
pub open spec fn leading(transfer: Seq<Transfer>) -> BlockModel {
    if transfer.len() == 0 {
        BlockModel::Hero { text: "—"@, claim: Claim::Absent }
    } else {
        match first_proven(transfer, 0) {
            Some(t) => BlockModel::Hero {
                text: t.percent@ + "% "@ + direction_of(t.faster),
                claim: if t.faster {
                    Claim::Improving
                } else {
                    Claim::Slowing
                },
            },
            None => BlockModel::Hero { text: "Not proven yet"@, claim: Claim::Unproven },
        }
    }
}

/// The lines below the leading figure.
pub open spec fn below_leading(transfer: Seq<Transfer>, needed: nat) -> Seq<BlockModel> {
    if transfer.len() == 0 {
        seq![note("Needs "@ + crate::text::decimal(needed) + " unseen puzzles in one band."@)]
    } else {
        let lines = ordered(band_rows(transfer));
        Seq::new(lines.len(), |i: int| stat(lines[i].1))
    }
}

/// The one figure the page leads with: whether unseen puzzles are solved faster.
///
/// Unseen, because a puzzle you have met before can be remembered rather than understood. Held to
/// one rating band, because a run of easy puzzles is faster than a run of hard ones whatever the
/// solver does.
pub open spec fn hero_blocks(transfer: Seq<Transfer>, needed: nat) -> Seq<BlockModel> {
    seq![title("Better at chess?"@), leading(transfer)] + below_leading(transfer, needed)
}

/// Only a figure that is not chance is coloured as progress, and only the same figure as a
/// setback.
pub proof fn what_could_be_chance_is_not_claimed(transfer: Seq<Transfer>)
    requires
        forall|i: int| 0 <= i < transfer.len() ==> !(#[trigger] transfer[i]).significant,
    ensures
        leading(transfer) matches BlockModel::Hero { text, claim } && (claim == Claim::Absent
            || claim == Claim::Unproven),
{
    nothing_proven(transfer, 0);
}

/// A figure is coloured as progress exactly where it claims some, as a setback exactly where it claims
/// one, and is held back where it could be chance.
pub proof fn a_claim_is_coloured_as_it_is_made(claim: Claim)
    ensures
        claim_class(claim) is None <==> claim == Claim::Absent,
        claim_class(claim) == Some("dim-label"@) <==> claim == Claim::Unproven,
        claim_class(claim) == Some("improving"@) <==> claim == Claim::Improving,
        claim_class(claim) == Some("slowing"@) <==> claim == Claim::Slowing,
{
    reveal_strlit("dim-label");
    reveal_strlit("improving");
    reveal_strlit("slowing");
    assert("dim-label"@[0] == 'd' && "improving"@[0] == 'i' && "slowing"@[0] == 's');
}

/// The page leads with the first band in which chance is ruled out, and with no other: in its own
/// percent, called faster and coloured as progress exactly where it is faster, and called slower and
/// coloured as a setback otherwise.
pub proof fn the_first_proven_band_leads(transfer: Seq<Transfer>, at: int)
    requires
        0 <= at < transfer.len(),
        transfer[at].significant,
        forall|i: int| 0 <= i < at ==> !(#[trigger] transfer[i]).significant,
    ensures
        transfer[at].faster ==> leading(transfer) == (BlockModel::Hero {
            text: transfer[at].percent@ + "% "@ + "faster"@,
            claim: Claim::Improving,
        }),
        !transfer[at].faster ==> leading(transfer) == (BlockModel::Hero {
            text: transfer[at].percent@ + "% "@ + "slower"@,
            claim: Claim::Slowing,
        }),
{
    first_proven_is_first(transfer, at, 0);
}

/// The first band in which chance is ruled out is found.
proof fn first_proven_is_first(transfer: Seq<Transfer>, at: int, from: int)
    requires
        0 <= from <= at < transfer.len(),
        transfer[at].significant,
        forall|i: int| 0 <= i < at ==> !(#[trigger] transfer[i]).significant,
    ensures
        first_proven(transfer, from) == Some(transfer[at]),
    decreases at - from,
{
    if from < at {
        first_proven_is_first(transfer, at, from + 1);
    }
}

/// Where nothing has been met twice there is no figure and the page says what is needed; where there
/// is some evidence but none of it rules chance out, nothing is claimed.
pub proof fn nothing_is_claimed_without_evidence(transfer: Seq<Transfer>, needed: nat)
    ensures
        transfer.len() == 0 ==> leading(transfer) == (BlockModel::Hero {
            text: "—"@,
            claim: Claim::Absent,
        }) && below_leading(transfer, needed) == seq![
            BlockModel::Line {
                setting: Setting::Caption,
                text: "Needs "@ + crate::text::decimal(needed) + " unseen puzzles in one band."@,
            },
        ],
        transfer.len() > 0 && (forall|i: int|
            0 <= i < transfer.len() ==> !(#[trigger] transfer[i]).significant) ==> leading(transfer)
            == (BlockModel::Hero { text: "Not proven yet"@, claim: Claim::Unproven }),
        transfer.len() > 0 ==> below_leading(transfer, needed).len() == transfer.len(),
{
    if transfer.len() > 0 {
        bands_read_in_order(band_rows(transfer), 0);
        if forall|i: int| 0 <= i < transfer.len() ==> !(#[trigger] transfer[i]).significant {
            nothing_proven(transfer, 0);
        }
    } else {
        assert(below_leading(transfer, needed) =~= seq![
            note("Needs "@ + crate::text::decimal(needed) + " unseen puzzles in one band."@),
        ]);
    }
}

/// Where nothing is significant nothing is proven.
proof fn nothing_proven(transfer: Seq<Transfer>, from: int)
    requires
        0 <= from,
        forall|i: int| 0 <= i < transfer.len() ==> !(#[trigger] transfer[i]).significant,
    ensures
        first_proven(transfer, from) is None,
    decreases transfer.len() - from,
{
    if from < transfer.len() {
        nothing_proven(transfer, from + 1);
    }
}

/// The figure that the page leads with.
fn lead(transfer: &Vec<Transfer>) -> (r: Block)
    ensures
        r@ == leading(transfer@),
{
    if transfer.len() == 0 {
        return Block::Hero { text: "—".to_owned(), claim: Claim::Absent };
    }
    let mut i: usize = 0;
    while i < transfer.len()
        invariant
            i <= transfer.len(),
            transfer@.len() > 0,
            first_proven(transfer@, 0) == first_proven(transfer@, i as int),
        decreases transfer.len() - i,
    {
        let t = &transfer[i];
        if t.significant {
            let claim = if t.faster {
                Claim::Improving
            } else {
                Claim::Slowing
            };
            return Block::Hero {
                text: glue3(t.percent.as_str(), "% ", direction(t.faster)),
                claim,
            };
        }
        i += 1;
    }
    Block::Hero { text: "Not proven yet".to_owned(), claim: Claim::Unproven }
}

/// The rows of some bands, in ascending order.
fn band_list(transfer: &Vec<Transfer>) -> (r: Vec<Row>)
    requires
        bands_fit(transfer@),
    ensures
        rows(r@) == ordered(band_rows(transfer@)),
{
    let ghost all = band_rows(transfer@);
    let mut lines: Vec<Row> = Vec::new();
    let mut i: usize = 0;
    assert(rows(lines@) =~= ordered(all.take(0)));
    while i < transfer.len()
        invariant
            i <= transfer.len(),
            bands_fit(transfer@),
            all == band_rows(transfer@),
            rows(lines@) == ordered(all.take(i as int)),
        decreases transfer.len() - i,
    {
        let t = &transfer[i];
        place(&mut lines, Row { band: t.band, text: band_text(t) });
        assert(all.take(i + 1).drop_last() =~= all.take(i as int));
        i += 1;
    }
    assert(all.take(i as int) =~= all);
    lines
}

/// The one figure the page leads with, and what it rests on.
pub fn hero(transfer: &Vec<Transfer>, needed: u64) -> (r: Vec<Block>)
    requires
        bands_fit(transfer@),
    ensures
        blocks(r@) == hero_blocks(transfer@, needed as nat),
{
    let mut list: Vec<Block> = Vec::new();
    put_title(&mut list, "Better at chess?");
    put(&mut list, lead(transfer));
    let ghost top = blocks(list@);
    assert(top =~= seq![title("Better at chess?"@), leading(transfer@)]);
    if transfer.len() == 0 {
        put_note(
            &mut list,
            glue3("Needs ", number(needed).as_str(), " unseen puzzles in one band.").as_str(),
        );
        assert(blocks(list@) =~= hero_blocks(transfer@, needed as nat));
        return list;
    }
    let lines = band_list(transfer);
    let ghost all = rows(lines@);
    let mut i: usize = 0;
    assert(blocks(list@) =~= top + Seq::new(0, |k: int| stat(all[k].1)));
    while i < lines.len()
        invariant
            i <= lines.len(),
            all == rows(lines@),
            blocks(list@) == top + Seq::new(i as nat, |k: int| stat(all[k].1)),
        decreases lines.len() - i,
    {
        put_stat(&mut list, lines[i].text.as_str());
        assert(blocks(list@) =~= top + Seq::new((i + 1) as nat, |k: int| stat(all[k].1)));
        i += 1;
    }
    assert(blocks(list@) =~= hero_blocks(transfer@, needed as nat));
    list
}

/// The headline numbers, side by side. A rating has changed only where there are two of them.
pub open spec fn headline(data: ProgressData) -> BlockModel {
    BlockModel::Tiles(
        seq![
            crate::figures::tile_of("Solved"@, crate::text::decimal(data.solved as nat), None),
            crate::figures::tile_of("Attempts"@, crate::text::decimal(data.ratings as nat), None),
            crate::figures::tile_of("Accuracy"@, data.accuracy@ + "%"@, None),
            crate::figures::tile_of(
                "Rating"@,
                data.rating@,
                if data.ratings >= 2 {
                    Some(data.rating_change@)
                } else {
                    None
                },
            ),
        ],
    )
}

/// The headline numbers, side by side.
pub fn tiles(data: &ProgressData) -> (r: Block)
    ensures
        r@ == headline(*data),
{
    let change = if data.ratings >= 2 {
        Some(data.rating_change.clone())
    } else {
        None
    };
    let mut cells: Vec<Tile> = Vec::new();
    cells.push(tile("Solved", number(data.solved).as_str(), None));
    cells.push(tile("Attempts", number(data.ratings as u64).as_str(), None));
    cells.push(tile("Accuracy", glue2(data.accuracy.as_str(), "%").as_str(), None));
    cells.push(tile("Rating", data.rating.as_str(), change));
    let r = Block::Tiles(cells);
    assert(r@->Tiles_0 =~= headline(*data)->Tiles_0);
    r
}

/// What is not measurable yet, as counters rather than paragraphs.
pub open spec fn pending(data: ProgressData) -> Seq<Seq<char>> {
    let repeats = if data.overall is None {
        seq![
            "Repeats           "@ + crate::text::decimal(data.slopes@.len()) + " / "@
                + crate::text::decimal(data.needed.pairs as nat) + " pairs"@,
        ]
    } else {
        Seq::empty()
    };
    let rating = if data.ratings < data.needed.rating_points {
        seq![
            "Rating trend      "@ + crate::text::decimal(data.ratings as nat) + " / "@
                + crate::text::decimal(data.needed.rating_points as nat) + " attempts"@,
        ]
    } else {
        Seq::empty()
    };
    let themes = if data.themes < 3 {
        seq![
            "Themes            "@ + crate::text::decimal(data.themes as nat) + " / 3 at "@
                + crate::text::decimal(data.needed.theme_attempts as nat) + " attempts"@,
        ]
    } else {
        Seq::empty()
    };
    let unseen = if data.transfer@.len() == 0 {
        seq![
            "Unseen puzzles    0 / "@ + crate::text::decimal(data.needed.transfer as nat)
                + " in one band"@,
        ]
    } else {
        Seq::empty()
    };
    repeats + rating + themes + unseen
}

/// What is not measurable yet, as counters rather than paragraphs: a sentence says the same, but
/// not how close you are.
pub fn pending_rows(data: &ProgressData) -> (r: Vec<String>)
    ensures
        crate::text::texts(r@) == pending(*data),
{
    let mut rows: Vec<String> = Vec::new();
    assert(crate::text::texts(rows@) =~= Seq::empty());
    if data.overall.is_none() {
        put_text(
            &mut rows,
            glue5(
                "Repeats           ",
                number(data.slopes.len() as u64).as_str(),
                " / ",
                number(data.needed.pairs).as_str(),
                " pairs",
            ),
        );
    }
    if data.ratings < data.needed.rating_points {
        put_text(
            &mut rows,
            glue5(
                "Rating trend      ",
                number(data.ratings as u64).as_str(),
                " / ",
                number(data.needed.rating_points as u64).as_str(),
                " attempts",
            ),
        );
    }
    if data.themes < 3 {
        put_text(
            &mut rows,
            glue5(
                "Themes            ",
                number(data.themes as u64).as_str(),
                " / 3 at ",
                number(data.needed.theme_attempts).as_str(),
                " attempts",
            ),
        );
    }
    if data.transfer.len() == 0 {
        put_text(
            &mut rows,
            glue3(
                "Unseen puzzles    0 / ",
                number(data.needed.transfer).as_str(),
                " in one band",
            ),
        );
    }
    assert(crate::text::texts(rows@) =~= pending(*data));
    rows
}

/// A whole point a game, in millionths.
pub const WHOLE_POINT: u32 = 1_000_000;

/// Par in an opening is half a point a game. These are the distances from par worth colouring
/// rather than leaving to be read off the number.
pub const OPENING_POOR: u32 = 400_000;

pub const OPENING_GOOD: u32 = 600_000;

/// How an opening's score, in millionths of a point a game, is coloured.
pub open spec fn opening_mark(score: int) -> Option<Mark> {
    if score < OPENING_POOR {
        Some(Mark::Error)
    } else if score > OPENING_GOOD {
        Some(Mark::Success)
    } else {
        None
    }
}

/// How an opening's score, in millionths of a point a game, is coloured.
pub fn opening_class(score: u32) -> (r: Option<Mark>)
    ensures
        r == opening_mark(score as int),
{
    if score < OPENING_POOR {
        Some(Mark::Error)
    } else if score > OPENING_GOOD {
        Some(Mark::Success)
    } else {
        None
    }
}

/// An opening at par is neither a success nor a failure, and a score is a success exactly where
/// the opponent's would be a failure.
pub proof fn par_is_not_a_verdict(score: int)
    ensures
        2 * score == WHOLE_POINT ==> opening_mark(score) is None,
        opening_mark(score) == Some(Mark::Success) <==> opening_mark(WHOLE_POINT - score) == Some(
            Mark::Error,
        ),
{
}

/// How a conversion compares to the fewest moves the position allows, where both are known.
pub open spec fn efficiency(best: Option<u32>, optimal: Option<u32>) -> Seq<char> {
    match (best, optimal) {
        (Some(taken), Some(optimal)) => "  best "@ + crate::text::decimal(taken as nat) + " vs "@
            + crate::text::decimal(optimal as nat) + " needed"@,
        _ => ""@,
    }
}

/// How a conversion compares to the fewest moves the position allows.
pub fn efficiency_text(best: Option<u32>, optimal: Option<u32>) -> (r: String)
    ensures
        r@ == efficiency(best, optimal),
{
    match (best, optimal) {
        (Some(taken), Some(optimal)) => glue5(
            "  best ",
            number(taken as u64).as_str(),
            " vs ",
            number(optimal as u64).as_str(),
            " needed",
        ),
        _ => "".to_owned(),
    }
}

/// A poor opening is one that scores below forty points in a hundred and a good one above sixty; what
/// lies between is left to be read off the number. Its record shows its own wins, draws and losses, in
/// that order.
pub proof fn an_opening_is_marked_by_its_score(record: OpeningRecord)
    ensures
        opening_block(record) matches BlockModel::Opening { name, tally, mark, .. } && name
            == record.name@ && {
            &&& mark == Some(Mark::Error) <==> record.millionths < 400_000
            &&& mark == Some(Mark::Success) <==> record.millionths > 600_000
            &&& tally == crate::text::decimal(record.won as nat) + "/"@ + crate::text::decimal(
                record.drawn as nat,
            ) + "/"@ + crate::text::decimal(record.lost as nat) + " · "@ + record.score@ + "%"@
        },
{
}

/// An endgame is marked by its last attempt, as a success exactly where that one was converted and as
/// a failure exactly where it was not, whatever the others came to. Its record shows how many were
/// converted out of how many.
pub proof fn an_endgame_is_marked_by_its_last_attempt(record: EndgameRecord)
    ensures
        endgame_block(record) matches BlockModel::Endgame { name, score, mark, .. } && name
            == record.name@ && {
            &&& mark == Some(Mark::Success) <==> record.last_achieved == Some(true)
            &&& mark == Some(Mark::Error) <==> record.last_achieved == Some(false)
            &&& record.best is None || record.optimal is None ==> score == crate::text::decimal(
                record.achieved as nat,
            ) + " / "@ + crate::text::decimal(record.attempts as nat) + ""@
            &&& record.best matches Some(taken) ==> (record.optimal matches Some(least) ==> score
                == crate::text::decimal(record.achieved as nat) + " / "@ + crate::text::decimal(
                record.attempts as nat,
            ) + ("  best "@ + crate::text::decimal(taken as nat) + " vs "@ + crate::text::decimal(
                least as nat,
            ) + " needed"@))
        },
{
}

/// The headline numbers are the numbers they are named after, and a rating has changed only where
/// there are two ratings to tell a change by.
pub proof fn the_tiles_show_what_they_name(data: ProgressData)
    ensures
        headline(data) matches BlockModel::Tiles(cells) && cells.len() == 4 && {
            &&& cells[0].name == "Solved"@ && cells[0].value == crate::text::decimal(
                data.solved as nat,
            ) && cells[0].change is None
            &&& cells[1].name == "Attempts"@ && cells[1].value == crate::text::decimal(
                data.ratings as nat,
            ) && cells[1].change is None
            &&& cells[2].name == "Accuracy"@ && cells[2].value == data.accuracy@ + "%"@
                && cells[2].change is None
            &&& cells[3].name == "Rating"@ && cells[3].value == data.rating@ && (
            cells[3].change is Some <==> data.ratings >= 2)
        },
{
}

/// What cannot be measured yet is counted, and only that: the repeats where no pairs have come to a
/// verdict, the rating where there are too few attempts, the themes where there are fewer than three,
/// and the unseen puzzles where no band has any; each with how many there are and how many it takes.
pub proof fn what_is_missing_is_counted(data: ProgressData)
    ensures
        ({
            let repeats = data.overall is None;
            let rating = data.ratings < data.needed.rating_points;
            let themes = data.themes < 3;
            let unseen = data.transfer@.len() == 0;
            let one = |b: bool|
                if b {
                    1int
                } else {
                    0
                };
            let rows = pending(data);
            &&& rows.len() == one(repeats) + one(rating) + one(themes) + one(unseen)
            &&& repeats ==> rows[0] == "Repeats           "@ + crate::text::decimal(
                data.slopes@.len(),
            ) + " / "@ + crate::text::decimal(data.needed.pairs as nat) + " pairs"@
            &&& rating ==> rows[one(repeats)] == "Rating trend      "@ + crate::text::decimal(
                data.ratings as nat,
            ) + " / "@ + crate::text::decimal(data.needed.rating_points as nat) + " attempts"@
            &&& themes ==> rows[one(repeats) + one(rating)] == "Themes            "@
                + crate::text::decimal(data.themes as nat) + " / 3 at "@ + crate::text::decimal(
                data.needed.theme_attempts as nat,
            ) + " attempts"@
            &&& unseen ==> rows.last() == "Unseen puzzles    0 / "@ + crate::text::decimal(
                data.needed.transfer as nat,
            ) + " in one band"@
        }),
{
}

/// One opening's record as it is shown.
pub open spec fn opening_block(record: OpeningRecord) -> BlockModel {
    BlockModel::Opening {
        name: record.name@,
        book: "book "@ + record.book@ + " plies"@,
        tally: crate::text::decimal(record.won as nat) + "/"@ + crate::text::decimal(
            record.drawn as nat,
        ) + "/"@ + crate::text::decimal(record.lost as nat) + " · "@ + record.score@ + "%"@,
        mark: opening_mark(record.millionths as int),
    }
}

/// One opening's record.
pub fn opening_row(record: &OpeningRecord) -> (r: Block)
    ensures
        r@ == opening_block(*record),
{
    let mut tally = glue5(
        number(record.won as u64).as_str(),
        "/",
        number(record.drawn as u64).as_str(),
        "/",
        number(record.lost as u64).as_str(),
    );
    tally.append(" · ");
    tally.append(record.score.as_str());
    tally.append("%");
    Block::Opening {
        name: record.name.clone(),
        book: glue3("book ", record.book.as_str(), " plies"),
        tally,
        mark: opening_class(record.millionths),
    }
}

/// One endgame's record as it is shown. The most recent attempt is what the player is actually
/// able to do now, so it is coloured rather than the average.
pub open spec fn endgame_block(record: EndgameRecord) -> BlockModel {
    BlockModel::Endgame {
        name: record.name@,
        objective: record.objective@,
        score: crate::text::decimal(record.achieved as nat) + " / "@ + crate::text::decimal(
            record.attempts as nat,
        ) + efficiency(record.best, record.optimal),
        mark: match record.last_achieved {
            Some(true) => Some(Mark::Success),
            Some(false) => Some(Mark::Error),
            None => None,
        },
    }
}

/// One endgame's conversion record.
pub fn endgame_row(record: &EndgameRecord) -> (r: Block)
    ensures
        r@ == endgame_block(*record),
{
    let mark = match record.last_achieved {
        Some(achieved) => if achieved {
            Some(Mark::Success)
        } else {
            Some(Mark::Error)
        },
        None => None,
    };
    Block::Endgame {
        name: record.name.clone(),
        objective: record.objective.clone(),
        score: glue4(
            number(record.achieved as u64).as_str(),
            " / ",
            number(record.attempts as u64).as_str(),
            efficiency_text(record.best, record.optimal).as_str(),
        ),
        mark,
    }
}

/// How the engine games have gone, which is a separate question from how the puzzles have gone
/// and is held to a weaker standard of evidence.
pub open spec fn play_blocks(trend: Option<PlayTrend>, games: nat, needed: nat) -> Seq<
    BlockModel,
> {
    match trend {
        None => seq![
            note(
                crate::text::decimal(games) + " game"@ + crate::text::plural(games as int)
                    + " played. "@ + crate::text::decimal(needed)
                    + " are needed before the earlier and later halves can be compared."@,
            ),
        ],
        Some(t) => seq![
            BlockModel::Change {
                text: "Accuracy "@ + t.earlier@ + "% → "@ + t.recent@ + "%"@,
                trend: if t.improving {
                    Trend::Improving
                } else {
                    Trend::Slowing
                },
            },
            BlockModel::Detail(
                "blunders "@ + t.earlier_blunders@ + " → "@ + t.recent_blunders@
                    + " per 100 moves over "@ + crate::text::decimal(t.games as nat) + " games\n"@
                    + (if t.significant {
                    "Unlikely to be chance (Mann-Whitney p = "@
                } else {
                    "Not yet distinguishable from chance (p = "@
                }) + t.p@ + ")."@,
            ),
            note(
                "Weaker evidence than the puzzle figure above: games are not paired and no two are alike. What keeps them comparable is that the opponent is pinned near your rating."@,
            ),
        ],
    }
}

/// What stands below the change of accuracy.
fn play_detail(t: &PlayTrend) -> (r: String)
    ensures
        r@ == "blunders "@ + t.earlier_blunders@ + " → "@ + t.recent_blunders@
            + " per 100 moves over "@ + crate::text::decimal(t.games as nat) + " games\n"@ + (
        if t.significant {
            "Unlikely to be chance (Mann-Whitney p = "@
        } else {
            "Not yet distinguishable from chance (p = "@
        }) + t.p@ + ")."@,
{
    let mut text = glue5(
        "blunders ",
        t.earlier_blunders.as_str(),
        " → ",
        t.recent_blunders.as_str(),
        " per 100 moves over ",
    );
    push_number(&mut text, t.games);
    text.append(" games\n");
    let verdict = if t.significant {
        "Unlikely to be chance (Mann-Whitney p = "
    } else {
        "Not yet distinguishable from chance (p = "
    };
    text.append(verdict);
    text.append(t.p.as_str());
    text.append(").");
    text
}

/// How the engine games have gone.
pub fn play_section(trend: &Option<PlayTrend>, games: usize, needed: u64) -> (r: Vec<Block>)
    ensures
        blocks(r@) == play_blocks(*trend, games as nat, needed as nat),
{
    let mut list: Vec<Block> = Vec::new();
    match trend {
        None => {
            let mut text = glue2(number(games as u64).as_str(), " game");
            push_plural(&mut text, games as u64);
            text.append(" played. ");
            push_number(&mut text, needed);
            text.append(" are needed before the earlier and later halves can be compared.");
            put_note(&mut list, text.as_str());
        },
        Some(t) => {
            let trend = if t.improving {
                Trend::Improving
            } else {
                Trend::Slowing
            };
            let text = glue5("Accuracy ", t.earlier.as_str(), "% → ", t.recent.as_str(), "%");
            put(&mut list, Block::Change { text, trend });
            put(&mut list, Block::Detail(play_detail(t)));
            put_note(
                &mut list,
                "Weaker evidence than the puzzle figure above: games are not paired and no two are alike. What keeps them comparable is that the opponent is pinned near your rating.",
            );
        },
    }
    assert(blocks(list@) =~= play_blocks(*trend, games as nat, needed as nat));
    list
}

/// How many of some flags are raised.
pub open spec fn raised(flags: Seq<bool>) -> nat
    decreases flags.len(),
{
    if flags.len() == 0 {
        0
    } else {
        raised(flags.drop_last()) + (if flags.last() {
            1nat
        } else {
            0
        })
    }
}

/// How many of some flags are raised.
pub fn count_raised(flags: &Vec<bool>) -> (r: usize)
    ensures
        r == raised(flags@),
        r <= flags@.len(),
{
    let mut count: usize = 0;
    let mut i: usize = 0;
    assert(flags@.take(0) =~= Seq::empty());
    while i < flags.len()
        invariant
            i <= flags.len(),
            count <= i,
            count == raised(flags@.take(i as int)),
        decreases flags.len() - i,
    {
        assert(flags@.take(i + 1).drop_last() =~= flags@.take(i as int));
        if flags[i] {
            count += 1;
        }
        i += 1;
    }
    assert(flags@.take(i as int) =~= flags@);
    count
}

/// The rating over time, where there is enough of it.
pub open spec fn rating_blocks(data: ProgressData) -> Seq<BlockModel> {
    if data.ratings >= data.needed.rating_points {
        seq![
            title("Puzzle rating"@),
            note("Lichess puzzle scale, not your own rating."@),
            BlockModel::RatingChart,
        ]
    } else {
        Seq::empty()
    }
}

/// Accuracy by theme, where there is a spread to show. Three is the fewest bars that show one;
/// below that they are just numbers wearing a chart.
pub open spec fn theme_blocks(data: ProgressData) -> Seq<BlockModel> {
    if data.themes >= 3 {
        seq![
            title("Accuracy by theme"@),
            note("Line marks your overall accuracy."@),
            BlockModel::ThemeChart,
        ]
    } else {
        Seq::empty()
    }
}

/// Each repeated puzzle against itself.
pub open spec fn repeat_blocks(data: ProgressData) -> Seq<BlockModel> {
    if data.slopes@.len() == 0 {
        Seq::empty()
    } else {
        seq![
            title("Repeats, each against itself"@),
            note(
                crate::text::decimal(raised(data.slopes@)) + " of "@ + crate::text::decimal(
                    data.slopes@.len(),
                ) + " faster than before."@,
            ),
            BlockModel::SlopeChart,
        ] + (match data.overall {
            Some(overall) => seq![
                stat(
                    overall.percent@ + "% faster   p "@ + overall.p@ + "   n "@
                        + crate::text::decimal(overall.puzzles as nat),
                ),
            ],
            None => Seq::empty(),
        })
    }
}

/// What is not measurable yet.
pub open spec fn pending_blocks(data: ProgressData) -> Seq<BlockModel> {
    let rows = pending(data);
    if rows.len() == 0 {
        Seq::empty()
    } else {
        seq![title("Not measurable yet"@)] + Seq::new(rows.len(), |i: int| stat(rows[i]))
    }
}

/// The accuracy of each game, where there are two to draw a line between.
pub open spec fn accuracy_blocks(data: ProgressData) -> Seq<BlockModel> {
    if data.games >= 2 {
        seq![BlockModel::AccuracyChart]
    } else {
        Seq::empty()
    }
}

/// How moves went with little time left.
pub open spec fn pressure_blocks(record: Option<PressureRecord>) -> Seq<BlockModel> {
    match record {
        Some(record) => seq![
            stat(
                "low clock "@ + record.low_clock@ + "%   time in hand "@ + record.time_in_hand@
                    + "%   n "@ + crate::text::decimal(record.games as nat),
            ),
        ],
        None => Seq::empty(),
    }
}

/// What belongs to the tabs that are hidden until they are finished: a report on a tab nobody can
/// open is left out with it.
pub open spec fn tab_blocks(data: ProgressData) -> Seq<BlockModel> {
    if data.all_tabs {
        seq![title("Games against the engine"@)] + play_blocks(
            data.play,
            data.games as nat,
            data.needed.games as nat,
        ) + accuracy_blocks(data) + Seq::new(
            data.openings@.len(),
            |i: int| opening_block(data.openings@[i]),
        ) + Seq::new(data.endgames@.len(), |i: int| endgame_block(data.endgames@[i]))
            + pressure_blocks(data.pressure)
    } else {
        Seq::empty()
    }
}

/// The page: the verdict, the numbers, then the pictures.
pub open spec fn page(data: ProgressData) -> Seq<BlockModel> {
    hero_blocks(data.transfer@, data.needed.transfer as nat).push(headline(data)) + rating_blocks(
        data,
    ) + theme_blocks(data) + repeat_blocks(data) + pending_blocks(data) + tab_blocks(data)
}

/// How many flags are raised grows by one with each that is, and with no other.
pub proof fn raised_flags_are_counted(flags: Seq<bool>, next: bool)
    ensures
        raised(Seq::empty()) == 0,
        raised(flags.push(next)) == raised(flags) + (if next {
            1int
        } else {
            0
        }),
        raised(flags) <= flags.len(),
    decreases flags.len(),
{
    assert(flags.push(next).drop_last() =~= flags);
    if flags.len() > 0 {
        raised_flags_are_counted(flags.drop_last(), flags.last());
    }
}

/// How the games have gone is coloured as progress exactly where the later accuracy is no lower, gives
/// the earlier figure before the later one, and claims more than chance exactly where that is shown.
pub proof fn the_games_are_told_as_they_went(trend: PlayTrend, games: nat, needed: nat)
    ensures
        ({
            let told = play_blocks(Some(trend), games, needed);
            &&& told.len() == 3
            &&& told[0] == (BlockModel::Change {
                text: "Accuracy "@ + trend.earlier@ + "% → "@ + trend.recent@ + "%"@,
                trend: if trend.improving {
                    Trend::Improving
                } else {
                    Trend::Slowing
                },
            })
            &&& trend.significant ==> told[1] == BlockModel::Detail(
                "blunders "@ + trend.earlier_blunders@ + " → "@ + trend.recent_blunders@
                    + " per 100 moves over "@ + crate::text::decimal(trend.games as nat)
                    + " games\n"@ + "Unlikely to be chance (Mann-Whitney p = "@ + trend.p@ + ")."@,
            )
            &&& !trend.significant ==> told[1] == BlockModel::Detail(
                "blunders "@ + trend.earlier_blunders@ + " → "@ + trend.recent_blunders@
                    + " per 100 moves over "@ + crate::text::decimal(trend.games as nat)
                    + " games\n"@ + "Not yet distinguishable from chance (p = "@ + trend.p@ + ")."@,
            )
        }),
        play_blocks(None, games, needed).len() == 1,
{
}

/// A picture is drawn exactly where there is enough for it: the rating with as many attempts as it
/// takes, the themes from three on, the repeats from one on, and the games from two on. What belongs to
/// the tabs that are not finished is shown only with them.
pub proof fn a_picture_needs_its_evidence(data: ProgressData)
    ensures
        rating_blocks(data).len() == (if data.ratings >= data.needed.rating_points {
            3int
        } else {
            0
        }),
        data.ratings >= data.needed.rating_points ==> rating_blocks(data)[2] is RatingChart,
        theme_blocks(data).len() == (if data.themes >= 3 {
            3int
        } else {
            0
        }),
        data.themes >= 3 ==> theme_blocks(data)[2] is ThemeChart,
        repeat_blocks(data).len() > 0 <==> data.slopes@.len() > 0,
        data.slopes@.len() > 0 ==> repeat_blocks(data)[2] is SlopeChart && repeat_blocks(data)[1]
            == (BlockModel::Line {
            setting: Setting::Caption,
            text: crate::text::decimal(raised(data.slopes@)) + " of "@ + crate::text::decimal(
                data.slopes@.len(),
            ) + " faster than before."@,
        }),
        accuracy_blocks(data).len() > 0 <==> data.games >= 2,
        !data.all_tabs ==> tab_blocks(data).len() == 0,
        data.all_tabs ==> tab_blocks(data).len() >= 2 + data.openings@.len()
            + data.endgames@.len(),
        page(data)[1] == leading(data.transfer@),
        page(data).len() == hero_blocks(data.transfer@, data.needed.transfer as nat).len() + 1
            + rating_blocks(data).len() + theme_blocks(data).len() + repeat_blocks(data).len()
            + pending_blocks(data).len() + tab_blocks(data).len(),
        pending_blocks(data).len() == (if pending(data).len() == 0 {
            0nat
        } else {
            pending(data).len() + 1
        }),
{
}

/// The rating over time.
fn rating_section(data: &ProgressData) -> (r: Vec<Block>)
    ensures
        blocks(r@) == rating_blocks(*data),
{
    let mut list: Vec<Block> = Vec::new();
    if data.ratings >= data.needed.rating_points {
        put_title(&mut list, "Puzzle rating");
        put_note(&mut list, "Lichess puzzle scale, not your own rating.");
        put(&mut list, Block::RatingChart);
    }
    assert(blocks(list@) =~= rating_blocks(*data));
    list
}

/// Accuracy by theme.
fn theme_section(data: &ProgressData) -> (r: Vec<Block>)
    ensures
        blocks(r@) == theme_blocks(*data),
{
    let mut list: Vec<Block> = Vec::new();
    if data.themes >= 3 {
        put_title(&mut list, "Accuracy by theme");
        put_note(&mut list, "Line marks your overall accuracy.");
        put(&mut list, Block::ThemeChart);
    }
    assert(blocks(list@) =~= theme_blocks(*data));
    list
}

/// Each repeated puzzle against itself.
fn repeat_section(data: &ProgressData) -> (r: Vec<Block>)
    ensures
        blocks(r@) == repeat_blocks(*data),
{
    let mut list: Vec<Block> = Vec::new();
    if data.slopes.len() > 0 {
        let improved = count_raised(&data.slopes);
        put_title(&mut list, "Repeats, each against itself");
        put_note(
            &mut list,
            glue4(
                number(improved as u64).as_str(),
                " of ",
                number(data.slopes.len() as u64).as_str(),
                " faster than before.",
            ).as_str(),
        );
        put(&mut list, Block::SlopeChart);
        match &data.overall {
            Some(overall) => {
                let mut text = glue4(
                    overall.percent.as_str(),
                    "% faster   p ",
                    overall.p.as_str(),
                    "   n ",
                );
                push_number(&mut text, overall.puzzles);
                put_stat(&mut list, text.as_str());
            },
            None => {},
        }
    }
    assert(blocks(list@) =~= repeat_blocks(*data));
    list
}

/// What is not measurable yet.
fn pending_section(data: &ProgressData) -> (r: Vec<Block>)
    ensures
        blocks(r@) == pending_blocks(*data),
{
    let rows = pending_rows(data);
    let ghost all = crate::text::texts(rows@);
    let mut list: Vec<Block> = Vec::new();
    if rows.len() == 0 {
        assert(blocks(list@) =~= Seq::empty());
        return list;
    }
    put_title(&mut list, "Not measurable yet");
    let ghost top = seq![title("Not measurable yet"@)];
    let mut i: usize = 0;
    assert(blocks(list@) =~= top + Seq::new(0, |k: int| stat(all[k])));
    while i < rows.len()
        invariant
            i <= rows.len(),
            all == crate::text::texts(rows@),
            blocks(list@) == top + Seq::new(i as nat, |k: int| stat(all[k])),
        decreases rows.len() - i,
    {
        put_stat(&mut list, rows[i].as_str());
        assert(blocks(list@) =~= top + Seq::new((i + 1) as nat, |k: int| stat(all[k])));
        i += 1;
    }
    assert(blocks(list@) =~= pending_blocks(*data));
    list
}

/// The openings.
fn opening_list(records: &Vec<OpeningRecord>) -> (r: Vec<Block>)
    ensures
        blocks(r@) == Seq::new(records@.len(), |i: int| opening_block(records@[i])),
{
    let mut list: Vec<Block> = Vec::new();
    let mut i: usize = 0;
    assert(blocks(list@) =~= Seq::new(0, |k: int| opening_block(records@[k])));
    while i < records.len()
        invariant
            i <= records.len(),
            blocks(list@) == Seq::new(i as nat, |k: int| opening_block(records@[k])),
        decreases records.len() - i,
    {
        put(&mut list, opening_row(&records[i]));
        assert(blocks(list@) =~= Seq::new((i + 1) as nat, |k: int| opening_block(records@[k])));
        i += 1;
    }
    list
}

/// The endgames.
fn endgame_list(records: &Vec<EndgameRecord>) -> (r: Vec<Block>)
    ensures
        blocks(r@) == Seq::new(records@.len(), |i: int| endgame_block(records@[i])),
{
    let mut list: Vec<Block> = Vec::new();
    let mut i: usize = 0;
    assert(blocks(list@) =~= Seq::new(0, |k: int| endgame_block(records@[k])));
    while i < records.len()
        invariant
            i <= records.len(),
            blocks(list@) == Seq::new(i as nat, |k: int| endgame_block(records@[k])),
        decreases records.len() - i,
    {
        put(&mut list, endgame_row(&records[i]));
        assert(blocks(list@) =~= Seq::new((i + 1) as nat, |k: int| endgame_block(records@[k])));
        i += 1;
    }
    list
}

/// How moves went with little time left.
fn pressure_section(record: &Option<PressureRecord>) -> (r: Vec<Block>)
    ensures
        blocks(r@) == pressure_blocks(*record),
{
    let mut list: Vec<Block> = Vec::new();
    match record {
        Some(record) => {
            let mut text = glue5(
                "low clock ",
                record.low_clock.as_str(),
                "%   time in hand ",
                record.time_in_hand.as_str(),
                "%   n ",
            );
            push_number(&mut text, record.games);
            put_stat(&mut list, text.as_str());
        },
        None => {},
    }
    assert(blocks(list@) =~= pressure_blocks(*record));
    list
}

/// What belongs to the tabs that are hidden until they are finished.
fn tab_section(data: &ProgressData) -> (r: Vec<Block>)
    ensures
        blocks(r@) == tab_blocks(*data),
{
    let mut list: Vec<Block> = Vec::new();
    assert(blocks(list@) =~= Seq::empty());
    if !data.all_tabs {
        return list;
    }
    put_title(&mut list, "Games against the engine");
    assert(blocks(list@) =~= seq![title("Games against the engine"@)]);
    put_all(&mut list, play_section(&data.play, data.games, data.needed.games));
    let ghost before = blocks(list@);
    if data.games >= 2 {
        put(&mut list, Block::AccuracyChart);
    }
    assert(blocks(list@) =~= before + accuracy_blocks(*data));
    put_all(&mut list, opening_list(&data.openings));
    put_all(&mut list, endgame_list(&data.endgames));
    put_all(&mut list, pressure_section(&data.pressure));
    list
}

/// The page as it stands.
pub struct ProgressView {
    blocks: Vec<Block>,
}

impl ProgressView {
    /// What the page shows.
    pub closed spec fn shown(&self) -> Seq<BlockModel> {
        blocks(self.blocks@)
    }

    /// An empty page.
    pub fn new() -> (r: ProgressView)
        ensures
            r.shown() == Seq::<BlockModel>::empty(),
    {
        let view = ProgressView { blocks: Vec::new() };
        assert(view.shown() =~= Seq::empty());
        view
    }

    /// The blocks of the page, from the top down.
    pub fn widget(&self) -> (r: &Vec<Block>)
        ensures
            blocks(r@) == self.shown(),
    {
        &self.blocks
    }

    /// Build the page anew.
    pub fn refresh(&mut self, data: &ProgressData)
        requires
            bands_fit(data.transfer@),
        ensures
            final(self).shown() == page(*data),
    {
        let mut list = hero(&data.transfer, data.needed.transfer);
        put(&mut list, tiles(data));
        put_all(&mut list, rating_section(data));
        put_all(&mut list, theme_section(data));
        put_all(&mut list, repeat_section(data));
        put_all(&mut list, pending_section(data));
        put_all(&mut list, tab_section(data));
        self.blocks = list;
    }
}

} // verus!
