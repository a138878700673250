//! What the commands report: progress, games, the day's plan, and the raw data behind them.

use crate::progress_view::{count_raised, direction};
use crate::text::{
    first_line, glue2, glue3, glue4, glue5, no_texts, number, one_text, pad_end, pad_start,
    push_number, push_plural, put_text, put_texts,
};
use vstd::prelude::*;
use vstd::string::*;

verus! {

/// A theme that keeps costing points.
pub struct Weakness {
    pub theme: String,
    /// How many of its puzzles are solved, in percent.
    pub success: String,
    pub attempts: u64,
    /// By how many points that is below the average.
    pub below: String,
}

/// How unseen puzzles of one rating band went, later against earlier.
pub struct UnseenBand {
    pub band: u32,
    pub earlier_seconds: String,
    pub later_seconds: String,
    pub percent: String,
    pub faster: bool,
    pub earlier_accuracy: String,
    pub later_accuracy: String,
    pub p: String,
    pub solved: u64,
    /// Whether it is faster but less accurate.
    pub tradeoff: bool,
}

/// How repeated puzzles of one rating band went.
pub struct RepeatedBand {
    pub band: u32,
    pub first_seconds: String,
    pub latest_seconds: String,
    pub percent: String,
    pub faster: bool,
    pub puzzles: u64,
    pub p: String,
}

/// How repeated puzzles went, as a whole.
pub struct Repeated {
    pub percent: String,
    pub is_faster: bool,
    pub first_seconds: String,
    pub latest_seconds: String,
    pub puzzles: u64,
    pub faster: u64,
    pub slower: u64,
    pub unchanged: u64,
    pub p: String,
    /// How many repeats there were, and how many of them were right, in percent.
    pub attempts: u64,
    pub accuracy: String,
    pub bands: Vec<RepeatedBand>,
}

/// All that is measured.
pub struct Measured {
    /// Whether puzzles are being repeated rather than learned.
    pub repeat_mode: bool,
    pub solved: u64,
    pub weak: Vec<Weakness>,
    /// The overall accuracy in percent.
    pub baseline: String,
    pub unseen: Vec<UnseenBand>,
    /// How many first encounters a band needs.
    pub min_transfer: u64,
    /// How many hours apart repeats must be.
    pub min_hours: String,
    pub repeated: Option<Repeated>,
}

/// The line of a theme.
pub open spec fn weakness_line(w: Weakness) -> Seq<char> {
    "  "@ + crate::text::padded_end(w.theme@, 18) + " "@ + crate::text::padded_start(w.success@, 3)
        + "% over "@ + crate::text::decimal(w.attempts as nat) + " attempts   "@ + w.below@
        + " points below your average"@
}

/// The line of a theme.
fn weakness_text(w: &Weakness) -> (r: String)
    ensures
        r@ == weakness_line(*w),
{
    let mut text = glue5(
        "  ",
        pad_end(w.theme.as_str(), 18).as_str(),
        " ",
        pad_start(w.success.as_str(), 3).as_str(),
        "% over ",
    );
    push_number(&mut text, w.attempts);
    text.append(" attempts   ");
    text.append(w.below.as_str());
    text.append(" points below your average");
    text
}

/// The themes that keep costing points.
pub open spec fn weakness_lines(weak: Seq<Weakness>, baseline: Seq<char>) -> Seq<Seq<char>> {
    if weak.len() == 0 {
        Seq::empty()
    } else {
        seq![
            "\n-- what keeps costing you (you solve "@ + baseline + "% overall) --"@,
        ] + Seq::new(weak.len(), |i: int| weakness_line(weak[i]))
    }
}

/// The themes that keep costing points.
fn weakness_report(weak: &Vec<Weakness>, baseline: &str) -> (r: Vec<String>)
    ensures
        crate::text::texts(r@) == weakness_lines(weak@, baseline@),
{
    if weak.len() == 0 {
        return no_texts();
    }
    let mut lines = one_text(
        glue3("\n-- what keeps costing you (you solve ", baseline, "% overall) --"),
    );
    let ghost top = crate::text::texts(lines@);
    let mut i: usize = 0;
    assert(crate::text::texts(lines@) =~= top + Seq::new(0, |k: int| weakness_line(weak@[k])));
    while i < weak.len()
        invariant
            i <= weak.len(),
            crate::text::texts(lines@) == top + Seq::new(
                i as nat,
                |k: int| weakness_line(weak@[k]),
            ),
        decreases weak.len() - i,
    {
        put_text(&mut lines, weakness_text(&weak[i]));
        assert(crate::text::texts(lines@) =~= top + Seq::new(
            (i + 1) as nat,
            |k: int| weakness_line(weak@[k]),
        ));
        i += 1;
    }
    lines
}

/// The line of a band of unseen puzzles.
pub open spec fn unseen_line(t: UnseenBand) -> Seq<char> {
    "  "@ + crate::text::decimal(t.band as nat) + "-"@ + crate::text::decimal((t.band + 99) as nat)
        + "  "@ + crate::text::padded_start(t.earlier_seconds@, 5) + "s -> "@
        + crate::text::padded_start(t.later_seconds@, 5) + "s  "@ + crate::text::padded_start(
        t.percent@,
        4,
    ) + "% "@ + crate::progress_view::direction_of(t.faster) + "  accuracy "@ + t.earlier_accuracy@
        + "% -> "@ + t.later_accuracy@ + "%  (p = "@ + t.p@ + ", "@ + crate::text::decimal(
        t.solved as nat,
    ) + " solved)"@
}

/// The lines of a band of unseen puzzles: speed that was bought by guessing is named as such.
pub open spec fn unseen_band_lines(t: UnseenBand) -> Seq<Seq<char>> {
    if t.tradeoff {
        seq![
            unseen_line(t),
            "      ^ faster but less accurate: speed bought by guessing, not earned"@,
        ]
    } else {
        seq![unseen_line(t)]
    }
}

/// The line of a band of unseen puzzles.
fn unseen_text(t: &UnseenBand) -> (r: String)
    requires
        t.band <= u32::MAX - 99,
    ensures
        r@ == unseen_line(*t),
{
    let mut text = glue5(
        "  ",
        number(t.band as u64).as_str(),
        "-",
        number((t.band + 99) as u64).as_str(),
        "  ",
    );
    text.append(pad_start(t.earlier_seconds.as_str(), 5).as_str());
    text.append("s -> ");
    text.append(pad_start(t.later_seconds.as_str(), 5).as_str());
    text.append("s  ");
    text.append(pad_start(t.percent.as_str(), 4).as_str());
    text.append("% ");
    text.append(direction(t.faster));
    text.append("  accuracy ");
    text.append(t.earlier_accuracy.as_str());
    text.append("% -> ");
    text.append(t.later_accuracy.as_str());
    text.append("%  (p = ");
    text.append(t.p.as_str());
    text.append(", ");
    push_number(&mut text, t.solved);
    text.append(" solved)");
    text
}

/// The lines of some bands of unseen puzzles.
pub open spec fn unseen_bands_lines(bands: Seq<UnseenBand>) -> Seq<Seq<char>>
    decreases bands.len(),
{
    if bands.len() == 0 {
        Seq::empty()
    } else {
        unseen_bands_lines(bands.drop_last()) + unseen_band_lines(bands.last())
    }
}

/// What unseen puzzles show.
pub open spec fn unseen_lines(bands: Seq<UnseenBand>, needed: nat) -> Seq<Seq<char>> {
    seq!["\n-- unseen puzzles (does this mean better at chess?) --"@] + (if bands.len() == 0 {
        seq![
            "  nothing yet: "@ + crate::text::decimal(needed)
                + " first encounters are needed in one rating band"@,
        ]
    } else {
        unseen_bands_lines(bands)
    })
}

/// Where no band has enough first encounters, the report says how many it takes; and where one has,
/// every band gets its own line under the heading, in order.
pub proof fn unseen_bands_are_told_one_by_one(
    bands: Seq<UnseenBand>,
    needed: nat,
    next: UnseenBand,
)
    ensures
        unseen_lines(Seq::empty(), needed).len() == 2,
        unseen_lines(Seq::empty(), needed)[1] == "  nothing yet: "@ + crate::text::decimal(needed)
            + " first encounters are needed in one rating band"@,
        unseen_lines(bands, needed)[0] == "\n-- unseen puzzles (does this mean better at chess?) --"@,
        bands.len() > 0 ==> unseen_lines(bands.push(next), needed) == unseen_lines(bands, needed)
            + unseen_band_lines(next),
        unseen_lines(seq![next], needed) == seq![unseen_lines(bands, needed)[0]] + unseen_band_lines(
            next,
        ),
{
    assert(bands.push(next).drop_last() =~= bands);
    assert(seq![next].drop_last() =~= Seq::empty());
    assert(unseen_bands_lines(seq![next]) =~= unseen_band_lines(next)) by {
        reveal_with_fuel(unseen_bands_lines, 2);
    }
    if bands.len() > 0 {
        assert(unseen_lines(bands.push(next), needed) =~= unseen_lines(bands, needed)
            + unseen_band_lines(next));
    }
}

/// Whether every band ends where a band can.
pub open spec fn unseen_fit(bands: Seq<UnseenBand>) -> bool {
    forall|i: int| 0 <= i < bands.len() ==> (#[trigger] bands[i]).band <= u32::MAX - 99
}

/// What unseen puzzles show.
fn unseen_report(bands: &Vec<UnseenBand>, needed: u64) -> (r: Vec<String>)
    requires
        unseen_fit(bands@),
    ensures
        crate::text::texts(r@) == unseen_lines(bands@, needed as nat),
{
    let mut lines = one_text(
        "\n-- unseen puzzles (does this mean better at chess?) --".to_owned(),
    );
    let ghost top = crate::text::texts(lines@);
    if bands.len() == 0 {
        put_text(
            &mut lines,
            glue3(
                "  nothing yet: ",
                number(needed).as_str(),
                " first encounters are needed in one rating band",
            ),
        );
        assert(crate::text::texts(lines@) =~= unseen_lines(bands@, needed as nat));
        return lines;
    }
    let mut i: usize = 0;
    assert(bands@.take(0) =~= Seq::empty());
    assert(top + unseen_bands_lines(bands@.take(0)) =~= top);
    while i < bands.len()
        invariant
            i <= bands.len(),
            unseen_fit(bands@),
            crate::text::texts(lines@) == top + unseen_bands_lines(bands@.take(i as int)),
        decreases bands.len() - i,
    {
        let t = &bands[i];
        let ghost before = crate::text::texts(lines@);
        put_text(&mut lines, unseen_text(t));
        if t.tradeoff {
            put_text(
                &mut lines,
                "      ^ faster but less accurate: speed bought by guessing, not earned".to_owned(),
            );
        }
        assert(crate::text::texts(lines@) =~= before + unseen_band_lines(*t));
        assert(bands@.take(i + 1).drop_last() =~= bands@.take(i as int));
        assert(crate::text::texts(lines@) =~= top + unseen_bands_lines(bands@.take(i + 1)));
        i += 1;
    }
    assert(bands@.take(i as int) =~= bands@);
    lines
}

/// The line of a band of repeated puzzles.
pub open spec fn repeated_line(b: RepeatedBand) -> Seq<char> {
    "  "@ + crate::text::decimal(b.band as nat) + "-"@ + crate::text::decimal((b.band + 99) as nat)
        + "  "@ + b.first_seconds@ + "s -> "@ + b.latest_seconds@ + "s  "@ + b.percent@ + "% "@
        + crate::progress_view::direction_of(b.faster) + "  ("@ + crate::text::decimal(
        b.puzzles as nat,
    ) + " puzzles, p = "@ + b.p@ + ")"@
}

/// The line of a band of repeated puzzles.
fn repeated_text(b: &RepeatedBand) -> (r: String)
    requires
        b.band <= u32::MAX - 99,
    ensures
        r@ == repeated_line(*b),
{
    let mut text = glue5(
        "  ",
        number(b.band as u64).as_str(),
        "-",
        number((b.band + 99) as u64).as_str(),
        "  ",
    );
    text.append(b.first_seconds.as_str());
    text.append("s -> ");
    text.append(b.latest_seconds.as_str());
    text.append("s  ");
    text.append(b.percent.as_str());
    text.append("% ");
    text.append(direction(b.faster));
    text.append("  (");
    push_number(&mut text, b.puzzles);
    text.append(" puzzles, p = ");
    text.append(b.p.as_str());
    text.append(")");
    text
}

/// The bands of repeated puzzles, where there is more than one.
pub open spec fn repeated_bands_lines(bands: Seq<RepeatedBand>) -> Seq<Seq<char>> {
    if bands.len() > 1 {
        seq![""@] + Seq::new(bands.len(), |i: int| repeated_line(bands[i]))
    } else {
        Seq::empty()
    }
}

/// Whether every band ends where a band can.
pub open spec fn repeated_fit(bands: Seq<RepeatedBand>) -> bool {
    forall|i: int| 0 <= i < bands.len() ==> (#[trigger] bands[i]).band <= u32::MAX - 99
}

/// The bands of repeated puzzles, where there is more than one.
fn repeated_bands_report(bands: &Vec<RepeatedBand>) -> (r: Vec<String>)
    requires
        bands@.len() > 1 ==> repeated_fit(bands@),
    ensures
        crate::text::texts(r@) == repeated_bands_lines(bands@),
{
    if bands.len() <= 1 {
        return no_texts();
    }
    let mut lines = one_text("".to_owned());
    let ghost top = crate::text::texts(lines@);
    let mut i: usize = 0;
    assert(crate::text::texts(lines@) =~= top + Seq::new(0, |k: int| repeated_line(bands@[k])));
    while i < bands.len()
        invariant
            i <= bands.len(),
            repeated_fit(bands@),
            crate::text::texts(lines@) == top + Seq::new(
                i as nat,
                |k: int| repeated_line(bands@[k]),
            ),
        decreases bands.len() - i,
    {
        put_text(&mut lines, repeated_text(&bands[i]));
        assert(crate::text::texts(lines@) =~= top + Seq::new(
            (i + 1) as nat,
            |k: int| repeated_line(bands@[k]),
        ));
        i += 1;
    }
    lines
}

/// What the repeats come to, in one line.
pub open spec fn repeated_headline(r: Repeated) -> Seq<char> {
    "\n"@ + r.percent@ + "% "@ + crate::progress_view::direction_of(r.is_faster) + "   "@
        + r.first_seconds@ + "s -> "@ + r.latest_seconds@ + "s   over "@ + crate::text::decimal(
        r.puzzles as nat,
    ) + " repeated puzzles"@
}

/// How many of the repeats were faster.
pub open spec fn repeated_tally(r: Repeated) -> Seq<char> {
    crate::text::decimal(r.faster as nat) + " faster, "@ + crate::text::decimal(r.slower as nat)
        + " slower, "@ + crate::text::decimal(r.unchanged as nat)
        + " unchanged   (sign test p = "@ + r.p@ + ")"@
}

/// How many of the repeats were right.
pub open spec fn repeated_accuracy(r: Repeated) -> Seq<Seq<char>> {
    if r.attempts > 0 {
        seq![
            "accuracy on repeats: "@ + r.accuracy@ + "% of "@ + crate::text::decimal(
                r.attempts as nat,
            ) + " attempts"@,
        ]
    } else {
        Seq::empty()
    }
}

/// What repeated puzzles show. A puzzle re-solved too soon is recall of that position, not
/// evidence of skill, so it is not counted.
pub open spec fn repeated_lines(repeated: Option<Repeated>, hours: Seq<char>) -> Seq<Seq<char>> {
    seq![
        "\n-- repeated puzzles (retention; only repeats "@ + hours + "h+ apart count) --"@,
    ] + (match repeated {
        None => seq![
            "  nothing yet: a puzzle re-solved sooner than "@ + hours
                + " hours after the\nfirst is recall of that position, not evidence of skill, so it is not counted."@,
        ],
        Some(r) => seq![repeated_headline(r), repeated_tally(r)] + repeated_accuracy(r)
            + repeated_bands_lines(r.bands@),
    })
}

/// What repeated puzzles show, where any were.
fn repeated_figures(r: &Repeated) -> (lines: Vec<String>)
    requires
        r.bands@.len() > 1 ==> repeated_fit(r.bands@),
    ensures
        crate::text::texts(lines@) == seq![repeated_headline(*r), repeated_tally(*r)]
            + repeated_accuracy(*r) + repeated_bands_lines(r.bands@),
{
    let mut headline = glue5("\n", r.percent.as_str(), "% ", direction(r.is_faster), "   ");
    headline.append(r.first_seconds.as_str());
    headline.append("s -> ");
    headline.append(r.latest_seconds.as_str());
    headline.append("s   over ");
    push_number(&mut headline, r.puzzles);
    headline.append(" repeated puzzles");
    let mut tally = glue5(
        number(r.faster).as_str(),
        " faster, ",
        number(r.slower).as_str(),
        " slower, ",
        number(r.unchanged).as_str(),
    );
    tally.append(" unchanged   (sign test p = ");
    tally.append(r.p.as_str());
    tally.append(")");
    let mut lines = one_text(headline);
    put_text(&mut lines, tally);
    assert(crate::text::texts(lines@) =~= seq![repeated_headline(*r), repeated_tally(*r)]);
    let ghost before = crate::text::texts(lines@);
    if r.attempts > 0 {
        put_text(
            &mut lines,
            glue5(
                "accuracy on repeats: ",
                r.accuracy.as_str(),
                "% of ",
                number(r.attempts).as_str(),
                " attempts",
            ),
        );
    }
    assert(crate::text::texts(lines@) =~= before + repeated_accuracy(*r));
    put_texts(&mut lines, repeated_bands_report(&r.bands));
    lines
}

/// What repeated puzzles show.
fn repeated_report(repeated: &Option<Repeated>, hours: &str) -> (lines: Vec<String>)
    requires
        repeated matches Some(r) ==> r.bands@.len() > 1 ==> repeated_fit(r.bands@),
    ensures
        crate::text::texts(lines@) == repeated_lines(*repeated, hours@),
{
    let mut lines = one_text(
        glue3(
            "\n-- repeated puzzles (retention; only repeats ",
            hours,
            "h+ apart count) --",
        ),
    );
    match repeated {
        None => {
            put_texts(
                &mut lines,
                one_text(
                    glue3(
                        "  nothing yet: a puzzle re-solved sooner than ",
                        hours,
                        " hours after the\nfirst is recall of that position, not evidence of skill, so it is not counted.",
                    ),
                ),
            );
        },
        Some(r) => {
            put_texts(&mut lines, repeated_figures(r));
        },
    }
    lines
}

/// All that is measured, in words.
pub open spec fn progress_lines(m: Measured) -> Seq<Seq<char>> {
    seq![
        "mode       "@ + (if m.repeat_mode {
            "repeat (measuring)"@
        } else {
            "learn (not measured)"@
        }),
        "solved     "@ + crate::text::decimal(m.solved as nat) + " distinct puzzles"@,
    ] + weakness_lines(m.weak@, m.baseline@) + unseen_lines(m.unseen@, m.min_transfer as nat)
        + repeated_lines(m.repeated, m.min_hours@)
}

/// All that is measured, in words.
pub fn progress_report(m: &Measured) -> (r: Vec<String>)
    requires
        unseen_fit(m.unseen@),
        m.repeated matches Some(repeated) ==> repeated.bands@.len() > 1 ==> repeated_fit(
            repeated.bands@,
        ),
    ensures
        crate::text::texts(r@) == progress_lines(*m),
{
    let mode = if m.repeat_mode {
        "repeat (measuring)"
    } else {
        "learn (not measured)"
    };
    let mut lines = one_text(glue2("mode       ", mode));
    put_text(&mut lines, glue3("solved     ", number(m.solved).as_str(), " distinct puzzles"));
    assert(crate::text::texts(lines@) =~= progress_lines(*m).take(2));
    put_texts(&mut lines, weakness_report(&m.weak, m.baseline.as_str()));
    put_texts(&mut lines, unseen_report(&m.unseen, m.min_transfer));
    put_texts(&mut lines, repeated_report(&m.repeated, m.min_hours.as_str()));
    assert(crate::text::texts(lines@) =~= progress_lines(*m));
    lines
}

/// A game that was played.
pub struct GameLine {
    /// When, in seconds since the first of January 1970.
    pub played_at: i64,
    pub result: String,
    pub opponent_elo: u32,
    pub accuracy: String,
    /// What a move lost on average, in percent.
    pub mean_loss: String,
    pub blunders: u32,
}

/// How the games went, later half against earlier half.
pub struct GameTrend {
    pub earlier_accuracy: String,
    pub recent_accuracy: String,
    pub games: u64,
    pub earlier_blunders: String,
    pub recent_blunders: String,
    pub significant: bool,
    pub p: String,
}

/// The line of a game.
pub open spec fn game_line(game: GameLine) -> Seq<char> {
    "  "@ + crate::dates::minute_text(game.played_at as int) + "  "@ + crate::text::padded_end(
        game.result@,
        5,
    ) + " vs "@ + crate::text::padded_end(crate::text::decimal(game.opponent_elo as nat), 5)
        + "  accuracy "@ + crate::text::padded_start(game.accuracy@, 5) + "%  "@ + game.mean_loss@
        + "% lost/move  "@ + crate::text::decimal(game.blunders as nat) + " blunder"@
        + crate::text::plural(game.blunders as int)
}

/// The line of a game.
fn game_text(game: &GameLine) -> (r: String)
    requires
        crate::dates::in_range(game.played_at as int),
    ensures
        r@ == game_line(*game),
{
    let mut text = glue5(
        "  ",
        crate::dates::minute_label(game.played_at).as_str(),
        "  ",
        pad_end(game.result.as_str(), 5).as_str(),
        " vs ",
    );
    text.append(pad_end(number(game.opponent_elo as u64).as_str(), 5).as_str());
    text.append("  accuracy ");
    text.append(pad_start(game.accuracy.as_str(), 5).as_str());
    text.append("%  ");
    text.append(game.mean_loss.as_str());
    text.append("% lost/move  ");
    push_number(&mut text, game.blunders as u64);
    text.append(" blunder");
    push_plural(&mut text, game.blunders as u64);
    text
}

/// How many of a list are shown where at most so many are.
pub open spec fn at_most(len: nat, most: nat) -> nat {
    if len < most {
        len
    } else {
        most
    }
}

/// The latest games, latest first.
pub open spec fn latest_games(games: Seq<GameLine>) -> Seq<Seq<char>> {
    Seq::new(at_most(games.len(), 10), |i: int| game_line(games[games.len() - 1 - i]))
}

/// Whether moments can be shown.
pub open spec fn games_fit(games: Seq<GameLine>) -> bool {
    forall|i: int|
        0 <= i < games.len() ==> crate::dates::in_range((#[trigger] games[i]).played_at as int)
}

/// The latest games, latest first.
fn latest_report(games: &Vec<GameLine>) -> (r: Vec<String>)
    requires
        games_fit(games@),
    ensures
        crate::text::texts(r@) == latest_games(games@),
{
    let mut lines = no_texts();
    let mut i: usize = 0;
    assert(crate::text::texts(lines@) =~= latest_games(games@).take(0));
    while i < games.len() && i < 10
        invariant
            i <= at_most(games@.len(), 10),
            games_fit(games@),
            crate::text::texts(lines@) == latest_games(games@).take(i as int),
        decreases games.len() - i,
    {
        put_text(&mut lines, game_text(&games[games.len() - 1 - i]));
        assert(crate::text::texts(lines@) =~= latest_games(games@).take(i + 1));
        i += 1;
    }
    assert(latest_games(games@).take(i as int) =~= latest_games(games@));
    lines
}

/// How the games went.
pub open spec fn trend_lines(trend: Option<GameTrend>, needed: nat) -> Seq<Seq<char>> {
    match trend {
        Some(t) => seq![
            "\naccuracy   "@ + t.earlier_accuracy@ + "% -> "@ + t.recent_accuracy@
                + "%   (median of the earlier and later halves of "@ + crate::text::decimal(
                t.games as nat,
            ) + " games)"@,
            "blunders   "@ + t.earlier_blunders@ + " -> "@ + t.recent_blunders@
                + " per 100 moves"@,
            (if t.significant {
                "Unlikely to be chance."@
            } else {
                "Not yet distinguishable from chance."@
            }) + "  (Mann-Whitney p = "@ + t.p@ + ")"@,
        ],
        None => seq![
            "\nNo trend yet — "@ + crate::text::decimal(needed)
                + " games are needed before earlier and later\nhalves can be compared."@,
        ],
    }
}

/// How the games went.
fn trend_report(trend: &Option<GameTrend>, needed: u64) -> (r: Vec<String>)
    ensures
        crate::text::texts(r@) == trend_lines(*trend, needed as nat),
{
    match trend {
        Some(t) => {
            let mut accuracy = glue5(
                "\naccuracy   ",
                t.earlier_accuracy.as_str(),
                "% -> ",
                t.recent_accuracy.as_str(),
                "%   (median of the earlier and later halves of ",
            );
            push_number(&mut accuracy, t.games);
            accuracy.append(" games)");
            let verdict = if t.significant {
                "Unlikely to be chance."
            } else {
                "Not yet distinguishable from chance."
            };
            let mut lines = one_text(accuracy);
            put_text(
                &mut lines,
                glue5(
                    "blunders   ",
                    t.earlier_blunders.as_str(),
                    " -> ",
                    t.recent_blunders.as_str(),
                    " per 100 moves",
                ),
            );
            put_text(&mut lines, glue4(verdict, "  (Mann-Whitney p = ", t.p.as_str(), ")"));
            assert(crate::text::texts(lines@) =~= trend_lines(*trend, needed as nat));
            lines
        },
        None => one_text(
            glue3(
                "\nNo trend yet — ",
                number(needed).as_str(),
                " games are needed before earlier and later\nhalves can be compared.",
            ),
        ),
    }
}

/// The games, in words: how many, the latest, and how they went.
pub open spec fn game_lines(games: Seq<GameLine>, trend: Option<GameTrend>, needed: nat) -> Seq<
    Seq<char>,
> {
    if games.len() == 0 {
        seq!["No games played yet."@]
    } else {
        seq![
            crate::text::decimal(games.len()) + " game"@ + crate::text::plural(games.len() as int)
                + " recorded\n"@,
        ] + latest_games(games) + trend_lines(trend, needed)
    }
}

/// The games, in words. `needed` is how many there must be before halves can be compared.
pub fn games_report(games: &Vec<GameLine>, trend: &Option<GameTrend>, needed: u64) -> (r: Vec<
    String,
>)
    requires
        games_fit(games@),
    ensures
        crate::text::texts(r@) == game_lines(games@, *trend, needed as nat),
{
    if games.len() == 0 {
        return one_text("No games played yet.".to_owned());
    }
    let mut count = glue2(number(games.len() as u64).as_str(), " game");
    push_plural(&mut count, games.len() as u64);
    count.append(" recorded\n");
    let mut lines = one_text(count);
    put_texts(&mut lines, latest_report(games));
    put_texts(&mut lines, trend_report(trend, needed));
    lines
}

/// The latest games are listed latest first, and no more than ten of them: the first line is that of
/// the last game, and each line's game was played before that of the line above it.
pub proof fn the_latest_games_come_first(games: Seq<GameLine>, i: int)
    requires
        0 <= i < latest_games(games).len(),
    ensures
        latest_games(games).len() <= 10,
        latest_games(games).len() <= games.len(),
        games.len() <= 10 ==> latest_games(games).len() == games.len(),
        games.len() > 10 ==> latest_games(games).len() == 10,
        latest_games(games)[i] == game_line(games[games.len() - 1 - i]),
{
}

/// The trend of the games is told to be more than chance exactly where it is shown to be, with the
/// earlier figures before the later ones; and there is none before there are enough games.
pub proof fn a_trend_is_told_only_where_it_is_shown(trend: GameTrend, needed: nat)
    ensures
        ({
            let told = trend_lines(Some(trend), needed);
            &&& told.len() == 3
            &&& trend.significant ==> told[2] == "Unlikely to be chance."@ + "  (Mann-Whitney p = "@
                + trend.p@ + ")"@
            &&& !trend.significant ==> told[2] == "Not yet distinguishable from chance."@
                + "  (Mann-Whitney p = "@ + trend.p@ + ")"@
            &&& told[0] == "\naccuracy   "@ + trend.earlier_accuracy@ + "% -> "@
                + trend.recent_accuracy@ + "%   (median of the earlier and later halves of "@
                + crate::text::decimal(trend.games as nat) + " games)"@
            &&& told[1] == "blunders   "@ + trend.earlier_blunders@ + " -> "@
                + trend.recent_blunders@ + " per 100 moves"@
        }),
        trend_lines(None, needed).len() == 1,
        game_lines(Seq::empty(), Some(trend), needed) == seq!["No games played yet."@],
{
    assert(game_lines(Seq::empty(), Some(trend), needed) =~= seq!["No games played yet."@]);
}

/// Speed that was bought by guessing is named as such, exactly where it was: a band's line is followed
/// by a warning exactly where the band is faster but less accurate.
pub proof fn guessing_is_named(bands: Seq<UnseenBand>, next: UnseenBand)
    ensures
        next.tradeoff ==> unseen_bands_lines(bands.push(next)) == unseen_bands_lines(bands).push(
            unseen_line(next),
        ).push("      ^ faster but less accurate: speed bought by guessing, not earned"@),
        !next.tradeoff ==> unseen_bands_lines(bands.push(next)) == unseen_bands_lines(bands).push(
            unseen_line(next),
        ),
        unseen_bands_lines(Seq::empty()) == Seq::<Seq<char>>::empty(),
{
    assert(bands.push(next).drop_last() =~= bands);
    let before = unseen_bands_lines(bands);
    assert(before + seq![unseen_line(next)] =~= before.push(unseen_line(next)));
    assert(before + seq![
        unseen_line(next),
        "      ^ faster but less accurate: speed bought by guessing, not earned"@,
    ] =~= before.push(unseen_line(next)).push(
        "      ^ faster but less accurate: speed bought by guessing, not earned"@,
    ));
}

/// What repeats come to is told by how they went: faster or slower as they were, with the first time
/// before the latest and how many went which way; and the bands are set apart only where there are two.
pub proof fn repeats_are_told_as_they_went(r: Repeated, hours: Seq<char>)
    ensures
        r.is_faster ==> repeated_headline(r) == "\n"@ + r.percent@ + "% "@ + "faster"@ + "   "@
            + r.first_seconds@ + "s -> "@ + r.latest_seconds@ + "s   over "@ + crate::text::decimal(
            r.puzzles as nat,
        ) + " repeated puzzles"@,
        !r.is_faster ==> repeated_headline(r) == "\n"@ + r.percent@ + "% "@ + "slower"@ + "   "@
            + r.first_seconds@ + "s -> "@ + r.latest_seconds@ + "s   over "@ + crate::text::decimal(
            r.puzzles as nat,
        ) + " repeated puzzles"@,
        repeated_tally(r) == crate::text::decimal(r.faster as nat) + " faster, "@
            + crate::text::decimal(r.slower as nat) + " slower, "@ + crate::text::decimal(
            r.unchanged as nat,
        ) + " unchanged   (sign test p = "@ + r.p@ + ")"@,
        repeated_accuracy(r).len() == (if r.attempts > 0 {
            1int
        } else {
            0
        }),
        repeated_bands_lines(r.bands@).len() == (if r.bands@.len() > 1 {
            r.bands@.len() + 1
        } else {
            0nat
        }),
        repeated_lines(None, hours).len() == 2,
{
}

/// A step of the day's plan.
pub struct PlanStep {
    pub headline: String,
    pub minutes: u32,
    pub why: String,
}

/// How long a plan takes.
pub open spec fn plan_minutes(plan: Seq<PlanStep>) -> nat
    decreases plan.len(),
{
    if plan.len() == 0 {
        0
    } else {
        plan_minutes(plan.drop_last()) + plan.last().minutes as nat
    }
}

/// The lines of a step.
pub open spec fn step_lines(step: PlanStep, place: nat) -> Seq<Seq<char>> {
    seq![
        "  "@ + crate::text::decimal(place) + ". "@ + step.headline@ + "  ("@
            + crate::text::decimal(step.minutes as nat) + " min)"@,
        "     "@ + step.why@,
        ""@,
    ]
}

/// The lines of some steps.
pub open spec fn steps_lines(plan: Seq<PlanStep>) -> Seq<Seq<char>>
    decreases plan.len(),
{
    if plan.len() == 0 {
        Seq::empty()
    } else {
        steps_lines(plan.drop_last()) + step_lines(plan.last(), plan.len())
    }
}

/// The day's plan, in words: how long it takes, and each step with the reason for it.
pub open spec fn plan_lines(plan: Seq<PlanStep>) -> Seq<Seq<char>> {
    seq!["Today — about "@ + crate::text::decimal(plan_minutes(plan)) + " minutes\n"@]
        + steps_lines(plan)
}

/// A plan takes as long as its steps together, and gives them in their order, each under its own place
/// with its own time and the reason for it.
pub proof fn a_plan_takes_as_long_as_its_steps(plan: Seq<PlanStep>, next: PlanStep)
    ensures
        plan_minutes(Seq::empty()) == 0,
        plan_minutes(plan.push(next)) == plan_minutes(plan) + next.minutes,
        steps_lines(plan.push(next)) == steps_lines(plan) + seq![
            "  "@ + crate::text::decimal((plan.len() + 1) as nat) + ". "@ + next.headline@ + "  ("@
                + crate::text::decimal(next.minutes as nat) + " min)"@,
            "     "@ + next.why@,
            ""@,
        ],
        plan_lines(plan)[0] == "Today — about "@ + crate::text::decimal(plan_minutes(plan))
            + " minutes\n"@,
        steps_lines(plan).len() == 3 * plan.len(),
    decreases plan.len(),
{
    assert(plan.push(next).drop_last() =~= plan);
    if plan.len() > 0 {
        a_plan_takes_as_long_as_its_steps(plan.drop_last(), plan.last());
        assert(plan.drop_last().push(plan.last()) =~= plan);
    }
}

/// A part of a plan takes no longer than the whole.
proof fn a_part_takes_no_longer(plan: Seq<PlanStep>, upto: int)
    requires
        0 <= upto <= plan.len(),
    ensures
        plan_minutes(plan.take(upto)) <= plan_minutes(plan),
    decreases plan.len() - upto,
{
    if upto < plan.len() {
        a_part_takes_no_longer(plan, upto + 1);
        assert(plan.take(upto + 1).drop_last() =~= plan.take(upto));
    } else {
        assert(plan.take(upto) =~= plan);
    }
}

/// How long a plan takes.
fn total_minutes(plan: &Vec<PlanStep>) -> (r: u32)
    requires
        plan_minutes(plan@) <= u32::MAX,
    ensures
        r == plan_minutes(plan@),
{
    let mut total: u32 = 0;
    let mut i: usize = 0;
    assert(plan@.take(0) =~= Seq::empty());
    while i < plan.len()
        invariant
            i <= plan.len(),
            plan_minutes(plan@) <= u32::MAX,
            total == plan_minutes(plan@.take(i as int)),
        decreases plan.len() - i,
    {
        proof {
            a_part_takes_no_longer(plan@, i + 1);
        }
        assert(plan@.take(i + 1).drop_last() =~= plan@.take(i as int));
        total = total + plan[i].minutes;
        i += 1;
    }
    assert(plan@.take(i as int) =~= plan@);
    total
}

/// The day's plan, in words.
pub fn plan_report(plan: &Vec<PlanStep>) -> (r: Vec<String>)
    requires
        plan_minutes(plan@) <= u32::MAX,
    ensures
        crate::text::texts(r@) == plan_lines(plan@),
{
    let total = total_minutes(plan);
    let mut lines = one_text(
        glue3("Today — about ", number(total as u64).as_str(), " minutes\n"),
    );
    let ghost top = crate::text::texts(lines@);
    let mut i: usize = 0;
    assert(plan@.take(0) =~= Seq::empty());
    assert(top + steps_lines(plan@.take(0)) =~= top);
    while i < plan.len()
        invariant
            i <= plan.len(),
            crate::text::texts(lines@) == top + steps_lines(plan@.take(i as int)),
        decreases plan.len() - i,
    {
        let step = &plan[i];
        let ghost before = crate::text::texts(lines@);
        let mut text = glue5(
            "  ",
            number((i + 1) as u64).as_str(),
            ". ",
            step.headline.as_str(),
            "  (",
        );
        push_number(&mut text, step.minutes as u64);
        text.append(" min)");
        put_text(&mut lines, text);
        put_text(&mut lines, glue2("     ", step.why.as_str()));
        put_text(&mut lines, "".to_owned());
        assert(crate::text::texts(lines@) =~= before + step_lines(*step, (i + 1) as nat));
        assert(plan@.take(i + 1).drop_last() =~= plan@.take(i as int));
        assert(crate::text::texts(lines@) =~= top + steps_lines(plan@.take(i + 1)));
        i += 1;
    }
    assert(plan@.take(i as int) =~= plan@);
    lines
}

/// A fault that was recorded.
pub struct FaultRecord {
    pub at: i64,
    pub label: String,
    pub site: String,
    pub message: String,
    /// Whether it closed the window.
    pub panic: bool,
}

/// How often a kind of fault was recorded.
pub struct FaultSummary {
    pub label: String,
    pub count: u64,
    pub latest: i64,
}

/// The line of a kind of fault.
pub open spec fn summary_line(s: FaultSummary) -> Seq<char> {
    "  "@ + crate::text::padded_end(s.label@, 8) + " "@ + crate::text::padded_start(
        crate::text::decimal(s.count as nat),
        4,
    ) + "   most recent "@ + crate::dates::minute_text(s.latest as int)
}

/// The line of a fault: the first line of what it said.
pub open spec fn fault_line(f: FaultRecord) -> Seq<char> {
    "    "@ + crate::dates::recent_text(f.at as int) + " ["@ + f.label@ + "] "@ + f.site@ + " — "@
        + crate::text::first_line_of(f.message@)
}

/// The latest faults, latest first.
pub open spec fn latest_faults(faults: Seq<FaultRecord>) -> Seq<Seq<char>> {
    Seq::new(at_most(faults.len(), 5), |i: int| fault_line(faults[faults.len() - 1 - i]))
}

/// Whether a fault closed the window.
pub open spec fn any_panic(faults: Seq<FaultRecord>) -> bool {
    exists|i: int| 0 <= i < faults.len() && (#[trigger] faults[i]).panic
}

/// The faults, in words.
pub open spec fn fault_lines(
    path: Seq<char>,
    faults: Seq<FaultRecord>,
    kinds: Seq<FaultSummary>,
) -> Seq<Seq<char>> {
    seq!["faults  ("@ + path + ")"@] + (if faults.len() == 0 {
        seq!["  nothing recorded"@]
    } else {
        Seq::new(kinds.len(), |i: int| summary_line(kinds[i])) + seq![
            ""@,
            "  the five most recent:"@,
        ] + latest_faults(faults) + (if any_panic(faults) {
            seq![""@, "  a panic means the window closed on you. Worth reporting."@]
        } else {
            Seq::empty()
        })
    })
}

/// The latest faults are listed latest first, and no more than five of them. That the window closed is
/// said exactly where a fault closed it, and nothing but that nothing was recorded where nothing was.
pub proof fn the_latest_faults_come_first(
    path: Seq<char>,
    faults: Seq<FaultRecord>,
    kinds: Seq<FaultSummary>,
    i: int,
)
    requires
        0 <= i < latest_faults(faults).len(),
    ensures
        latest_faults(faults).len() == (if faults.len() < 5 {
            faults.len() as int
        } else {
            5
        }),
        latest_faults(faults)[i] == fault_line(faults[faults.len() - 1 - i]),
        fault_lines(path, faults, kinds).len() == 3 + kinds.len() + latest_faults(faults).len() + (
        if exists|k: int| 0 <= k < faults.len() && (#[trigger] faults[k]).panic {
            2int
        } else {
            0
        }),
        fault_lines(path, Seq::empty(), kinds) == seq![
            "faults  ("@ + path + ")"@,
            "  nothing recorded"@,
        ],
{
    assert(fault_lines(path, Seq::empty(), kinds) =~= seq![
        "faults  ("@ + path + ")"@,
        "  nothing recorded"@,
    ]);
}

/// Whether moments can be shown.
pub open spec fn faults_fit(faults: Seq<FaultRecord>, kinds: Seq<FaultSummary>) -> bool {
    &&& forall|i: int|
        0 <= i < faults.len() ==> crate::dates::in_range((#[trigger] faults[i]).at as int)
    &&& forall|i: int|
        0 <= i < kinds.len() ==> crate::dates::in_range((#[trigger] kinds[i]).latest as int)
}

/// The lines of the kinds of fault.
fn kinds_report(faults: &Vec<FaultRecord>, kinds: &Vec<FaultSummary>) -> (r: Vec<String>)
    requires
        faults_fit(faults@, kinds@),
    ensures
        crate::text::texts(r@) == Seq::new(kinds@.len(), |i: int| summary_line(kinds@[i])),
{
    let mut lines = no_texts();
    let mut i: usize = 0;
    assert(crate::text::texts(lines@) =~= Seq::new(0, |k: int| summary_line(kinds@[k])));
    while i < kinds.len()
        invariant
            i <= kinds.len(),
            faults_fit(faults@, kinds@),
            crate::text::texts(lines@) == Seq::new(i as nat, |k: int| summary_line(kinds@[k])),
        decreases kinds.len() - i,
    {
        let s = &kinds[i];
        let mut text = glue4(
            "  ",
            pad_end(s.label.as_str(), 8).as_str(),
            " ",
            pad_start(number(s.count).as_str(), 4).as_str(),
        );
        text.append("   most recent ");
        text.append(crate::dates::minute_label(s.latest).as_str());
        put_text(&mut lines, text);
        assert(crate::text::texts(lines@) =~= Seq::new(
            (i + 1) as nat,
            |k: int| summary_line(kinds@[k]),
        ));
        i += 1;
    }
    lines
}

/// The latest faults, latest first.
fn latest_fault_report(faults: &Vec<FaultRecord>, kinds: &Vec<FaultSummary>) -> (r: Vec<String>)
    requires
        faults_fit(faults@, kinds@),
    ensures
        crate::text::texts(r@) == latest_faults(faults@),
{
    let mut lines = no_texts();
    let mut i: usize = 0;
    assert(crate::text::texts(lines@) =~= latest_faults(faults@).take(0));
    while i < faults.len() && i < 5
        invariant
            i <= at_most(faults@.len(), 5),
            faults_fit(faults@, kinds@),
            crate::text::texts(lines@) == latest_faults(faults@).take(i as int),
        decreases faults.len() - i,
    {
        let f = &faults[faults.len() - 1 - i];
        let mut text = glue5(
            "    ",
            crate::dates::recent_label(f.at).as_str(),
            " [",
            f.label.as_str(),
            "] ",
        );
        text.append(f.site.as_str());
        text.append(" — ");
        text.append(first_line(f.message.as_str()).as_str());
        put_text(&mut lines, text);
        assert(crate::text::texts(lines@) =~= latest_faults(faults@).take(i + 1));
        i += 1;
    }
    assert(latest_faults(faults@).take(i as int) =~= latest_faults(faults@));
    lines
}

/// Whether a fault closed the window.
fn holds_panic(faults: &Vec<FaultRecord>) -> (r: bool)
    ensures
        r == any_panic(faults@),
{
    let mut i: usize = 0;
    while i < faults.len()
        invariant
            i <= faults.len(),
            forall|j: int| 0 <= j < i ==> !(#[trigger] faults@[j]).panic,
        decreases faults.len() - i,
    {
        if faults[i].panic {
            return true;
        }
        i += 1;
    }
    false
}

/// The faults, in words.
pub fn fault_report(path: &str, faults: &Vec<FaultRecord>, kinds: &Vec<FaultSummary>) -> (r: Vec<
    String,
>)
    requires
        faults_fit(faults@, kinds@),
    ensures
        crate::text::texts(r@) == fault_lines(path@, faults@, kinds@),
{
    let mut lines = one_text(glue3("faults  (", path, ")"));
    if faults.len() == 0 {
        put_texts(&mut lines, one_text("  nothing recorded".to_owned()));
        return lines;
    }
    let mut rest = kinds_report(faults, kinds);
    let ghost a = crate::text::texts(rest@);
    put_text(&mut rest, "".to_owned());
    put_text(&mut rest, "  the five most recent:".to_owned());
    assert(crate::text::texts(rest@) =~= a + seq![""@, "  the five most recent:"@]);
    put_texts(&mut rest, latest_fault_report(faults, kinds));
    let ghost b = crate::text::texts(rest@);
    if holds_panic(faults) {
        put_text(&mut rest, "".to_owned());
        put_text(
            &mut rest,
            "  a panic means the window closed on you. Worth reporting.".to_owned(),
        );
        assert(crate::text::texts(rest@) =~= b + seq![
            ""@,
            "  a panic means the window closed on you. Worth reporting."@,
        ]);
    } else {
        assert(crate::text::texts(rest@) =~= b + Seq::<Seq<char>>::empty());
    }
    put_texts(&mut lines, rest);
    lines
}

/// A wrong move, what should have been played, and how often it was.
pub struct WrongMove {
    pub played: String,
    pub expected: String,
    pub count: u32,
}

/// How often something other than puzzles was done.
pub struct ActivityCount {
    pub activity: String,
    pub count: u64,
    /// How long one took, in seconds, where that is known.
    pub median: Option<String>,
}

/// How attempts went by their place in a sitting.
pub struct Sitting {
    /// How many of the earlier half were right, in percent.
    pub early: String,
    pub late: String,
    pub attempts: usize,
}

/// How many wrong moves there are.
pub open spec fn wrong_total(moves: Seq<WrongMove>) -> nat
    decreases moves.len(),
{
    if moves.len() == 0 {
        0
    } else {
        wrong_total(moves.drop_last()) + moves.last().count as nat
    }
}

/// The line of a wrong move.
pub open spec fn wrong_line(m: WrongMove) -> Seq<char> {
    "    "@ + crate::text::padded_end(m.played@, 6) + " instead of "@ + crate::text::padded_end(
        m.expected@,
        6,
    ) + "  x"@ + crate::text::decimal(m.count as nat)
}

/// The wrong moves, in words.
pub open spec fn wrong_lines(moves: Seq<WrongMove>) -> Seq<Seq<char>> {
    seq!["  wrong moves recorded: "@ + crate::text::decimal(wrong_total(moves))] + (if moves.len()
        == 0 {
        Seq::empty()
    } else {
        seq!["  the ones you keep reaching for:"@] + Seq::new(
            at_most(moves.len(), 8),
            |i: int| wrong_line(moves[i]),
        )
    })
}

/// What an activity is called.
pub open spec fn activity_name(activity: Seq<char>) -> Seq<char> {
    if activity == "play"@ {
        "moves against the engine"@
    } else if activity == "study"@ {
        "positions looked at"@
    } else if activity == "endgame"@ {
        "moves converting endgames"@
    } else {
        activity
    }
}

/// An activity with a description is told by it, and any other by its own name.
pub proof fn an_activity_is_told_by_what_it_counts(activity: Seq<char>)
    ensures
        activity_name("play"@) == "moves against the engine"@,
        activity_name("study"@) == "positions looked at"@,
        activity_name("endgame"@) == "moves converting endgames"@,
        activity != "play"@ && activity != "study"@ && activity != "endgame"@ ==> activity_name(
            activity,
        ) == activity,
{
    reveal_strlit("play");
    reveal_strlit("study");
    reveal_strlit("endgame");
    assert("play"@.len() == 4 && "study"@.len() == 5 && "endgame"@.len() == 7);
}

/// The line of an activity.
pub open spec fn activity_line(a: ActivityCount) -> Seq<char> {
    "  "@ + crate::text::padded_start(crate::text::decimal(a.count as nat), 5) + " "@
        + crate::text::padded_end(activity_name(a.activity@), 28) + " "@ + (match a.median {
        Some(seconds) => seconds@ + "s median"@,
        None => ""@,
    })
}

/// The activities, in words.
pub open spec fn activity_lines(activities: Seq<ActivityCount>) -> Seq<Seq<char>> {
    if activities.len() == 0 {
        seq!["  nothing logged outside the trainer yet"@]
    } else {
        Seq::new(activities.len(), |i: int| activity_line(activities[i]))
    }
}

/// The sittings, in words. Early against late within a sitting: whether the twentieth puzzle goes
/// worse than the second is the question of fatigue.
pub open spec fn sitting_line(sitting: Option<Sitting>) -> Seq<char> {
    match sitting {
        None => "  no sittings recorded yet"@,
        Some(s) => "  within a sitting: "@ + s.early@ + "% correct early, "@ + s.late@
            + "% late ("@ + crate::text::decimal(s.attempts as nat) + " attempts)"@,
    }
}

/// The raw data behind training, in words.
pub open spec fn skill_lines(
    moves: Seq<WrongMove>,
    activities: Seq<ActivityCount>,
    sitting: Option<Sitting>,
) -> Seq<Seq<char>> {
    seq![""@, "raw skill data"@] + wrong_lines(moves) + activity_lines(activities) + seq![
        sitting_line(sitting),
    ]
}

/// Wrong moves are counted as often as each was played, and those that come first are listed, no more
/// than eight of them, in their order, each with what should have been played instead.
pub proof fn wrong_moves_are_counted(moves: Seq<WrongMove>, next: WrongMove, i: int)
    ensures
        wrong_total(Seq::empty()) == 0,
        wrong_total(moves.push(next)) == wrong_total(moves) + next.count,
        wrong_lines(moves)[0] == "  wrong moves recorded: "@ + crate::text::decimal(
            wrong_total(moves),
        ),
        moves.len() == 0 ==> wrong_lines(moves).len() == 1,
        moves.len() > 0 ==> wrong_lines(moves).len() == 2 + (if moves.len() < 8 {
            moves.len() as int
        } else {
            8
        }),
        0 <= i < moves.len() && i < 8 ==> wrong_lines(moves)[2 + i] == "    "@
            + crate::text::padded_end(moves[i].played@, 6) + " instead of "@
            + crate::text::padded_end(moves[i].expected@, 6) + "  x"@ + crate::text::decimal(
            moves[i].count as nat,
        ),
{
    assert(moves.push(next).drop_last() =~= moves);
}

/// Some of the wrong moves are no more than all of them.
proof fn some_are_no_more_than_all(moves: Seq<WrongMove>, upto: int)
    requires
        0 <= upto <= moves.len(),
    ensures
        wrong_total(moves.take(upto)) <= wrong_total(moves),
    decreases moves.len() - upto,
{
    if upto < moves.len() {
        some_are_no_more_than_all(moves, upto + 1);
        assert(moves.take(upto + 1).drop_last() =~= moves.take(upto));
    } else {
        assert(moves.take(upto) =~= moves);
    }
}

/// How many wrong moves there are.
fn count_wrong(moves: &Vec<WrongMove>) -> (r: u32)
    requires
        wrong_total(moves@) <= u32::MAX,
    ensures
        r == wrong_total(moves@),
{
    let mut total: u32 = 0;
    let mut i: usize = 0;
    assert(moves@.take(0) =~= Seq::empty());
    while i < moves.len()
        invariant
            i <= moves.len(),
            wrong_total(moves@) <= u32::MAX,
            total == wrong_total(moves@.take(i as int)),
        decreases moves.len() - i,
    {
        proof {
            some_are_no_more_than_all(moves@, i + 1);
        }
        assert(moves@.take(i + 1).drop_last() =~= moves@.take(i as int));
        total = total + moves[i].count;
        i += 1;
    }
    assert(moves@.take(i as int) =~= moves@);
    total
}

/// The wrong moves, in words.
fn wrong_report(moves: &Vec<WrongMove>) -> (r: Vec<String>)
    requires
        wrong_total(moves@) <= u32::MAX,
    ensures
        crate::text::texts(r@) == wrong_lines(moves@),
{
    let mut lines = one_text(
        glue2("  wrong moves recorded: ", number(count_wrong(moves) as u64).as_str()),
    );
    if moves.len() == 0 {
        assert(crate::text::texts(lines@) =~= wrong_lines(moves@));
        return lines;
    }
    put_text(&mut lines, "  the ones you keep reaching for:".to_owned());
    let ghost top = crate::text::texts(lines@);
    let mut i: usize = 0;
    assert(crate::text::texts(lines@) =~= top + Seq::new(0, |k: int| wrong_line(moves@[k])));
    while i < moves.len() && i < 8
        invariant
            i <= at_most(moves@.len(), 8),
            crate::text::texts(lines@) == top + Seq::new(i as nat, |k: int| wrong_line(moves@[k])),
        decreases moves.len() - i,
    {
        let m = &moves[i];
        let mut text = glue5(
            "    ",
            pad_end(m.played.as_str(), 6).as_str(),
            " instead of ",
            pad_end(m.expected.as_str(), 6).as_str(),
            "  x",
        );
        push_number(&mut text, m.count as u64);
        put_text(&mut lines, text);
        assert(crate::text::texts(lines@) =~= top + Seq::new(
            (i + 1) as nat,
            |k: int| wrong_line(moves@[k]),
        ));
        i += 1;
    }
    assert(crate::text::texts(lines@) =~= wrong_lines(moves@));
    lines
}

/// The line of an activity.
fn activity_text(a: &ActivityCount) -> (r: String)
    ensures
        r@ == activity_line(*a),
{
    let what = if a.activity == "play".to_owned() {
        "moves against the engine"
    } else if a.activity == "study".to_owned() {
        "positions looked at"
    } else if a.activity == "endgame".to_owned() {
        "moves converting endgames"
    } else {
        a.activity.as_str()
    };
    let median = match &a.median {
        Some(seconds) => glue2(seconds.as_str(), "s median"),
        None => "".to_owned(),
    };
    let mut text = glue5(
        "  ",
        pad_start(number(a.count).as_str(), 5).as_str(),
        " ",
        pad_end(what, 28).as_str(),
        " ",
    );
    text.append(median.as_str());
    text
}

/// The activities, in words.
fn activity_report(activities: &Vec<ActivityCount>) -> (r: Vec<String>)
    ensures
        crate::text::texts(r@) == activity_lines(activities@),
{
    if activities.len() == 0 {
        return one_text("  nothing logged outside the trainer yet".to_owned());
    }
    let mut lines = no_texts();
    let mut i: usize = 0;
    assert(crate::text::texts(lines@) =~= Seq::new(0, |k: int| activity_line(activities@[k])));
    while i < activities.len()
        invariant
            i <= activities.len(),
            crate::text::texts(lines@) == Seq::new(
                i as nat,
                |k: int| activity_line(activities@[k]),
            ),
        decreases activities.len() - i,
    {
        put_text(&mut lines, activity_text(&activities[i]));
        assert(crate::text::texts(lines@) =~= Seq::new(
            (i + 1) as nat,
            |k: int| activity_line(activities@[k]),
        ));
        i += 1;
    }
    lines
}

/// How many of the earlier and of the later half of some attempts were right, and how many each
/// half has. The later half is the longer one where they differ.
pub fn sitting_halves(right: &Vec<bool>) -> (r: ((usize, usize), (usize, usize)))
    ensures
        ({
            let half = right@.len() / 2;
            &&& r.0.0 == crate::progress_view::raised(right@.take(half as int))
            &&& r.0.1 == half
            &&& r.1.0 == crate::progress_view::raised(right@.skip(half as int))
            &&& r.1.1 == right@.len() - half
        }),
{
    let half = right.len() / 2;
    let mut early: Vec<bool> = Vec::new();
    let mut late: Vec<bool> = Vec::new();
    let mut i: usize = 0;
    while i < right.len()
        invariant
            i <= right.len(),
            half == right@.len() / 2,
            early@ == right@.take(if i < half {
                i as int
            } else {
                half as int
            }),
            late@ == right@.subrange(
                half as int,
                if i < half {
                    half as int
                } else {
                    i as int
                },
            ),
        decreases right.len() - i,
    {
        if i < half {
            early.push(right[i]);
        } else {
            late.push(right[i]);
        }
        i += 1;
        assert(early@ =~= right@.take(if i < half {
            i as int
        } else {
            half as int
        }));
        assert(late@ =~= right@.subrange(
            half as int,
            if i < half {
                half as int
            } else {
                i as int
            },
        ));
    }
    assert(late@ =~= right@.skip(half as int));
    assert(early@ =~= right@.take(half as int));
    ((count_raised(&early), half), (count_raised(&late), right.len() - half))
}

/// The raw data behind training, in words.
pub fn skill_report(
    moves: &Vec<WrongMove>,
    activities: &Vec<ActivityCount>,
    sitting: &Option<Sitting>,
) -> (r: Vec<String>)
    requires
        wrong_total(moves@) <= u32::MAX,
    ensures
        crate::text::texts(r@) == skill_lines(moves@, activities@, *sitting),
{
    let line = match sitting {
        None => "  no sittings recorded yet".to_owned(),
        Some(s) => {
            let mut text = glue5(
                "  within a sitting: ",
                s.early.as_str(),
                "% correct early, ",
                s.late.as_str(),
                "% late (",
            );
            push_number(&mut text, s.attempts as u64);
            text.append(" attempts)");
            text
        },
    };
    let mut lines = one_text("".to_owned());
    put_text(&mut lines, "raw skill data".to_owned());
    assert(crate::text::texts(lines@) =~= seq![""@, "raw skill data"@]);
    put_texts(&mut lines, wrong_report(moves));
    put_texts(&mut lines, activity_report(activities));
    put_texts(&mut lines, one_text(line));
    lines
}

} // verus!
