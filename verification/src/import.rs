//! Reading one's own games: whose they are, which are new, and what was learned from them.

use crate::chess::Color;
use crate::text::{glue3, glue4, glue5, no_texts, number, push_number, put_text};
use vstd::prelude::*;
use vstd::string::*;

verus! {

/// Search depth for bulk import. Deep enough to find blunders, shallow enough that a few hundred
/// games finish in minutes rather than hours.
pub const IMPORT_DEPTH: u32 = 12;

/// Whether earlier imports are to be forgotten, so that their games are analysed again.
pub open spec fn reanalyse_asked(args: Seq<Seq<char>>) -> bool {
    exists|i: int| 0 <= i < args.len() && #[trigger] args[i] == "--reanalyse"@
}

/// Whether earlier imports are to be forgotten.
pub fn wants_reanalysis(args: &Vec<String>) -> (r: bool)
    ensures
        r == reanalyse_asked(crate::text::texts(args@)),
{
    let flag = "--reanalyse".to_owned();
    let ghost all = crate::text::texts(args@);
    let mut i: usize = 0;
    while i < args.len()
        invariant
            i <= args.len(),
            flag@ == "--reanalyse"@,
            all == crate::text::texts(args@),
            forall|j: int| 0 <= j < i ==> #[trigger] all[j] != "--reanalyse"@,
        decreases args.len() - i,
    {
        if args[i] == flag {
            assert(all[i as int] == "--reanalyse"@);
            return true;
        }
        i += 1;
    }
    false
}

/// That earlier imports were forgotten.
pub fn forgotten(removed: u64) -> (r: String)
    ensures
        r@ == "forgot "@ + crate::text::decimal(removed as nat)
            + " previously imported games so they can be analysed again"@,
{
    glue3(
        "forgot ",
        number(removed).as_str(),
        " previously imported games so they can be analysed again",
    )
}

/// Whose games are read: the name given, or the one remembered.
pub open spec fn player_name(
    given: Option<Seq<char>>,
    remembered: Option<Seq<char>>,
) -> Result<Seq<char>, Seq<char>> {
    match (given, remembered) {
        (Some(name), _) => Ok(name),
        (None, Some(name)) => Ok(name),
        (None, None) => Err(
            "no name remembered yet: omachess import-pgn <file.pgn> <your name>"@,
        ),
    }
}

/// Whose games are read. A name that is given is also remembered, so this is only needed once.
pub fn resolve_player(given: Option<String>, remembered: Option<String>) -> (r: Result<
    String,
    String,
>)
    ensures
        crate::commands::result_text(r) == player_name(
            crate::text::opt_text(given),
            crate::text::opt_text(remembered),
        ),
{
    match given {
        Some(name) => Ok(name),
        None => match remembered {
            Some(name) => Ok(name),
            None => Err(
                "no name remembered yet: omachess import-pgn <file.pgn> <your name>".to_owned(),
            ),
        },
    }
}

/// Games are analysed again exactly where the flag for it stands somewhere among the arguments.
pub proof fn games_are_analysed_again_on_request(args: Seq<Seq<char>>, next: Seq<char>)
    ensures
        !reanalyse_asked(Seq::empty()),
        reanalyse_asked(args.push(next)) <==> reanalyse_asked(args) || next == "--reanalyse"@,
{
    let longer = args.push(next);
    assert(longer[args.len() as int] == next);
    if reanalyse_asked(args) {
        let i = choose|i: int| 0 <= i < args.len() && #[trigger] args[i] == "--reanalyse"@;
        assert(longer[i] == args[i]);
    }
    if reanalyse_asked(longer) && next != "--reanalyse"@ {
        let i = choose|i: int| 0 <= i < longer.len() && #[trigger] longer[i] == "--reanalyse"@;
        assert(args[i] == longer[i]);
    }
}

/// A name that is given is the name that is used, whatever is remembered; the remembered one is used
/// where none is given; and without either there is nothing to read games by.
pub proof fn a_given_name_comes_first(given: Option<Seq<char>>, remembered: Option<Seq<char>>)
    ensures
        given matches Some(name) ==> player_name(given, remembered) == Ok::<Seq<char>, Seq<char>>(
            name,
        ),
        given is None ==> (remembered matches Some(name) ==> player_name(given, remembered) == Ok::<
            Seq<char>,
            Seq<char>,
        >(name)),
        player_name(given, remembered) is Err <==> given is None && remembered is None,
{
}

/// The games that the player played, by their places in the file, and the side of each.
pub open spec fn played_by(sides: Seq<Option<Color>>) -> Seq<(usize, Color)>
    decreases sides.len(),
{
    if sides.len() == 0 {
        Seq::empty()
    } else {
        let before = played_by(sides.drop_last());
        match sides.last() {
            Some(side) => before.push(((sides.len() - 1) as usize, side)),
            None => before,
        }
    }
}

/// Exactly the games that the player played are kept, with their sides, each once and in the
/// order of the file.
pub proof fn only_own_games_are_kept(sides: Seq<Option<Color>>)
    requires
        sides.len() <= usize::MAX,
    ensures
        forall|k: int|
            0 <= k < played_by(sides).len() ==> (#[trigger] played_by(sides)[k]).0 < sides.len()
                && sides[played_by(sides)[k].0 as int] == Some(played_by(sides)[k].1),
        forall|k: int, l: int|
            0 <= k < l < played_by(sides).len() ==> (#[trigger] played_by(sides)[k]).0 < (
            #[trigger] played_by(sides)[l]).0,
        forall|i: int|
            0 <= i < sides.len() && #[trigger] sides[i] is Some ==> played_by(sides).contains(
                (i as usize, sides[i]->0),
            ),
    decreases sides.len(),
{
    if sides.len() > 0 {
        let rest = sides.drop_last();
        let before = played_by(rest);
        let all = played_by(sides);
        only_own_games_are_kept(rest);
        assert forall|i: int| 0 <= i < sides.len() && #[trigger] sides[i] is Some implies all.contains(
            (i as usize, sides[i]->0),
        ) by {
            if i < rest.len() {
                assert(rest[i] == sides[i]);
                let k = choose|k: int|
                    0 <= k < before.len() && before[k] == (i as usize, sides[i]->0);
                assert(all[k] == before[k]);
            } else {
                assert(all[before.len() as int] == (i as usize, sides[i]->0));
            }
        }
        assert forall|k: int| 0 <= k < all.len() implies (#[trigger] all[k]).0 < sides.len()
            && sides[all[k].0 as int] == Some(all[k].1) by {
            if k < before.len() {
                assert(all[k] == before[k]);
                assert(rest[before[k].0 as int] == sides[before[k].0 as int]);
            }
        }
        assert forall|k: int, l: int| 0 <= k < l < all.len() implies (#[trigger] all[k]).0 < (
        #[trigger] all[l]).0 by {
            assert(all[k] == before[k]);
            if l < before.len() {
                assert(all[l] == before[l]);
            }
        }
    }
}

/// The games that the player played, by their places in the file, and the side of each.
pub fn mine(sides: &Vec<Option<Color>>) -> (r: Vec<(usize, Color)>)
    ensures
        r@ == played_by(sides@),
{
    let mut list: Vec<(usize, Color)> = Vec::new();
    let mut i: usize = 0;
    assert(sides@.take(0) =~= Seq::empty());
    while i < sides.len()
        invariant
            i <= sides.len(),
            list@ == played_by(sides@.take(i as int)),
        decreases sides.len() - i,
    {
        assert(sides@.take(i + 1).drop_last() =~= sides@.take(i as int));
        match sides[i] {
            Some(side) => list.push((i, side)),
            None => {},
        }
        i += 1;
    }
    assert(sides@.take(i as int) =~= sides@);
    list
}

/// How many games there are, and how many of them are the player's.
pub open spec fn found_lines(games: nat, own: nat, player: Seq<char>) -> Seq<Seq<char>> {
    let found = crate::text::decimal(games) + " games in the file, "@ + crate::text::decimal(own)
        + " played by "@ + player + "."@;
    if own == 0 {
        seq![found, "Check the name matches the White or Black tag exactly."@]
    } else {
        seq![found]
    }
}

/// Where none of the games is the player's, what to check is said as well; and only there.
pub proof fn a_name_that_matches_nothing_is_questioned(games: nat, own: nat, player: Seq<char>)
    ensures
        found_lines(games, own, player).len() == (if own == 0 {
            2int
        } else {
            1
        }),
        found_lines(games, own, player)[0] == crate::text::decimal(games) + " games in the file, "@
            + crate::text::decimal(own) + " played by "@ + player + "."@,
        own == 0 ==> found_lines(games, own, player)[1]
            == "Check the name matches the White or Black tag exactly."@,
{
}

/// How many games there are, and how many of them are the player's.
pub fn found(games: usize, own: usize, player: &str) -> (r: Vec<String>)
    ensures
        crate::text::texts(r@) == found_lines(games as nat, own as nat, player@),
{
    let mut text = glue5(
        number(games as u64).as_str(),
        " games in the file, ",
        number(own as u64).as_str(),
        " played by ",
        player,
    );
    text.append(".");
    let mut lines = no_texts();
    put_text(&mut lines, text);
    if own == 0 {
        put_text(&mut lines, "Check the name matches the White or Black tag exactly.".to_owned());
    }
    assert(crate::text::texts(lines@) =~= found_lines(games as nat, own as nat, player@));
    lines
}

/// The band that a game's puzzles belong to.
pub open spec fn band_for(opponent_elo: Option<u32>, personal_rating: u32, floor: u32) -> u32 {
    let rating = match opponent_elo {
        Some(elo) => elo,
        None => personal_rating,
    };
    if rating >= floor {
        rating
    } else {
        floor
    }
}

/// A game's puzzles are rated by the opponent where the opponent has a rating, whatever the player's
/// own is, by the player's own where the opponent has none, and at the floor where that is higher.
pub proof fn a_game_is_rated_by_its_opponent(elo: u32, personal_rating: u32, floor: u32)
    ensures
        elo >= floor ==> band_for(Some(elo), personal_rating, floor) == elo,
        personal_rating >= floor ==> band_for(None, personal_rating, floor) == personal_rating,
        elo < floor ==> band_for(Some(elo), personal_rating, floor) == floor,
        personal_rating < floor ==> band_for(None, personal_rating, floor) == floor,
{
}

/// The band that a game's puzzles belong to: the opponent's rating, or the player's own where the
/// opponent has none, and no lower than the floor.
pub fn drill_band(opponent_elo: Option<u32>, personal_rating: u32, floor: u32) -> (r: u32)
    ensures
        r >= floor,
        r == band_for(opponent_elo, personal_rating, floor),
{
    let rating = match opponent_elo {
        Some(elo) => elo,
        None => personal_rating,
    };
    if rating < floor {
        floor
    } else {
        rating
    }
}

/// When a game was played: its date, or now where it has none that can be read.
pub fn played_at(date: Option<&str>, now: i64) -> (r: i64)
    ensures
        r == match crate::dates::date_moment(crate::style::opt_str(date)) {
            Some(moment) => moment,
            None => now as int,
        },
{
    match crate::dates::parse_date(date) {
        Some(moment) => moment,
        None => now,
    }
}

/// The phases of a game.
#[derive(Debug, Clone, Copy, PartialEq, Eq, Structural)]
pub enum Phase {
    Opening,
    Middlegame,
    Endgame,
}

/// What was lost in a phase, where the game has it: the first figure given for it. How a loss is
/// measured is the front end's.
pub open spec fn loss_in<L>(by_phase: Seq<(Phase, L)>, want: Phase, from: int) -> Option<L>
    decreases by_phase.len() - from,
{
    if from >= by_phase.len() {
        None
    } else if by_phase[from].0 == want {
        Some(by_phase[from].1)
    } else {
        loss_in(by_phase, want, from + 1)
    }
}

/// What was lost in a phase is the first figure given for that phase, and there is none exactly where
/// none is given for it.
pub proof fn a_phase_has_its_own_loss<L>(by_phase: Seq<(Phase, L)>, want: Phase, from: int)
    requires
        0 <= from <= by_phase.len(),
    ensures
        loss_in(by_phase, want, from) is None <==> (forall|i: int|
            from <= i < by_phase.len() ==> (#[trigger] by_phase[i]).0 != want),
        loss_in(by_phase, want, from) matches Some(loss) ==> exists|i: int|
            from <= i < by_phase.len() && (#[trigger] by_phase[i]) == (want, loss) && (forall|j: int|
                from <= j < i ==> (#[trigger] by_phase[j]).0 != want),
    decreases by_phase.len() - from,
{
    if from < by_phase.len() && by_phase[from].0 != want {
        a_phase_has_its_own_loss(by_phase, want, from + 1);
    } else if from < by_phase.len() {
        assert(by_phase[from] == (want, by_phase[from].1));
    }
}

/// What was lost in one phase.
fn find_loss<L: Copy>(by_phase: &Vec<(Phase, L)>, want: Phase) -> (r: Option<L>)
    ensures
        r == loss_in(by_phase@, want, 0),
{
    let mut i: usize = 0;
    while i < by_phase.len()
        invariant
            i <= by_phase.len(),
            loss_in(by_phase@, want, 0) == loss_in(by_phase@, want, i as int),
        decreases by_phase.len() - i,
    {
        if by_phase[i].0 == want {
            return Some(by_phase[i].1);
        }
        i += 1;
    }
    None
}

/// What was lost in the opening, in the middlegame and in the endgame.
pub fn phase_losses<L: Copy>(by_phase: &Vec<(Phase, L)>) -> (r: (Option<L>, Option<L>, Option<L>))
    ensures
        r.0 == loss_in(by_phase@, Phase::Opening, 0),
        r.1 == loss_in(by_phase@, Phase::Middlegame, 0),
        r.2 == loss_in(by_phase@, Phase::Endgame, 0),
{
    (
        find_loss(by_phase, Phase::Opening),
        find_loss(by_phase, Phase::Middlegame),
        find_loss(by_phase, Phase::Endgame),
    )
}

/// What the next game needs done.
#[derive(Debug, Clone, Copy, PartialEq, Eq, Structural)]
pub enum Todo {
    /// It is there already.
    Skip,
    Analyse,
}

/// What became of the games so far.
pub struct Import {
    /// How many of the player's games there are.
    pub total: usize,
    /// How many of them have been looked at.
    pub seen: usize,
    pub imported: usize,
    pub skipped: usize,
    pub failed: usize,
    pub learned: usize,
}

impl Import {
    /// Every game that has been looked at was imported, was there already, or could not be read.
    pub open spec fn adds_up(&self) -> bool {
        self.imported + self.skipped + self.failed == self.seen && self.seen <= self.total
    }

    /// Whether a game is being analysed: it has been looked at and has no result yet.
    pub open spec fn waits(&self) -> bool {
        self.imported + self.skipped + self.failed + 1 == self.seen && self.seen <= self.total
    }

    /// Nothing has been looked at.
    pub fn new(total: usize) -> (r: Import)
        ensures
            r == (Import { total, seen: 0, imported: 0, skipped: 0, failed: 0, learned: 0 }),
            r.adds_up(),
    {
        Import { total, seen: 0, imported: 0, skipped: 0, failed: 0, learned: 0 }
    }

    /// Look at the next game, which is there already or is not.
    pub fn next(&mut self, present: bool) -> (r: Todo)
        requires
            old(self).adds_up(),
            old(self).seen < old(self).total,
        ensures
            *final(self) == (Import {
                seen: (old(self).seen + 1) as usize,
                skipped: (old(self).skipped + (if present {
                    1int
                } else {
                    0
                })) as usize,
                ..*old(self)
            }),
            r == if present {
                Todo::Skip
            } else {
                Todo::Analyse
            },
            if present {
                final(self).adds_up()
            } else {
                final(self).waits()
            },
    {
        self.seen = self.seen + 1;
        if present {
            self.skipped = self.skipped + 1;
            Todo::Skip
        } else {
            Todo::Analyse
        }
    }

    /// Which game is being analysed.
    pub fn analysing(&self) -> (r: String)
        ensures
            r@ == "\r  analysing "@ + crate::text::decimal(self.seen as nat) + " of "@
                + crate::text::decimal(self.total as nat) + "…"@,
    {
        glue5(
            "\r  analysing ",
            number(self.seen as u64).as_str(),
            " of ",
            number(self.total as u64).as_str(),
            "…",
        )
    }

    /// The game could not be read, or held nothing to read.
    pub fn unreadable(&mut self)
        requires
            old(self).waits(),
        ensures
            *final(self) == (Import { failed: (old(self).failed + 1) as usize, ..*old(self) }),
            final(self).adds_up(),
    {
        self.failed = self.failed + 1;
    }

    /// The game was read, and so many of its positions are worth training.
    pub fn kept(&mut self, learned: usize)
        requires
            old(self).waits(),
            old(self).learned + learned <= usize::MAX,
        ensures
            *final(self) == (Import {
                imported: (old(self).imported + 1) as usize,
                learned: (old(self).learned + learned) as usize,
                ..*old(self)
            }),
            final(self).adds_up(),
    {
        self.imported = self.imported + 1;
        self.learned = self.learned + learned;
    }

    /// What became of the games, in words.
    pub open spec fn summary_lines(&self) -> Seq<Seq<char>> {
        seq![
            "\rimported "@ + crate::text::decimal(self.imported as nat) + ", already present "@
                + crate::text::decimal(self.skipped as nat) + ", unreadable "@
                + crate::text::decimal(self.failed as nat) + "          "@,
            crate::text::decimal(self.learned as nat)
                + " positions from your own mistakes are now in the trainer."@,
            "Run `omachess games` to see the trend."@,
        ]
    }

    /// What became of the games, in words.
    pub fn summary(&self) -> (r: Vec<String>)
        ensures
            crate::text::texts(r@) == self.summary_lines(),
    {
        let mut text = glue4(
            "\rimported ",
            number(self.imported as u64).as_str(),
            ", already present ",
            number(self.skipped as u64).as_str(),
        );
        text.append(", unreadable ");
        push_number(&mut text, self.failed as u64);
        text.append("          ");
        let mut lines = no_texts();
        put_text(&mut lines, text);
        put_text(
            &mut lines,
            crate::text::glue2(
                number(self.learned as u64).as_str(),
                " positions from your own mistakes are now in the trainer.",
            ),
        );
        put_text(&mut lines, "Run `omachess games` to see the trend.".to_owned());
        assert(crate::text::texts(lines@) =~= self.summary_lines());
        lines
    }
}

} // verus!
