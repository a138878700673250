//! Stating a number so it reads as one.
//!
//! These are the shapes a figure is allowed to take. They live in one place because the
//! alternative, each panel growing its own, is how the same label ends up written three different
//! ways, and how prose comes back.

use vstd::prelude::*;
use vstd::string::*;

verus! {

/// How a line of text is set.
#[derive(Debug, Clone, Copy, PartialEq, Eq, Structural)]
pub enum Setting {
    /// A section's title.
    Title,
    /// A short line saying what a figure is measured against.
    Caption,
    /// One line of figures, monospaced with tabular digits so columns line up down the page.
    Stat,
}

/// The style class of a setting.
pub open spec fn setting_class(setting: Setting) -> Seq<char> {
    match setting {
        Setting::Title => "title-4"@,
        Setting::Caption => "dim-label"@,
        Setting::Stat => "omachess-stat"@,
    }
}

impl Setting {
    /// The style class of a setting.
    pub fn css(self) -> (r: &'static str)
        ensures
            r@ == setting_class(self),
    {
        match self {
            Setting::Title => "title-4",
            Setting::Caption => "dim-label",
            Setting::Stat => "omachess-stat",
        }
    }
}

/// A line of text and how it is set.
pub struct Line {
    pub setting: Setting,
    pub text: String,
}

/// One line of figures.
pub fn stat_line(text: &str) -> (r: Line)
    ensures
        r.setting == Setting::Stat,
        r.text@ == text@,
{
    Line { setting: Setting::Stat, text: text.to_owned() }
}

/// A section's title.
pub fn section_title(text: &str) -> (r: Line)
    ensures
        r.setting == Setting::Title,
        r.text@ == text@,
{
    Line { setting: Setting::Title, text: text.to_owned() }
}

/// At most a short line saying what a figure is measured against. Never an explanation of what it
/// means: that belongs in the manual, not beside every number.
pub fn caption(text: &str) -> (r: Line)
    ensures
        r.setting == Setting::Caption,
        r.text@ == text@,
{
    Line { setting: Setting::Caption, text: text.to_owned() }
}

/// Which way a change goes.
#[derive(Debug, Clone, Copy, PartialEq, Eq, Structural)]
pub enum Trend {
    Improving,
    Slowing,
}

/// The style class of a trend.
pub open spec fn trend_class(trend: Trend) -> Seq<char> {
    match trend {
        Trend::Improving => "improving"@,
        Trend::Slowing => "slowing"@,
    }
}

impl Trend {
    /// The style class of a trend.
    pub fn css(self) -> (r: &'static str)
        ensures
            r@ == trend_class(self),
    {
        match self {
            Trend::Improving => "improving",
            Trend::Slowing => "slowing",
        }
    }
}

/// Which way a signed change goes: down where a minus sign stands in front of it.
pub open spec fn trend_of(delta: Seq<char>) -> Trend {
    if delta.len() > 0 && delta[0] == '-' {
        Trend::Slowing
    } else {
        Trend::Improving
    }
}

/// A headline number with its name above it, and an optional signed change.
pub struct Tile {
    pub name: String,
    pub value: String,
    pub change: Option<(String, Trend)>,
}

/// What a [`Tile`] says.
pub struct TileModel {
    pub name: Seq<char>,
    pub value: Seq<char>,
    pub change: Option<(Seq<char>, Trend)>,
}

impl View for Tile {
    type V = TileModel;

    open spec fn view(&self) -> TileModel {
        TileModel {
            name: self.name@,
            value: self.value@,
            change: match self.change {
                Some((delta, trend)) => Some((delta@, trend)),
                None => None,
            },
        }
    }
}

/// A tile of a name, a value and a change.
pub open spec fn tile_of(
    name: Seq<char>,
    value: Seq<char>,
    delta: Option<Seq<char>>,
) -> TileModel {
    TileModel {
        name,
        value,
        change: match delta {
            Some(delta) => Some((delta, trend_of(delta))),
            None => None,
        },
    }
}

/// What improves is coloured as improving and what slows as slowing; and each way of setting a text
/// has a class of its own.
pub proof fn a_class_fits_what_it_colours(trend: Trend, setting: Setting)
    ensures
        trend_class(trend) == "improving"@ <==> trend == Trend::Improving,
        trend_class(trend) == "slowing"@ <==> trend == Trend::Slowing,
        setting_class(setting) == "title-4"@ <==> setting == Setting::Title,
        setting_class(setting) == "dim-label"@ <==> setting == Setting::Caption,
        setting_class(setting) == "omachess-stat"@ <==> setting == Setting::Stat,
{
    reveal_strlit("improving");
    reveal_strlit("slowing");
    reveal_strlit("title-4");
    reveal_strlit("dim-label");
    reveal_strlit("omachess-stat");
    assert("improving"@.len() == 9 && "slowing"@.len() == 7);
    assert("title-4"@.len() == 7 && "dim-label"@.len() == 9 && "omachess-stat"@.len() == 13);
}

/// A change is coloured as a setback exactly where it is negative, and a tile shows its own name,
/// value and change, with none where there is none.
pub proof fn a_tile_shows_its_change(
    name: Seq<char>,
    value: Seq<char>,
    delta: Option<Seq<char>>,
    n: int,
)
    ensures
        tile_of(name, value, delta).name == name,
        tile_of(name, value, delta).value == value,
        delta is None <==> tile_of(name, value, delta).change is None,
        delta matches Some(text) ==> tile_of(name, value, delta).change == Some(
            (text, trend_of(text)),
        ),
        trend_of(crate::text::signed(n)) == Trend::Slowing <==> n < 0,
        trend_of("+"@ + value) == Trend::Improving,
        trend_of("-"@ + value) == Trend::Slowing,
{
    reveal_strlit("+");
    reveal_strlit("-");
    assert(("+"@ + value)[0] == '+');
    assert(("-"@ + value)[0] == '-');
    if n >= 0 {
        crate::text::a_number_begins_with_a_digit(n as nat);
    }
}

/// A headline number with its name above it, and an optional signed change.
pub fn tile(name: &str, value: &str, delta: Option<String>) -> (r: Tile)
    ensures
        r@ == tile_of(name@, value@, crate::text::opt_text(delta)),
{
    let change = match delta {
        Some(delta) => {
            let down = delta.as_str().unicode_len() > 0 && delta.as_str().get_char(0) == '-';
            let trend = if down {
                Trend::Slowing
            } else {
                Trend::Improving
            };
            Some((delta, trend))
        },
        None => None,
    };
    Tile { name: name.to_owned(), value: value.to_owned(), change }
}

/// What each of some tiles says.
pub open spec fn tile_models(cells: Seq<Tile>) -> Seq<TileModel> {
    Seq::new(cells.len(), |i: int| cells[i]@)
}

} // verus!
