//! What a chart says about the point under the pointer, and how it stands out.

use crate::text::{decimal, glue5, number};
use vstd::prelude::*;
use vstd::string::*;

verus! {

/// The point that the pointer is on.
pub struct Hover {
    pub at: Option<usize>,
}

impl Hover {
    /// The pointer is on nothing.
    pub fn new() -> (r: Hover)
        ensures
            r.at is None,
    {
        Hover { at: None }
    }

    /// The pointer moved. What comes back is whether the chart has to be drawn again.
    pub fn moved(&mut self, found: Option<usize>) -> (r: bool)
        ensures
            final(self).at == found,
            r == (old(self).at != found),
    {
        let same = match (self.at, found) {
            (Some(a), Some(b)) => a == b,
            (None, None) => true,
            _ => false,
        };
        self.at = found;
        !same
    }

    /// The pointer left. What comes back is whether the chart has to be drawn again.
    pub fn left(&mut self) -> (r: bool)
        ensures
            final(self).at is None,
            r == (old(self).at is Some),
    {
        let was = self.at.is_some();
        self.at = None;
        was
    }

    /// How a point stands out.
    pub fn emphasis(&self, index: usize) -> (r: Emphasis)
        ensures
            r == emphasis_of(self.at, index),
    {
        match self.at {
            Some(at) => {
                if at == index {
                    Emphasis::Focused
                } else {
                    Emphasis::Dimmed
                }
            },
            None => Emphasis::Plain,
        }
    }
}

/// How a point stands out from the others.
#[derive(Debug, Clone, Copy, PartialEq, Eq, Structural)]
pub enum Emphasis {
    Plain,
    Focused,
    Dimmed,
}

/// How a point stands out: the one under the pointer before all others, and none while there is
/// no such one.
pub open spec fn emphasis_of(at: Option<usize>, index: usize) -> Emphasis {
    match at {
        Some(at) => if at == index {
            Emphasis::Focused
        } else {
            Emphasis::Dimmed
        },
        None => Emphasis::Plain,
    }
}

/// One puzzle at most stands out, and only where one does are the others dimmed.
pub proof fn one_point_stands_out(at: Option<usize>, a: usize, b: usize)
    ensures
        emphasis_of(at, a) is Focused && emphasis_of(at, b) is Focused ==> a == b,
        emphasis_of(at, a) is Dimmed ==> at is Some && at != Some(a),
        at is None ==> emphasis_of(at, a) is Plain,
{
}

/// The point under the pointer stands out, and every other is dimmed while there is one.
pub proof fn the_point_under_the_pointer_stands_out(at: usize, index: usize)
    ensures
        emphasis_of(Some(at), at) == Emphasis::Focused,
        index != at ==> emphasis_of(Some(at), index) == Emphasis::Dimmed,
        emphasis_of(None, index) == Emphasis::Plain,
{
}

/// A puzzle's own numbers: its name, its band, its first and latest times in seconds, and how
/// often it was solved.
pub fn slope_label(id: &str, band: u32, first: &str, latest: &str, solves: u64) -> (r: String)
    ensures
        r@ == id@ + "  ·  band "@ + decimal(band as nat) + "  ·  "@ + first@ + "s → "@ + latest@
            + "s  ·  "@ + decimal(solves as nat) + " solves"@,
{
    let mut text = glue5(id, "  ·  band ", number(band as u64).as_str(), "  ·  ", first);
    text.append("s → ");
    text.append(latest);
    text.append("s  ·  ");
    text.append(number(solves).as_str());
    text.append(" solves");
    text
}

/// A point of a series: its place, counted from 1, its value, and the unit.
pub fn point_label(index: usize, value: &str, unit: &str) -> (r: String)
    requires
        index < usize::MAX,
    ensures
        r@ == "#"@ + decimal((index + 1) as nat) + "  "@ + value@ + unit@,
{
    glue5("#", number((index + 1) as u64).as_str(), "  ", value, unit)
}

} // verus!
