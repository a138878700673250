//! The window: its tabs, what opening one brings up to date, and what is said at the start.

use crate::text::{glue2, glue3};
use vstd::prelude::*;
use vstd::string::*;

verus! {

/// The tabs, in their order.
#[derive(Debug, Clone, Copy, PartialEq, Eq, Structural)]
pub enum Tab {
    Train,
    Play,
    Drill,
    Endgames,
    Study,
    Progress,
}

/// A tab's name, which it is found by.
pub open spec fn tab_name(tab: Tab) -> Seq<char> {
    match tab {
        Tab::Train => "train"@,
        Tab::Play => "play"@,
        Tab::Drill => "drill"@,
        Tab::Endgames => "endgames"@,
        Tab::Study => "study"@,
        Tab::Progress => "progress"@,
    }
}

/// A tab's title, which it is read by.
pub open spec fn tab_title(tab: Tab) -> Seq<char> {
    match tab {
        Tab::Train => "Train"@,
        Tab::Play => "Play"@,
        Tab::Drill => "Drill"@,
        Tab::Endgames => "Endgames"@,
        Tab::Study => "Study"@,
        Tab::Progress => "Progress"@,
    }
}

/// A tab's icon.
pub open spec fn tab_icon(tab: Tab) -> Seq<char> {
    match tab {
        Tab::Train => "applications-games-symbolic"@,
        Tab::Play => "media-playback-start-symbolic"@,
        Tab::Drill => "media-playlist-repeat-symbolic"@,
        Tab::Endgames => "view-grid-symbolic"@,
        Tab::Study => "accessories-text-editor-symbolic"@,
        Tab::Progress => "utilities-system-monitor-symbolic"@,
    }
}

impl Tab {
    /// A tab's name.
    pub fn name(self) -> (r: &'static str)
        ensures
            r@ == tab_name(self),
    {
        match self {
            Tab::Train => "train",
            Tab::Play => "play",
            Tab::Drill => "drill",
            Tab::Endgames => "endgames",
            Tab::Study => "study",
            Tab::Progress => "progress",
        }
    }

    /// A tab's title.
    pub fn title(self) -> (r: &'static str)
        ensures
            r@ == tab_title(self),
    {
        match self {
            Tab::Train => "Train",
            Tab::Play => "Play",
            Tab::Drill => "Drill",
            Tab::Endgames => "Endgames",
            Tab::Study => "Study",
            Tab::Progress => "Progress",
        }
    }

    /// A tab's icon.
    pub fn icon(self) -> (r: &'static str)
        ensures
            r@ == tab_icon(self),
    {
        match self {
            Tab::Train => "applications-games-symbolic",
            Tab::Play => "media-playback-start-symbolic",
            Tab::Drill => "media-playlist-repeat-symbolic",
            Tab::Endgames => "view-grid-symbolic",
            Tab::Study => "accessories-text-editor-symbolic",
            Tab::Progress => "utilities-system-monitor-symbolic",
        }
    }
}

/// The tabs, in their order.
pub open spec fn tab_order() -> Seq<Tab> {
    seq![Tab::Train, Tab::Play, Tab::Drill, Tab::Endgames, Tab::Study, Tab::Progress]
}

/// The tabs, in their order.
pub fn tabs() -> (r: Vec<Tab>)
    ensures
        r@ == tab_order(),
{
    let mut list: Vec<Tab> = Vec::new();
    list.push(Tab::Train);
    list.push(Tab::Play);
    list.push(Tab::Drill);
    list.push(Tab::Endgames);
    list.push(Tab::Study);
    list.push(Tab::Progress);
    assert(list@ =~= tab_order());
    list
}

/// What opening a tab brings up to date.
#[derive(Debug, Clone, Copy, PartialEq, Eq, Structural)]
pub enum Refresh {
    Nothing,
    /// The report, which only means anything once solves exist.
    Report,
    /// Which openings are worth drilling, which depends on games that may have been played since.
    Openings,
    /// What is worth replaying, which changes with every game imported or lost.
    Drills,
}

/// What opening a tab brings up to date.
pub open spec fn refresh_of(tab: Tab) -> Refresh {
    match tab {
        Tab::Progress => Refresh::Report,
        Tab::Play => Refresh::Openings,
        Tab::Drill => Refresh::Drills,
        _ => Refresh::Nothing,
    }
}

/// No two tabs share a name, so that a tab is found by it.
pub proof fn tabs_have_their_own_names(a: Tab, b: Tab)
    ensures
        tab_name(a) == tab_name(b) ==> a == b,
{
    reveal_strlit("train");
    reveal_strlit("play");
    reveal_strlit("drill");
    reveal_strlit("endgames");
    reveal_strlit("study");
    reveal_strlit("progress");
    let x = tab_name(a);
    let y = tab_name(b);
    assert(x.len() == y.len() && x[0] == y[0] || x != y);
}

/// A tab is found by its own name, and is read by the same word with a capital; each has its own
/// icon.
pub proof fn a_tab_is_called_what_it_is(tab: Tab)
    ensures
        tab_name(tab) == "train"@ <==> tab == Tab::Train,
        tab_name(tab) == "play"@ <==> tab == Tab::Play,
        tab_name(tab) == "drill"@ <==> tab == Tab::Drill,
        tab_name(tab) == "endgames"@ <==> tab == Tab::Endgames,
        tab_name(tab) == "study"@ <==> tab == Tab::Study,
        tab_name(tab) == "progress"@ <==> tab == Tab::Progress,
        tab_title(tab).len() == tab_name(tab).len(),
        tab_title(tab)[0] as int == tab_name(tab)[0] as int - 32,
        forall|i: int|
            0 < i < tab_name(tab).len() ==> #[trigger] tab_title(tab)[i] == tab_name(tab)[i],
        tab_icon(tab) == "applications-games-symbolic"@ <==> tab == Tab::Train,
        tab_icon(tab) == "media-playback-start-symbolic"@ <==> tab == Tab::Play,
        tab_icon(tab) == "media-playlist-repeat-symbolic"@ <==> tab == Tab::Drill,
        tab_icon(tab) == "view-grid-symbolic"@ <==> tab == Tab::Endgames,
        tab_icon(tab) == "accessories-text-editor-symbolic"@ <==> tab == Tab::Study,
        tab_icon(tab) == "utilities-system-monitor-symbolic"@ <==> tab == Tab::Progress,
{
    reveal_strlit("train");
    reveal_strlit("play");
    reveal_strlit("drill");
    reveal_strlit("endgames");
    reveal_strlit("study");
    reveal_strlit("progress");
    reveal_strlit("Train");
    reveal_strlit("Play");
    reveal_strlit("Drill");
    reveal_strlit("Endgames");
    reveal_strlit("Study");
    reveal_strlit("Progress");
    reveal_strlit("applications-games-symbolic");
    reveal_strlit("media-playback-start-symbolic");
    reveal_strlit("media-playlist-repeat-symbolic");
    reveal_strlit("view-grid-symbolic");
    reveal_strlit("accessories-text-editor-symbolic");
    reveal_strlit("utilities-system-monitor-symbolic");
    assert("train"@[0] == 't' && "drill"@[0] == 'd' && "study"@[0] == 's' && "play"@[0] == 'p');
    assert("endgames"@[0] == 'e' && "progress"@[0] == 'p' && "progress"@.len() == 8
        && "play"@.len() == 4);
    assert("applications-games-symbolic"@.len() == 27);
    assert("media-playback-start-symbolic"@.len() == 29);
    assert("media-playlist-repeat-symbolic"@.len() == 30);
    assert("view-grid-symbolic"@.len() == 18);
    assert("accessories-text-editor-symbolic"@.len() == 32);
    assert("utilities-system-monitor-symbolic"@.len() == 33);
}

/// Every tab is in the row exactly once, and opening one brings up to date what it shows: the report,
/// the openings or the drills where it shows one of those, and nothing for the others.
pub proof fn opening_a_tab_brings_it_up_to_date(tab: Tab)
    ensures
        tab_order().contains(tab),
        tab_order().len() == 6,
        tab_order().no_duplicates(),
        refresh_of(tab) == Refresh::Report <==> tab == Tab::Progress,
        refresh_of(tab) == Refresh::Drills <==> tab == Tab::Drill,
        refresh_of(tab) == Refresh::Openings <==> tab == Tab::Play,
{
    let row = tab_order();
    assert(row[0] == Tab::Train && row[1] == Tab::Play && row[2] == Tab::Drill && row[3]
        == Tab::Endgames && row[4] == Tab::Study && row[5] == Tab::Progress);
}

/// What opening the tab of some name brings up to date.
pub fn tab_opened(name: Option<&str>) -> (r: Refresh)
    ensures
        forall|tab: Tab|
            crate::style::opt_str(name) == Some(#[trigger] tab_name(tab)) ==> r == refresh_of(tab),
        (forall|tab: Tab| crate::style::opt_str(name) != Some(#[trigger] tab_name(tab))) ==> r
            == Refresh::Nothing,
{
    proof {
        assert forall|a: Tab, b: Tab| #[trigger] tab_name(a) == #[trigger] tab_name(b) implies a
            == b by {
            tabs_have_their_own_names(a, b);
        }
    }
    match name {
        Some(name) => {
            let name = name.to_owned();
            if name == Tab::Progress.name().to_owned() {
                Refresh::Report
            } else if name == Tab::Play.name().to_owned() {
                Refresh::Openings
            } else if name == Tab::Drill.name().to_owned() {
                Refresh::Drills
            } else {
                Refresh::Nothing
            }
        },
        None => Refresh::Nothing,
    }
}

/// Which tab is open at the start: the Study tab where a game was named, so that a game can be
/// handed over from a terminal or a file manager.
pub fn first_tab(study: bool) -> (r: Tab)
    ensures
        r == if study {
            Tab::Study
        } else {
            Tab::Train
        },
{
    if study {
        Tab::Study
    } else {
        Tab::Train
    }
}

/// What is said of the pieces at the start.
pub fn pieces_note(name: Option<&str>, dir: &str) -> (r: String)
    ensures
        r@ == match name {
            Some(name) => "omachess: piece set '"@ + name@ + "'"@,
            None => "omachess: no piece set in "@ + dir@ + " — using glyphs"@,
        },
{
    match name {
        Some(name) => glue3("omachess: piece set '", name, "'"),
        None => glue3("omachess: no piece set in ", dir, " — using glyphs"),
    }
}

/// What is said of the engine at the start.
pub fn engine_note(path: Option<&str>) -> (r: String)
    ensures
        r@ == match path {
            Some(path) => "omachess: engine "@ + path@,
            None => "omachess: no engine on PATH — play is unavailable"@,
        },
{
    match path {
        Some(path) => glue2("omachess: engine ", path),
        None => "omachess: no engine on PATH — play is unavailable".to_owned(),
    }
}

/// What is said of the sound at the start: nothing where there is any.
pub fn sound_note(audible: bool) -> (r: Option<&'static str>)
    ensures
        crate::style::opt_str(r) == if audible {
            None
        } else {
            Some("omachess: no audio player found — running silent"@)
        },
{
    if audible {
        None
    } else {
        Some("omachess: no audio player found — running silent")
    }
}

} // verus!
