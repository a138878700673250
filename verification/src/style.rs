//! Where stylesheets are looked for.
//!
//! A user's sheets are layered over the built-in one, so a generated theme template can override
//! the board without touching the program.

use vstd::prelude::*;
use vstd::string::*;

verus! {

/// A path below a directory.
pub open spec fn below(dir: Seq<char>, path: Seq<char>) -> Seq<char> {
    if dir.len() == 0 {
        path
    } else if dir.last() == '/' {
        dir + path
    } else {
        dir + "/"@ + path
    }
}

/// A path below a directory.
pub fn join_path(dir: &str, path: &str) -> (r: String)
    requires
        path@.len() > 0,
        path@[0] != '/',
    ensures
        r@ == below(dir@, path@),
{
    let len = dir.unicode_len();
    if len == 0 {
        path.to_owned()
    } else if dir.get_char(len - 1) == '/' {
        crate::text::glue2(dir, path)
    } else {
        crate::text::glue3(dir, "/", path)
    }
}

/// The sheet that the desktop's theme provides.
pub open spec fn theme_sheet(home: Seq<char>) -> Seq<char> {
    below(home, ".local/state/omarchy/current/theme/omachess.css"@)
}

/// The sheet that the user wrote: below the configuration directory where one is named, and below
/// the home directory's own otherwise.
pub open spec fn user_sheet(
    config: Option<Seq<char>>,
    home: Option<Seq<char>>,
) -> Option<Seq<char>> {
    match (config, home) {
        (Some(dir), _) if dir.len() > 0 => Some(below(dir, "omachess/omachess.css"@)),
        (_, Some(home)) => Some(below(below(home, ".config"@), "omachess/omachess.css"@)),
        (_, None) => None,
    }
}

/// The sheets to be layered over the built-in one, in increasing precedence.
pub open spec fn sheets(config: Option<Seq<char>>, home: Option<Seq<char>>) -> Seq<Seq<char>> {
    let themed = match home {
        Some(home) => seq![theme_sheet(home)],
        None => Seq::empty(),
    };
    match user_sheet(config, home) {
        Some(path) => themed.push(path),
        None => themed,
    }
}

/// What an optional borrowed text holds.
pub open spec fn opt_str(text: Option<&str>) -> Option<Seq<char>> {
    match text {
        Some(text) => Some(text@),
        None => None,
    }
}

/// The user's own sheet, where it would stand.
fn user_stylesheet(config: Option<&str>, home: Option<&str>) -> (r: Option<String>)
    ensures
        crate::text::opt_text(r) == user_sheet(opt_str(config), opt_str(home)),
{
    proof {
        reveal_strlit(".config");
        reveal_strlit("omachess/omachess.css");
    }
    match config {
        Some(dir) => {
            if dir.unicode_len() > 0 {
                return Some(join_path(dir, "omachess/omachess.css"));
            }
        },
        None => {},
    }
    match home {
        Some(home) => Some(
            join_path(join_path(home, ".config").as_str(), "omachess/omachess.css"),
        ),
        None => None,
    }
}

/// The sheets to be layered over the built-in one, in increasing precedence, wherever they exist.
/// An explicit file under the configuration directory wins over the theme's.
pub fn overrides(config: Option<&str>, home: Option<&str>) -> (r: Vec<String>)
    ensures
        crate::text::texts(r@) == sheets(opt_str(config), opt_str(home)),
{
    proof {
        reveal_strlit(".local/state/omarchy/current/theme/omachess.css");
    }
    let mut paths: Vec<String> = Vec::new();
    match home {
        Some(home) => paths.push(
            join_path(home, ".local/state/omarchy/current/theme/omachess.css"),
        ),
        None => {},
    }
    match user_stylesheet(config, home) {
        Some(path) => paths.push(path),
        None => {},
    }
    assert(crate::text::texts(paths@) =~= sheets(opt_str(config), opt_str(home)));
    paths
}

/// The sheet below the configuration directory is taken where one is named, and the one below the home
/// directory otherwise. The theme's sheet is looked for exactly where there is a home directory, and
/// before the user's. With neither directory nothing is looked for.
pub proof fn sheets_are_looked_for_in_order(config: Option<Seq<char>>, home: Option<Seq<char>>)
    ensures
        config is None && home is None ==> sheets(config, home).len() == 0,
        home matches Some(dir) ==> sheets(config, home).len() == 2 && sheets(config, home)[0]
            == below(dir, ".local/state/omarchy/current/theme/omachess.css"@),
        config matches Some(dir) ==> dir.len() > 0 ==> user_sheet(config, home) == Some(
            below(dir, "omachess/omachess.css"@),
        ),
        (config matches Some(dir) ==> dir.len() == 0) ==> (home matches Some(dir) ==> user_sheet(
            config,
            home,
        ) == Some(below(below(dir, ".config"@), "omachess/omachess.css"@))),
{
}

/// A path below a directory is that directory, one separator and the path, whether or not the
/// directory is written with one at its end.
pub proof fn one_separator_stands_between(dir: Seq<char>, path: Seq<char>)
    requires
        dir.len() > 0,
        dir.last() != '/',
    ensures
        below(dir, path) == dir + "/"@ + path,
        below(dir.push('/'), path) == below(dir, path),
        below(Seq::empty(), path) == path,
{
    reveal_strlit("/");
    assert(dir.push('/') + path =~= dir + "/"@ + path);
}

/// The user's own sheet wins over the theme's: where both are looked for, it comes last.
pub proof fn the_users_sheet_comes_last(config: Option<Seq<char>>, home: Option<Seq<char>>)
    ensures
        user_sheet(config, home) matches Some(path) ==> sheets(config, home).len() > 0 && sheets(
            config,
            home,
        ).last() == path,
{
}

} // verus!
