//! The command line: what was asked for, and what each command says.

use crate::text::{
    glue2, glue3, glue4, glue5, no_texts, number, push_number, put_text,
};
use vstd::prelude::*;
use vstd::string::*;

verus! {

/// What was asked for.
pub enum Command {
    Ingest(Option<String>),
    Status,
    Progress,
    Games,
    Doctor,
    Today,
    Export(Option<String>),
    Restore(Option<String>),
    ImportPgn(Option<String>, Option<String>),
    /// Open the window, with a game in the Study tab where one is named.
    Study(Option<String>),
    Help,
    /// Open the window.
    Window,
}

/// What a [`Command`] says.
pub enum CommandModel {
    Ingest(Option<Seq<char>>),
    Status,
    Progress,
    Games,
    Doctor,
    Today,
    Export(Option<Seq<char>>),
    Restore(Option<Seq<char>>),
    ImportPgn(Option<Seq<char>>, Option<Seq<char>>),
    Study(Option<Seq<char>>),
    Help,
    Window,
}

impl View for Command {
    type V = CommandModel;

    open spec fn view(&self) -> CommandModel {
        match *self {
            Command::Ingest(path) => CommandModel::Ingest(crate::text::opt_text(path)),
            Command::Status => CommandModel::Status,
            Command::Progress => CommandModel::Progress,
            Command::Games => CommandModel::Games,
            Command::Doctor => CommandModel::Doctor,
            Command::Today => CommandModel::Today,
            Command::Export(path) => CommandModel::Export(crate::text::opt_text(path)),
            Command::Restore(path) => CommandModel::Restore(crate::text::opt_text(path)),
            Command::ImportPgn(path, name) => CommandModel::ImportPgn(
                crate::text::opt_text(path),
                crate::text::opt_text(name),
            ),
            Command::Study(path) => CommandModel::Study(crate::text::opt_text(path)),
            Command::Help => CommandModel::Help,
            Command::Window => CommandModel::Window,
        }
    }
}

/// The argument at a place.
pub open spec fn argument(args: Seq<Seq<char>>, at: int) -> Option<Seq<char>> {
    if at < args.len() {
        Some(args[at])
    } else {
        None
    }
}

/// What the arguments ask for. A word that names no command opens the window.
pub open spec fn command_of(args: Seq<Seq<char>>) -> CommandModel {
    if args.len() == 0 {
        CommandModel::Window
    } else if args[0] == "ingest"@ {
        CommandModel::Ingest(argument(args, 1))
    } else if args[0] == "status"@ {
        CommandModel::Status
    } else if args[0] == "progress"@ {
        CommandModel::Progress
    } else if args[0] == "games"@ {
        CommandModel::Games
    } else if args[0] == "doctor"@ {
        CommandModel::Doctor
    } else if args[0] == "today"@ {
        CommandModel::Today
    } else if args[0] == "export"@ {
        CommandModel::Export(argument(args, 1))
    } else if args[0] == "restore"@ {
        CommandModel::Restore(argument(args, 1))
    } else if args[0] == "import-pgn"@ {
        CommandModel::ImportPgn(argument(args, 1), argument(args, 2))
    } else if args[0] == "study"@ {
        CommandModel::Study(argument(args, 1))
    } else if args[0] == "--help"@ || args[0] == "-h"@ {
        CommandModel::Help
    } else {
        CommandModel::Window
    }
}

/// A command is what its first word says, with the words behind it as its arguments in their order, and
/// a word that names no command opens the window, as no word at all does. Further words change nothing
/// of which command it is.
pub proof fn the_first_word_is_the_command(args: Seq<Seq<char>>)
    ensures
        args.len() == 0 ==> command_of(args) is Window,
        args.len() > 0 ==> {
            let word = args[0];
            let path = if args.len() > 1 {
                Some(args[1])
            } else {
                None
            };
            let name = if args.len() > 2 {
                Some(args[2])
            } else {
                None
            };
            &&& command_of(args) is Ingest <==> word == "ingest"@
            &&& command_of(args) is Status <==> word == "status"@
            &&& command_of(args) is Progress <==> word == "progress"@
            &&& command_of(args) is Games <==> word == "games"@
            &&& command_of(args) is Doctor <==> word == "doctor"@
            &&& command_of(args) is Today <==> word == "today"@
            &&& command_of(args) is Export <==> word == "export"@
            &&& command_of(args) is Restore <==> word == "restore"@
            &&& command_of(args) is ImportPgn <==> word == "import-pgn"@
            &&& command_of(args) is Study <==> word == "study"@
            &&& command_of(args) is Help <==> word == "--help"@ || word == "-h"@
            &&& command_of(args) matches CommandModel::Ingest(given) ==> given == path
            &&& command_of(args) matches CommandModel::Export(given) ==> given == path
            &&& command_of(args) matches CommandModel::Restore(given) ==> given == path
            &&& command_of(args) matches CommandModel::Study(given) ==> given == path
            &&& command_of(args) matches CommandModel::ImportPgn(given, of) ==> given == path && of
                == name
        },
{
    reveal_strlit("ingest");
    reveal_strlit("status");
    reveal_strlit("progress");
    reveal_strlit("games");
    reveal_strlit("doctor");
    reveal_strlit("today");
    reveal_strlit("export");
    reveal_strlit("restore");
    reveal_strlit("import-pgn");
    reveal_strlit("study");
    reveal_strlit("--help");
    reveal_strlit("-h");
    if args.len() > 0 {
        let word = args[0];
        assert("ingest"@.len() == 6 && "status"@.len() == 6 && "progress"@.len() == 8
            && "games"@.len() == 5 && "doctor"@.len() == 6 && "today"@.len() == 5
            && "export"@.len() == 6 && "restore"@.len() == 7 && "import-pgn"@.len() == 10
            && "study"@.len() == 5 && "--help"@.len() == 6 && "-h"@.len() == 2);
        assert("ingest"@[0] == 'i' && "status"@[0] == 's' && "games"@[0] == 'g' && "doctor"@[0]
            == 'd' && "today"@[0] == 't' && "export"@[0] == 'e' && "study"@[0] == 's'
            && "--help"@[0] == '-');
    }
}

/// Whether a string is a word.
fn is_word(text: &String, word: &str) -> (r: bool)
    ensures
        r == (text@ == word@),
{
    *text == word.to_owned()
}

/// The argument at a place.
fn argument_at(args: &Vec<String>, at: usize) -> (r: Option<String>)
    ensures
        crate::text::opt_text(r) == argument(crate::text::texts(args@), at as int),
{
    if at < args.len() {
        Some(args[at].clone())
    } else {
        None
    }
}

/// What the arguments ask for.
pub fn parse_command(args: &Vec<String>) -> (r: Command)
    ensures
        r@ == command_of(crate::text::texts(args@)),
{
    if args.len() == 0 {
        return Command::Window;
    }
    let word = &args[0];
    if is_word(word, "ingest") {
        Command::Ingest(argument_at(args, 1))
    } else if is_word(word, "status") {
        Command::Status
    } else if is_word(word, "progress") {
        Command::Progress
    } else if is_word(word, "games") {
        Command::Games
    } else if is_word(word, "doctor") {
        Command::Doctor
    } else if is_word(word, "today") {
        Command::Today
    } else if is_word(word, "export") {
        Command::Export(argument_at(args, 1))
    } else if is_word(word, "restore") {
        Command::Restore(argument_at(args, 1))
    } else if is_word(word, "import-pgn") {
        Command::ImportPgn(argument_at(args, 1), argument_at(args, 2))
    } else if is_word(word, "study") {
        Command::Study(argument_at(args, 1))
    } else if is_word(word, "--help") || is_word(word, "-h") {
        Command::Help
    } else {
        Command::Window
    }
}

/// How the program is used. Puzzles below `floor` are not loaded, and `url` is where the puzzles
/// can be had.
pub fn usage(floor: u32, url: &str) -> (r: String)
    ensures
        r@ == "omachess — chess study for Omarchy

USAGE:
    omachess                 Open the trainer
    omachess ingest <FILE>   Load lichess_db_puzzle.csv.zst (puzzles rated "@
            + crate::text::decimal(floor as nat)
            + "+)
    omachess status          Report what is stored
    omachess progress        Show the time-to-solve trend per rating band
    omachess games           Show how well you have been playing the engine
    omachess today           What to train now, and the measurement behind it
    omachess doctor          Faults recorded, and the raw data behind training
    omachess export <FILE>   Write your history to a file you can keep
    omachess restore <FILE>  Merge a history file back in
    omachess study <FILE>    Open a PGN in the Study tab and step through it
    omachess import-pgn <FILE> [NAME]
                             Analyse your own games from a PGN export. NAME is
                             your username in the file; it is remembered.

The puzzle export is CC0 and lives at
    "@
            + url@ + "\n"@,
{
    glue5(
        "omachess — chess study for Omarchy

USAGE:
    omachess                 Open the trainer
    omachess ingest <FILE>   Load lichess_db_puzzle.csv.zst (puzzles rated ",
        number(floor as u64).as_str(),
        "+)
    omachess status          Report what is stored
    omachess progress        Show the time-to-solve trend per rating band
    omachess games           Show how well you have been playing the engine
    omachess today           What to train now, and the measurement behind it
    omachess doctor          Faults recorded, and the raw data behind training
    omachess export <FILE>   Write your history to a file you can keep
    omachess restore <FILE>  Merge a history file back in
    omachess study <FILE>    Open a PGN in the Study tab and step through it
    omachess import-pgn <FILE> [NAME]
                             Analyse your own games from a PGN export. NAME is
                             your username in the file; it is remembered.

The puzzle export is CC0 and lives at
    ",
        url,
        "\n",
    )
}

/// A path that a command cannot do without: the path, or how the command is used.
pub open spec fn needed_path(path: Option<Seq<char>>, form: Seq<char>) -> Result<
    Seq<char>,
    Seq<char>,
> {
    match path {
        Some(path) => Ok(path),
        None => Err("usage: omachess "@ + form),
    }
}

/// A command that cannot do without a path has the very path it was given, and otherwise says how it is
/// used.
pub proof fn a_missing_path_says_how_the_command_is_used(path: Option<Seq<char>>, form: Seq<char>)
    ensures
        path matches Some(given) ==> needed_path(path, form) == Ok::<Seq<char>, Seq<char>>(given),
        path is None ==> needed_path(path, form) == Err::<Seq<char>, Seq<char>>(
            "usage: omachess "@ + form,
        ),
{
}

/// What a result of two strings holds.
pub open spec fn result_text(result: Result<String, String>) -> Result<Seq<char>, Seq<char>> {
    match result {
        Ok(text) => Ok(text@),
        Err(text) => Err(text@),
    }
}

/// A path that a command cannot do without.
fn need_path(path: Option<String>, form: &str) -> (r: Result<String, String>)
    ensures
        result_text(r) == needed_path(crate::text::opt_text(path), form@),
{
    match path {
        Some(path) => Ok(path),
        None => Err(glue2("usage: omachess ", form)),
    }
}

/// The file to load puzzles from.
pub fn ingest_path(path: Option<String>) -> (r: Result<String, String>)
    ensures
        result_text(r) == needed_path(
            crate::text::opt_text(path),
            "ingest <lichess_db_puzzle.csv.zst>"@,
        ),
{
    need_path(path, "ingest <lichess_db_puzzle.csv.zst>")
}

/// The file to write the history to.
pub fn export_path(path: Option<String>) -> (r: Result<String, String>)
    ensures
        result_text(r) == needed_path(crate::text::opt_text(path), "export <file.json>"@),
{
    need_path(path, "export <file.json>")
}

/// The file to merge the history from.
pub fn restore_path(path: Option<String>) -> (r: Result<String, String>)
    ensures
        result_text(r) == needed_path(crate::text::opt_text(path), "restore <file.json>"@),
{
    need_path(path, "restore <file.json>")
}

/// The file to read games from.
pub fn import_path(path: Option<String>) -> (r: Result<String, String>)
    ensures
        result_text(r) == needed_path(
            crate::text::opt_text(path),
            "import-pgn <file.pgn> [your name in the file]"@,
        ),
{
    need_path(path, "import-pgn <file.pgn> [your name in the file]")
}

/// How long the count of puzzles stands before it is written again, so that a fast disk does not
/// turn the terminal into a flipbook.
pub const INGEST_TICK_MS: u64 = 500;

/// The count while puzzles are being loaded; there is none to write until the last one has stood
/// long enough.
pub fn ingest_progress(elapsed_ms: u64, read: u64, kept: u64) -> (r: Option<String>)
    ensures
        crate::text::opt_text(r) == if elapsed_ms >= 500 {
            Some(
                "\r  "@ + crate::text::decimal(read as nat) + " read, "@ + crate::text::decimal(
                    kept as nat,
                ) + " kept…"@,
            )
        } else {
            None
        },
{
    if elapsed_ms >= INGEST_TICK_MS {
        Some(glue5("\r  ", number(read).as_str(), " read, ", number(kept).as_str(), " kept…"))
    } else {
        None
    }
}

/// What became of a file of puzzles.
pub struct Ingested {
    pub read: u64,
    pub kept: u64,
    pub below_floor: u64,
    pub malformed: u64,
    /// How many puzzles there are now.
    pub stored: u64,
}

/// What became of a file of puzzles, in words.
pub open spec fn ingest_lines(report: Ingested, floor: nat, database: Seq<char>) -> Seq<Seq<char>> {
    seq![
        "Read "@ + crate::text::decimal(report.read as nat) + " rows: kept "@
            + crate::text::decimal(report.kept as nat) + ", below "@ + crate::text::decimal(floor)
            + " "@ + crate::text::decimal(report.below_floor as nat) + ", unusable "@
            + crate::text::decimal(report.malformed as nat) + "."@,
        crate::text::decimal(report.stored as nat) + " puzzles stored at "@ + database,
    ]
}

/// What became of a file of puzzles, in words.
pub fn ingest_report(report: &Ingested, floor: u32, database: &str) -> (r: Vec<String>)
    ensures
        crate::text::texts(r@) == ingest_lines(*report, floor as nat, database@),
{
    let mut text = glue5(
        "Read ",
        number(report.read).as_str(),
        " rows: kept ",
        number(report.kept).as_str(),
        ", below ",
    );
    push_number(&mut text, floor as u64);
    text.append(" ");
    push_number(&mut text, report.below_floor);
    text.append(", unusable ");
    push_number(&mut text, report.malformed);
    text.append(".");
    let mut lines = no_texts();
    put_text(&mut lines, text);
    put_text(
        &mut lines,
        glue3(number(report.stored).as_str(), " puzzles stored at ", database),
    );
    assert(crate::text::texts(lines@) =~= ingest_lines(*report, floor as nat, database@));
    lines
}

/// What is stored.
pub struct Status {
    pub database: String,
    /// Whether this is the profile for development.
    pub dev: bool,
    pub puzzles: u64,
    pub due: u64,
    pub rating: String,
    /// The name of the piece set, where one is installed.
    pub pieces: Option<String>,
}

/// What is stored, in words.
pub open spec fn status_lines(status: Status) -> Seq<Seq<char>> {
    seq![
        "database   "@ + status.database@,
        "profile    "@ + (if status.dev {
            "dev"@
        } else {
            "default"@
        }),
        "puzzles    "@ + crate::text::decimal(status.puzzles as nat),
        "due now    "@ + crate::text::decimal(status.due as nat),
        "rating     "@ + status.rating@,
        match status.pieces {
            Some(name) => "pieces     "@ + name@,
            None => "pieces     none installed (using glyphs)"@,
        },
    ]
}

/// What is stored, in words.
pub fn status_report(status: &Status) -> (r: Vec<String>)
    ensures
        crate::text::texts(r@) == status_lines(*status),
{
    let profile = if status.dev {
        "dev"
    } else {
        "default"
    };
    let pieces = match &status.pieces {
        Some(name) => glue2("pieces     ", name.as_str()),
        None => "pieces     none installed (using glyphs)".to_owned(),
    };
    let mut lines = no_texts();
    put_text(&mut lines, glue2("database   ", status.database.as_str()));
    put_text(&mut lines, glue2("profile    ", profile));
    put_text(&mut lines, glue2("puzzles    ", number(status.puzzles).as_str()));
    put_text(&mut lines, glue2("due now    ", number(status.due).as_str()));
    put_text(&mut lines, glue2("rating     ", status.rating.as_str()));
    put_text(&mut lines, pieces);
    assert(crate::text::texts(lines@) =~= status_lines(*status));
    lines
}

/// What was written where.
pub fn export_report(bytes: u64, path: &str) -> (r: String)
    ensures
        r@ == "Wrote "@ + crate::text::decimal((bytes / 1024) as nat) + " KB to "@ + path@
            + "\nPuzzles can be downloaded again; this cannot. Keep it somewhere else."@,
{
    glue5(
        "Wrote ",
        number(bytes / 1024).as_str(),
        " KB to ",
        path,
        "\nPuzzles can be downloaded again; this cannot. Keep it somewhere else.",
    )
}

/// What became of a history file.
pub struct Restored {
    pub attempts_added: u64,
    pub attempts_skipped: u64,
    pub cards_written: u64,
    pub games_added: u64,
    pub games_skipped: u64,
    pub settings_written: u64,
}

/// What became of a history file, in words.
pub open spec fn restore_text(report: Restored) -> Seq<char> {
    "attempts  "@ + crate::text::decimal(report.attempts_added as nat) + " added, "@
        + crate::text::decimal(report.attempts_skipped as nat) + " already present\ncards     "@
        + crate::text::decimal(report.cards_written as nat) + " written\ngames     "@
        + crate::text::decimal(report.games_added as nat) + " added, "@ + crate::text::decimal(
        report.games_skipped as nat,
    ) + " already present\nsettings  "@ + crate::text::decimal(report.settings_written as nat)
        + " written"@
}

/// What became of a history file, in words.
pub fn restore_report(report: &Restored) -> (r: String)
    ensures
        r@ == restore_text(*report),
{
    let mut text = glue4(
        "attempts  ",
        number(report.attempts_added).as_str(),
        " added, ",
        number(report.attempts_skipped).as_str(),
    );
    text.append(" already present\ncards     ");
    push_number(&mut text, report.cards_written);
    text.append(" written\ngames     ");
    push_number(&mut text, report.games_added);
    text.append(" added, ");
    push_number(&mut text, report.games_skipped);
    text.append(" already present\nsettings  ");
    push_number(&mut text, report.settings_written);
    text.append(" written");
    text
}

} // verus!
