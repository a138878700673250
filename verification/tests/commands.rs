use omachess::chess::Color;
use omachess::commands::{
    export_path, export_report, import_path, ingest_path, ingest_progress, ingest_report,
    parse_command, restore_path, restore_report, status_report, usage, Command, Ingested, Restored,
    Status,
};
use omachess::import::{
    drill_band, forgotten, found, mine, phase_losses, resolve_player, wants_reanalysis, Import,
    Phase, Todo,
};
use omachess::reports::{
    fault_report, games_report, plan_report, progress_report, sitting_halves, skill_report,
    ActivityCount, FaultRecord, FaultSummary, GameLine, GameTrend, Measured, PlanStep, Repeated,
    RepeatedBand, Sitting, UnseenBand, Weakness, WrongMove,
};

fn s(text: &str) -> String {
    text.to_owned()
}

fn args(list: &[&str]) -> Vec<String> {
    list.iter().map(|a| a.to_string()).collect()
}

#[test]
fn commands_are_found_by_their_first_word() {
    assert!(matches!(parse_command(&args(&[])), Command::Window));
    assert!(matches!(parse_command(&args(&["ingest"])), Command::Ingest(None)));
    assert!(matches!(parse_command(&args(&["ingest", "f"])), Command::Ingest(Some(p)) if p == "f"));
    assert!(matches!(parse_command(&args(&["status"])), Command::Status));
    assert!(matches!(parse_command(&args(&["progress"])), Command::Progress));
    assert!(matches!(parse_command(&args(&["games"])), Command::Games));
    assert!(matches!(parse_command(&args(&["doctor"])), Command::Doctor));
    assert!(matches!(parse_command(&args(&["today"])), Command::Today));
    assert!(matches!(parse_command(&args(&["export", "x"])), Command::Export(Some(_))));
    assert!(matches!(parse_command(&args(&["restore"])), Command::Restore(None)));
    assert!(matches!(
        parse_command(&args(&["import-pgn", "g.pgn", "me"])),
        Command::ImportPgn(Some(path), Some(name)) if path == "g.pgn" && name == "me"
    ));
    assert!(matches!(parse_command(&args(&["study", "g.pgn"])), Command::Study(Some(_))));
    assert!(matches!(parse_command(&args(&["-h"])), Command::Help));
    assert!(matches!(parse_command(&args(&["--help", "x"])), Command::Help));
    assert!(matches!(parse_command(&args(&["Status"])), Command::Window));
}

#[test]
fn a_command_without_its_file_says_how_it_is_used() {
    assert_eq!(ingest_path(None), Err(s("usage: omachess ingest <lichess_db_puzzle.csv.zst>")));
    assert_eq!(export_path(None), Err(s("usage: omachess export <file.json>")));
    assert_eq!(restore_path(None), Err(s("usage: omachess restore <file.json>")));
    assert_eq!(
        import_path(None),
        Err(s("usage: omachess import-pgn <file.pgn> [your name in the file]"))
    );
    assert_eq!(ingest_path(Some(s("p"))), Ok(s("p")));
    let help = usage(1100, "https://database.lichess.org/puzzles");
    assert!(help.starts_with("omachess — chess study for Omarchy\n\nUSAGE:\n"));
    assert!(help.contains("(puzzles rated 1100+)"));
    assert!(help.ends_with("    https://database.lichess.org/puzzles\n"));
}

#[test]
fn loading_puzzles_is_counted_but_not_too_often() {
    assert_eq!(ingest_progress(499, 10, 5), None);
    assert_eq!(ingest_progress(500, 10, 5), Some(s("\r  10 read, 5 kept…")));
    let report = Ingested { read: 10, kept: 5, below_floor: 4, malformed: 1, stored: 7 };
    assert_eq!(
        ingest_report(&report, 1100, "/db"),
        ["Read 10 rows: kept 5, below 1100 4, unusable 1.", "7 puzzles stored at /db"]
    );
}

#[test]
fn what_is_stored_is_reported() {
    let mut status = Status {
        database: s("/db"),
        dev: true,
        puzzles: 3,
        due: 1,
        rating: s("1150"),
        pieces: None,
    };
    assert_eq!(
        status_report(&status),
        [
            "database   /db",
            "profile    dev",
            "puzzles    3",
            "due now    1",
            "rating     1150",
            "pieces     none installed (using glyphs)"
        ]
    );
    status.dev = false;
    status.pieces = Some(s("cburnett"));
    let lines = status_report(&status);
    assert_eq!((lines[1].as_str(), lines[5].as_str()), ("profile    default", "pieces     cburnett"));
    assert_eq!(
        export_report(5000, "/out.json"),
        "Wrote 4 KB to /out.json\nPuzzles can be downloaded again; this cannot. Keep it somewhere else."
    );
    let restored = Restored {
        attempts_added: 1,
        attempts_skipped: 2,
        cards_written: 3,
        games_added: 4,
        games_skipped: 5,
        settings_written: 6,
    };
    assert_eq!(
        restore_report(&restored),
        "attempts  1 added, 2 already present\ncards     3 written\ngames     4 added, 5 already present\nsettings  6 written"
    );
}

#[test]
fn ones_own_games_are_picked_out() {
    let sides = vec![None, Some(Color::Black), None, Some(Color::White)];
    assert_eq!(mine(&sides), vec![(1, Color::Black), (3, Color::White)]);
    assert_eq!(found(4, 2, "me"), ["4 games in the file, 2 played by me."]);
    assert_eq!(
        found(4, 0, "me"),
        [
            "4 games in the file, 0 played by me.",
            "Check the name matches the White or Black tag exactly."
        ]
    );
    assert_eq!(resolve_player(Some(s("a")), Some(s("b"))), Ok(s("a")));
    assert_eq!(resolve_player(None, Some(s("b"))), Ok(s("b")));
    assert_eq!(
        resolve_player(None, None),
        Err(s("no name remembered yet: omachess import-pgn <file.pgn> <your name>"))
    );
    assert!(wants_reanalysis(&args(&["import-pgn", "f", "--reanalyse"])));
    assert!(!wants_reanalysis(&args(&["import-pgn", "f"])));
    assert_eq!(
        forgotten(3),
        "forgot 3 previously imported games so they can be analysed again"
    );
}

#[test]
fn a_games_puzzles_go_to_the_opponents_band() {
    assert_eq!(drill_band(Some(1500), 1200, 1100), 1500);
    assert_eq!(drill_band(None, 1200, 1100), 1200);
    assert_eq!(drill_band(Some(900), 1200, 1100), 1100);
    assert_eq!(drill_band(None, 0, 1100), 1100);
}

#[test]
fn phases_are_found_in_any_order() {
    let losses = phase_losses(&vec![(Phase::Endgame, 3), (Phase::Opening, 1), (Phase::Endgame, 9)]);
    assert_eq!(losses, (Some(1), None, Some(3)));
}

/// Every game that was looked at was imported, was there already, or could not be read.
#[test]
fn an_import_adds_up() {
    let mut import = Import::new(4);
    assert_eq!(import.next(true), Todo::Skip);
    assert_eq!(import.next(false), Todo::Analyse);
    assert_eq!(import.analysing(), "\r  analysing 2 of 4…");
    import.kept(3);
    assert_eq!(import.next(false), Todo::Analyse);
    import.unreadable();
    assert_eq!(import.next(false), Todo::Analyse);
    import.kept(2);
    assert_eq!(import.imported + import.skipped + import.failed, import.seen);
    assert_eq!(
        import.summary(),
        [
            "\rimported 2, already present 1, unreadable 1          ",
            "5 positions from your own mistakes are now in the trainer.",
            "Run `omachess games` to see the trend."
        ]
    );
}

fn measured() -> Measured {
    Measured {
        repeat_mode: false,
        solved: 12,
        weak: Vec::new(),
        baseline: s("70"),
        unseen: Vec::new(),
        min_transfer: 12,
        min_hours: s("20"),
        repeated: None,
    }
}

#[test]
fn progress_without_evidence_says_so() {
    assert_eq!(
        progress_report(&measured()),
        [
            "mode       learn (not measured)",
            "solved     12 distinct puzzles",
            "\n-- unseen puzzles (does this mean better at chess?) --",
            "  nothing yet: 12 first encounters are needed in one rating band",
            "\n-- repeated puzzles (retention; only repeats 20h+ apart count) --",
            "  nothing yet: a puzzle re-solved sooner than 20 hours after the\nfirst is recall of that position, not evidence of skill, so it is not counted."
        ]
    );
}

#[test]
fn progress_is_reported_with_its_evidence() {
    let mut m = measured();
    m.repeat_mode = true;
    m.weak =
        vec![Weakness { theme: s("fork"), success: s("50"), attempts: 9, below: s("20") }];
    m.unseen = vec![UnseenBand {
        band: 1100,
        earlier_seconds: s("40.0"),
        later_seconds: s("9.5"),
        percent: s("76"),
        faster: true,
        earlier_accuracy: s("80"),
        later_accuracy: s("60"),
        p: s("0.010"),
        solved: 20,
        tradeoff: true,
    }];
    let band = |band: u32| RepeatedBand {
        band,
        first_seconds: s("10.0"),
        latest_seconds: s("8.0"),
        percent: s("25"),
        faster: true,
        puzzles: 4,
        p: s("0.100"),
    };
    m.repeated = Some(Repeated {
        percent: s("25"),
        is_faster: true,
        first_seconds: s("10.0"),
        latest_seconds: s("8.0"),
        puzzles: 8,
        faster: 6,
        slower: 1,
        unchanged: 1,
        p: s("0.1250"),
        attempts: 9,
        accuracy: s("89"),
        bands: vec![band(1100), band(1200)],
    });
    let lines = progress_report(&m);
    assert_eq!(lines[0], "mode       repeat (measuring)");
    assert_eq!(lines[2], "\n-- what keeps costing you (you solve 70% overall) --");
    assert_eq!(
        lines[3],
        format!("  {:<18} {:>3}% over 9 attempts   20 points below your average", "fork", "50")
    );
    assert_eq!(
        lines[5],
        "  1100-1199   40.0s ->   9.5s    76% faster  accuracy 80% -> 60%  (p = 0.010, 20 solved)"
    );
    assert_eq!(
        lines[6],
        "      ^ faster but less accurate: speed bought by guessing, not earned"
    );
    assert_eq!(lines[8], "\n25% faster   10.0s -> 8.0s   over 8 repeated puzzles");
    assert_eq!(lines[9], "6 faster, 1 slower, 1 unchanged   (sign test p = 0.1250)");
    assert_eq!(lines[10], "accuracy on repeats: 89% of 9 attempts");
    assert_eq!(lines[11], "");
    assert_eq!(lines[12], "  1100-1199  10.0s -> 8.0s  25% faster  (4 puzzles, p = 0.100)");
    assert_eq!(lines.len(), 14);
    // A single band is not listed, however high it begins.
    if let Some(repeated) = &mut m.repeated {
        repeated.bands = vec![band(u32::MAX)];
    }
    assert_eq!(progress_report(&m), lines[..11]);
}

fn played(blunders: u32) -> GameLine {
    GameLine {
        played_at: omachess::dates::parse_date(Some("2026.03.03")).unwrap(),
        result: s("won"),
        opponent_elo: 1400,
        accuracy: s("81.2"),
        mean_loss: s("3.1"),
        blunders,
    }
}

#[test]
fn the_latest_ten_games_are_listed_latest_first() {
    assert_eq!(games_report(&Vec::new(), &None, 10), ["No games played yet."]);
    let games: Vec<GameLine> = (0..12).map(played).collect();
    let lines = games_report(&games, &None, 10);
    assert_eq!(lines[0], "12 games recorded\n");
    assert_eq!(
        lines[1],
        "  2026-03-03 12:00  won   vs 1400   accuracy  81.2%  3.1% lost/move  11 blunders"
    );
    assert_eq!(lines.len(), 12);
    assert_eq!(
        lines[11],
        "\nNo trend yet — 10 games are needed before earlier and later\nhalves can be compared."
    );
    let trend = Some(GameTrend {
        earlier_accuracy: s("70.0"),
        recent_accuracy: s("75.0"),
        games: 12,
        earlier_blunders: s("4.0"),
        recent_blunders: s("3.0"),
        significant: false,
        p: s("0.200"),
    });
    let one = games_report(&vec![played(1)], &trend, 10);
    assert_eq!(one[0], "1 game recorded\n");
    assert!(one[1].ends_with("1 blunder"));
    assert_eq!(one[4], "Not yet distinguishable from chance.  (Mann-Whitney p = 0.200)");
}

#[test]
fn the_plan_is_timed() {
    let plan = vec![
        PlanStep { headline: s("Puzzles"), minutes: 15, why: s("Three are due.") },
        PlanStep { headline: s("Endgames"), minutes: 10, why: s("The last one was lost.") },
    ];
    assert_eq!(
        plan_report(&plan),
        [
            "Today — about 25 minutes\n",
            "  1. Puzzles  (15 min)",
            "     Three are due.",
            "",
            "  2. Endgames  (10 min)",
            "     The last one was lost.",
            ""
        ]
    );
}

#[test]
fn faults_are_summed_up() {
    assert_eq!(
        fault_report("/log", &Vec::new(), &Vec::new()),
        ["faults  (/log)", "  nothing recorded"]
    );
    let at = omachess::dates::parse_date(Some("2026.03.03")).unwrap();
    let faults: Vec<FaultRecord> = (0..7)
        .map(|i| FaultRecord {
            at: at + i * 60,
            label: s("error"),
            site: format!("site{i}"),
            message: s("first\nsecond"),
            panic: i == 0,
        })
        .collect();
    let kinds = vec![FaultSummary { label: s("error"), count: 7, latest: at + 360 }];
    let lines = fault_report("/log", &faults, &kinds);
    assert_eq!(lines[1], "  error       7   most recent 2026-03-03 12:06");
    assert_eq!(lines[3], "  the five most recent:");
    assert_eq!(lines[4], "    03-03 12:06 [error] site6 — first");
    assert_eq!(lines[8], "    03-03 12:02 [error] site2 — first");
    assert_eq!(lines[10], "  a panic means the window closed on you. Worth reporting.");
    assert_eq!(lines.len(), 11);
}

#[test]
fn raw_skill_data_is_listed() {
    assert_eq!(
        skill_report(&Vec::new(), &Vec::new(), &None),
        [
            "",
            "raw skill data",
            "  wrong moves recorded: 0",
            "  nothing logged outside the trainer yet",
            "  no sittings recorded yet"
        ]
    );
    let moves: Vec<WrongMove> = (0..9)
        .map(|i| WrongMove { played: s("Qxh7"), expected: s("Rb8"), count: i + 1 })
        .collect();
    let activities = vec![
        ActivityCount { activity: s("play"), count: 40, median: Some(s("2.5")) },
        ActivityCount { activity: s("drill"), count: 3, median: None },
    ];
    let sitting = Some(Sitting { early: s("90"), late: s("50"), attempts: 20 });
    let lines = skill_report(&moves, &activities, &sitting);
    assert_eq!(lines[2], "  wrong moves recorded: 45");
    assert_eq!(lines[4], "    Qxh7   instead of Rb8     x1");
    assert_eq!(lines[11], "    Qxh7   instead of Rb8     x8");
    assert_eq!(lines[12], format!("  {:5} {:28} {}", 40, "moves against the engine", "2.5s median"));
    assert_eq!(lines[13], format!("  {:5} {:28} ", 3, "drill"));
    assert_eq!(lines[14], "  within a sitting: 90% correct early, 50% late (20 attempts)");
    assert_eq!(sitting_halves(&vec![true, true, false, true, false]), ((2, 2), (1, 3)));
    assert_eq!(sitting_halves(&Vec::new()), ((0, 0), (0, 0)));
}
