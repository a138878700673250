use omachess::charts::{point_label, slope_label, Emphasis, Hover};
use omachess::chess::{Color, Role};
use omachess::pieces::{drawings, first_loaded, PieceSet};
use omachess::selftest::{caught, check, expect, report, wanted, Check};
use omachess::style::{join_path, overrides};
use omachess::window::{
    engine_note, first_tab, pieces_note, sound_note, tab_opened, tabs, Refresh, Tab,
};

fn s(text: &str) -> String {
    text.to_owned()
}

#[test]
fn opening_a_tab_brings_it_up_to_date() {
    let names: Vec<&str> = tabs().iter().map(|tab| tab.name()).collect();
    assert_eq!(names, ["train", "play", "drill", "endgames", "study", "progress"]);
    assert_eq!(tab_opened(Some("progress")), Refresh::Report);
    assert_eq!(tab_opened(Some("play")), Refresh::Openings);
    assert_eq!(tab_opened(Some("drill")), Refresh::Drills);
    assert_eq!(tab_opened(Some("train")), Refresh::Nothing);
    assert_eq!(tab_opened(Some("elsewhere")), Refresh::Nothing);
    assert_eq!(tab_opened(None), Refresh::Nothing);
    assert_eq!(first_tab(true), Tab::Study);
    assert_eq!(first_tab(false), Tab::Train);
    assert_eq!(Tab::Endgames.title(), "Endgames");
    assert_eq!(Tab::Study.icon(), "accessories-text-editor-symbolic");
}

#[test]
fn the_start_says_what_was_found() {
    assert_eq!(pieces_note(Some("cburnett"), "/p"), "omachess: piece set 'cburnett'");
    assert_eq!(pieces_note(None, "/p"), "omachess: no piece set in /p — using glyphs");
    assert_eq!(engine_note(Some("/bin/sf")), "omachess: engine /bin/sf");
    assert_eq!(engine_note(None), "omachess: no engine on PATH — play is unavailable");
    assert_eq!(sound_note(true), None);
    assert!(sound_note(false).is_some());
}

/// A set missing any piece is rejected outright.
#[test]
fn a_set_with_a_hole_is_no_set() {
    let wanted = drawings();
    assert_eq!(wanted.len(), 12);
    assert_eq!(wanted[0].file, "wK.svg");
    assert_eq!(wanted[11].file, "bP.svg");
    assert!(wanted.iter().all(|d| d.woodify == (d.piece.color == Color::Black)));
    let images: Vec<Option<String>> = wanted.iter().map(|d| Some(d.file.clone())).collect();
    let set = PieceSet::load(Some(s("cburnett")), images.clone()).unwrap();
    assert_eq!(set.name(), "cburnett");
    assert_eq!(set.texture(Color::Black, Role::Knight).map(String::as_str), Some("bN.svg"));
    assert_eq!(set.texture(Color::White, Role::Queen).map(String::as_str), Some("wQ.svg"));
    for hole in 0..12 {
        let mut missing = images.clone();
        missing[hole] = None;
        assert!(PieceSet::load(Some(s("cburnett")), missing).is_none());
    }
    assert!(PieceSet::load(None, images).is_none());
}

#[test]
fn sets_are_tried_in_the_order_of_their_names() {
    let installed = vec![s("merida"), s("alpha"), s("cburnett"), s("alp"), s("Zed")];
    let mut sorted = installed.clone();
    sorted.sort();
    assert_eq!(PieceSet::<u8>::discover(None, &installed), sorted);
    assert_eq!(PieceSet::<u8>::discover(Some(s("gone")), &installed), ["gone"]);
    assert!(PieceSet::<u8>::discover(None, &Vec::new()).is_empty());
}

#[test]
fn paths_are_joined_as_paths() {
    for (dir, path) in [("/home/me", ".config"), ("/home/me/", ".config"), ("", ".config"), ("/", "x")] {
        assert_eq!(
            join_path(dir, path),
            std::path::PathBuf::from(dir).join(path).display().to_string()
        );
    }
}

/// The user's own sheet wins over the theme's, so it comes last.
#[test]
fn sheets_are_layered() {
    let theme = "/home/me/.local/state/omarchy/current/theme/omachess.css";
    assert_eq!(
        overrides(None, Some("/home/me")),
        [theme, "/home/me/.config/omachess/omachess.css"]
    );
    assert_eq!(
        overrides(Some(""), Some("/home/me")),
        [theme, "/home/me/.config/omachess/omachess.css"]
    );
    assert_eq!(overrides(Some("/cfg"), Some("/home/me")), [theme, "/cfg/omachess/omachess.css"]);
    assert_eq!(overrides(Some("/cfg"), None), ["/cfg/omachess/omachess.css"]);
    assert!(overrides(None, None).is_empty());
}

#[test]
fn one_point_stands_out() {
    let mut hover = Hover::new();
    assert_eq!(hover.emphasis(0), Emphasis::Plain);
    assert!(hover.moved(Some(2)));
    assert!(!hover.moved(Some(2)), "nothing changed, so nothing is drawn again");
    assert_eq!(hover.emphasis(2), Emphasis::Focused);
    assert_eq!(hover.emphasis(1), Emphasis::Dimmed);
    assert!(hover.left());
    assert!(!hover.left());
    assert_eq!(
        slope_label("a1b2", 1100, "40.0", "20.0", 2),
        "a1b2  ·  band 1100  ·  40.0s → 20.0s  ·  2 solves"
    );
    assert_eq!(point_label(4, "71.5", "%"), "#5  71.5%");
}

#[test]
fn the_first_set_that_loads_is_taken() {
    assert_eq!(first_loaded(&vec![false, true, true]), Some(1));
    assert_eq!(first_loaded(&vec![false, true]), Some(1));
    assert_eq!(first_loaded(&vec![true, false]), Some(0));
    assert_eq!(first_loaded(&vec![false, false]), None);
    assert_eq!(first_loaded(&Vec::new()), None);
}

#[test]
fn a_check_is_run_or_skipped_by_its_name() {
    let ran = check("the board can be turned round", Some("turned"), Err(s("it did not")));
    assert!(!ran.skipped);
    assert_eq!(ran.outcome, Err(s("it did not")));
    let passed = check("the board can be turned round", None, Ok(()));
    assert!(!passed.skipped && passed.outcome.is_ok());
    let skipped = check("the board can be turned round", Some("promotion"), Err(s("unused")));
    assert!(skipped.skipped && skipped.outcome.is_ok());
    assert_eq!(skipped.name, "the board can be turned round");
}

#[test]
fn a_filtered_run_is_not_mistaken_for_a_clean_one() {
    assert!(wanted("the board can be turned round", Some("turned")));
    assert!(!wanted("the board can be turned round", Some("promotion")));
    assert!(wanted("anything", None));
    let checks = vec![
        Check::ran("a", Ok(())),
        Check::skipped("b"),
        Check::ran("c", expect(false, "it did not hold")),
        Check::ran("d", expect(true, "unused")),
    ];
    let (lines, held) = report(&checks);
    assert!(!held);
    assert_eq!(
        lines,
        [
            "Self-test — 3 checks",
            "  pass  a",
            "  FAIL  c\n        it did not hold",
            "  pass  d",
            "\n1 skipped by the filter.",
            "\n1 of 3 failed."
        ]
    );
    let (lines, held) = report(&vec![Check::ran("a", Ok(()))]);
    assert!(held);
    assert_eq!(lines, ["Self-test — 1 checks", "  pass  a", "\nEverything held."]);
    assert_eq!(caught(Some("boom")), Err(s("panicked: boom")));
    assert_eq!(caught(None), Err(s("panicked: panic with no message")));
}
