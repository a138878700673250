use omachess::figures::{tile, Setting, Trend};
use omachess::progress_view::{
    count_raised, direction, efficiency_text, endgame_row, hero, opening_class, opening_row,
    pending_rows, play_section, Block, Claim, EndgameRecord, Improvement, Mark, Needed,
    OpeningRecord, PlayTrend, PressureRecord, ProgressData, ProgressView, Transfer, OPENING_GOOD,
    OPENING_POOR, WHOLE_POINT,
};

fn s(text: &str) -> String {
    text.to_owned()
}

fn transfer(band: u32, seen: u64, percent: &str, faster: bool, significant: bool) -> Transfer {
    Transfer { band, seen, percent: s(percent), faster, p: s("0.03"), significant }
}

fn data() -> ProgressData {
    ProgressData {
        themes: 0,
        transfer: Vec::new(),
        overall: None,
        solved: 1,
        slopes: Vec::new(),
        ratings: 1,
        accuracy: s("100"),
        rating: s("1160"),
        rating_change: s("+10"),
        games: 0,
        play: None,
        endgames: Vec::new(),
        openings: Vec::new(),
        pressure: None,
        all_tabs: false,
        needed: Needed { rating_points: 10, pairs: 5, theme_attempts: 8, transfer: 12, games: 10 },
    }
}

fn texts(blocks: &[Block]) -> Vec<String> {
    let mut out = Vec::new();
    for block in blocks {
        match block {
            Block::Line(line) => out.push(line.text.clone()),
            Block::Hero { text, .. } | Block::Change { text, .. } => out.push(text.clone()),
            Block::Tiles(cells) => {
                for cell in cells {
                    out.push(cell.name.clone());
                    out.push(cell.value.clone());
                    if let Some((delta, _)) = &cell.change {
                        out.push(delta.clone());
                    }
                }
            }
            Block::Detail(text) => out.push(text.clone()),
            Block::Opening { name, book, tally, .. } => {
                out.extend([name.clone(), book.clone(), tally.clone()])
            }
            Block::Endgame { name, objective, score, .. } => {
                out.extend([name.clone(), objective.clone(), score.clone()])
            }
            _ => {}
        }
    }
    out
}

/// Par is half a point a game, and an opening at par should read as neither a success nor a
/// failure.
#[test]
fn an_opening_at_par_is_left_uncoloured() {
    assert_eq!(opening_class(500_000), None, "par is not a verdict");
    assert_eq!(opening_class(OPENING_POOR), None, "the boundary is not poor");
    assert_eq!(opening_class(OPENING_GOOD), None, "nor good");
    assert_eq!(opening_class(250_000).map(Mark::css), Some("error"));
    assert_eq!(opening_class(900_000).map(Mark::css), Some("success"));
    assert_eq!((OPENING_POOR, OPENING_GOOD), (400_000, 600_000));
    assert_eq!(opening_class(399_999), Some(Mark::Error));
    assert_eq!(opening_class(600_001), Some(Mark::Success));
}

/// A conversion is only worth comparing when both halves are known; a position with no distance to
/// mate is drawn and has nothing to beat.
#[test]
fn efficiency_is_shown_only_when_there_is_something_to_compare() {
    assert_eq!(efficiency_text(Some(41), Some(18)), "  best 41 vs 18 needed");
    assert_eq!(efficiency_text(None, Some(18)), "", "never converted");
    assert_eq!(efficiency_text(Some(41), None), "", "a drawn position has no target");
    assert_eq!(efficiency_text(None, None), "");
}

/// A score that is told in millionths is coloured as the score itself would be.
#[test]
fn scores_are_coloured_as_division_says() {
    for won in 0..12u32 {
        for drawn in 0..12u32 {
            for lost in 0..12u32 {
                let games = won + drawn + lost;
                if games == 0 {
                    continue;
                }
                let score = (f64::from(won) + f64::from(drawn) / 2.0) / f64::from(games);
                let expected = if score < 0.4 {
                    Some(Mark::Error)
                } else if score > 0.6 {
                    Some(Mark::Success)
                } else {
                    None
                };
                let told = (score * f64::from(WHOLE_POINT)).round() as u32;
                assert_eq!(opening_class(told), expected, "{won}/{drawn}/{lost}");
            }
        }
    }
}

#[test]
fn nothing_is_claimed_without_evidence() {
    let blocks = hero(&Vec::new(), 12);
    assert!(matches!(&blocks[1], Block::Hero { text, claim: Claim::Absent } if text == "—"));
    assert_eq!(texts(&blocks)[2], "Needs 12 unseen puzzles in one band.");
    let blocks = hero(&vec![transfer(1100, 20, "12", true, false)], 12);
    assert!(matches!(&blocks[1], Block::Hero { text, claim: Claim::Unproven } if text == "Not proven yet"));
    let blocks = hero(
        &vec![transfer(1300, 20, "12", false, true), transfer(1100, 30, "9", true, true)],
        12,
    );
    assert!(matches!(&blocks[1], Block::Hero { text, claim: Claim::Slowing } if text == "12% slower"));
    assert_eq!(
        texts(&blocks)[2..],
        [s("1100–1199   9% faster   p 0.03   n 30"), s("1300–1399   12% slower   p 0.03   n 20")]
    );
    assert_eq!(Claim::Slowing.css(), Some("slowing"));
    assert_eq!(Claim::Absent.css(), None);
}

/// The lines of one band keep the order they came in.
#[test]
fn bands_are_sorted_and_ties_are_left_alone() {
    let blocks = hero(
        &vec![
            transfer(1200, 1, "1", true, false),
            transfer(1100, 2, "2", true, false),
            transfer(1200, 3, "3", true, false),
            transfer(1100, 4, "4", true, false),
        ],
        12,
    );
    let counts: Vec<String> =
        texts(&blocks)[2..].iter().map(|t| t.rsplit(' ').next().unwrap().to_owned()).collect();
    assert_eq!(counts, ["2", "4", "1", "3"]);
}

#[test]
fn what_is_missing_is_counted() {
    assert_eq!(
        pending_rows(&data()),
        [
            "Repeats           0 / 5 pairs",
            "Rating trend      1 / 10 attempts",
            "Themes            0 / 3 at 8 attempts",
            "Unseen puzzles    0 / 12 in one band"
        ]
    );
    let mut full = data();
    full.overall = Some(Improvement { percent: s("20"), p: s("0.01"), puzzles: 9 });
    full.ratings = 10;
    full.themes = 3;
    full.transfer = vec![transfer(1100, 20, "12", true, true)];
    assert!(pending_rows(&full).is_empty());
}

/// The page states numbers, not paragraphs.
#[test]
fn the_progress_page_states_numbers_not_paragraphs() {
    let mut view = ProgressView::new();
    assert!(view.widget().is_empty());
    view.refresh(&data());
    let labels = texts(view.widget());
    assert!(!labels.is_empty());
    let words = |t: &String| t.split_whitespace().count();
    let worst = labels.iter().max_by_key(|t| words(t)).unwrap();
    assert!(words(worst) <= 12, "a label runs to {} words: {worst:?}", words(worst));
    let total: usize = labels.iter().map(words).sum();
    assert!(total <= 120, "the page runs to {total} words");
}

#[test]
fn the_page_grows_with_the_evidence() {
    let mut full = data();
    full.transfer = vec![transfer(1100, 20, "12", true, true)];
    full.overall = Some(Improvement { percent: s("20"), p: s("0.01"), puzzles: 9 });
    full.slopes = vec![true, false, true];
    full.ratings = 10;
    full.themes = 3;
    full.games = 2;
    full.all_tabs = true;
    full.play = Some(PlayTrend {
        earlier: s("70.0"),
        recent: s("75.5"),
        improving: true,
        earlier_blunders: s("4.0"),
        recent_blunders: s("2.5"),
        games: 12,
        p: s("0.040"),
        significant: true,
    });
    full.openings = vec![OpeningRecord {
        name: s("Italian Game"),
        book: s("6"),
        won: 3,
        drawn: 1,
        lost: 0,
        score: s("88"),
        millionths: 875_000,
    }];
    full.endgames = vec![EndgameRecord {
        name: s("Lucena"),
        objective: s("win"),
        achieved: 2,
        attempts: 3,
        best: Some(41),
        optimal: Some(18),
        last_achieved: Some(false),
    }];
    full.pressure =
        Some(PressureRecord { low_clock: s("9.0"), time_in_hand: s("3.0"), games: 7 });
    let mut view = ProgressView::new();
    view.refresh(&full);
    let page = view.widget();
    let charts: Vec<usize> = page
        .iter()
        .enumerate()
        .filter(|(_, b)| {
            matches!(
                b,
                Block::RatingChart | Block::ThemeChart | Block::SlopeChart | Block::AccuracyChart
            )
        })
        .map(|(i, _)| i)
        .collect();
    assert_eq!(charts.len(), 4);
    let said = texts(page);
    for wanted in [
        "12% faster",
        "2 of 3 faster than before.",
        "20% faster   p 0.01   n 9",
        "Accuracy 70.0% → 75.5%",
        "blunders 4.0 → 2.5 per 100 moves over 12 games\nUnlikely to be chance (Mann-Whitney p = 0.040).",
        "3/1/0 · 88%",
        "2 / 3  best 41 vs 18 needed",
        "low clock 9.0%   time in hand 3.0%   n 7",
        "+10",
    ] {
        assert!(said.iter().any(|t| t == wanted), "{wanted:?} is missing: {said:?}");
    }
    assert!(!said.iter().any(|t| t == "Not measurable yet"));
    assert_eq!(count_raised(&full.slopes), 2);
}

#[test]
fn records_are_coloured_by_the_last_attempt() {
    let mut record = EndgameRecord {
        name: s("Lucena"),
        objective: s("win"),
        achieved: 2,
        attempts: 3,
        best: None,
        optimal: None,
        last_achieved: Some(true),
    };
    assert!(matches!(endgame_row(&record), Block::Endgame { mark: Some(Mark::Success), score, .. } if score == "2 / 3"));
    record.last_achieved = None;
    assert!(matches!(endgame_row(&record), Block::Endgame { mark: None, .. }));
    let opening = OpeningRecord { name: s("x"), book: s("4"), won: 0, drawn: 0, lost: 4, score: s("0"), millionths: 0 };
    assert!(matches!(opening_row(&opening), Block::Opening { mark: Some(Mark::Error), book, .. } if book == "book 4 plies"));
    let few = play_section(&None, 1, 10);
    assert_eq!(
        texts(&few),
        ["1 game played. 10 are needed before the earlier and later halves can be compared."]
    );
    assert_eq!(direction(false), "slower");
}

#[test]
fn tiles_show_their_change() {
    let down = tile("Rating", "1100", Some(s("-12")));
    assert_eq!(down.change.map(|(_, t)| t.css()), Some("slowing"));
    let up = tile("Rating", "1100", Some(s("+0")));
    assert_eq!(up.change.map(|(_, t)| t), Some(Trend::Improving));
    assert!(tile("Solved", "3", None).change.is_none());
    assert_eq!(Setting::Stat.css(), "omachess-stat");
}
