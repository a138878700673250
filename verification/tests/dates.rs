use chrono::{DateTime, Datelike, Timelike, Utc};
use omachess::dates::{day_label, minute_label, parse_date, recent_label};
use omachess::import::played_at;

fn read(date: &str) -> Option<DateTime<Utc>> {
    parse_date(Some(date)).and_then(|moment| DateTime::from_timestamp(moment, 0))
}

/// Every imported game is filed by this date, and the ordering it produces is what the whole trend
/// rests on. Sites disagree about the separator, and some write unknown fields as question marks.
#[test]
fn pgn_dates_are_read_in_the_forms_sites_actually_write() {
    let parsed = read("2026.09.04").expect("the PGN standard form");
    assert_eq!((parsed.year(), parsed.month(), parsed.day()), (2026, 9, 4));
    assert_eq!(parse_date(Some("2026-09-04")), parse_date(Some("2026.09.04")));
    assert_eq!(parse_date(Some("2026/09/04")), parse_date(Some("2026.09.04")));
}

/// An unparseable date must yield nothing rather than a wrong date.
#[test]
fn an_unreadable_date_is_refused_rather_than_guessed() {
    assert!(parse_date(None).is_none());
    assert!(parse_date(Some("????.??.??")).is_none(), "Lichess writes unknowns this way");
    assert!(parse_date(Some("2026.09")).is_none(), "no day");
    assert!(parse_date(Some("")).is_none());
    assert!(parse_date(Some("not a date")).is_none());
    // A month that does not exist must not roll over into the next year.
    assert!(parse_date(Some("2026.13.01")).is_none());
    assert!(parse_date(Some("2026.02.30")).is_none());
}

/// Dates are stamped at midday rather than midnight so that a game and a puzzle solved the same day
/// cannot be separated by a timezone shift.
#[test]
fn dates_land_at_midday() {
    let parsed = read("2026.09.04").unwrap();
    assert_eq!(parsed.hour(), 12);
    assert_eq!(parsed.minute(), 0);
}

#[test]
fn leap_days_are_days() {
    assert!(parse_date(Some("2024.02.29")).is_some());
    assert!(parse_date(Some("2023.02.29")).is_none());
    assert!(parse_date(Some("1900.02.29")).is_none());
    assert!(parse_date(Some("2000.02.29")).is_some());
    assert!(parse_date(Some("2026.00.10")).is_none());
    assert!(parse_date(Some("2026.01.00")).is_none());
}

#[test]
fn fields_are_digits_behind_an_optional_plus() {
    assert_eq!(parse_date(Some("+2026.+09.+04")), parse_date(Some("2026.09.04")));
    assert!(parse_date(Some("2026. 9.4")).is_none());
    assert!(parse_date(Some("2026.9.4.junk")).is_some(), "only three fields are read");
    assert!(parse_date(Some("99999999999.01.01")).is_none());
    assert!(parse_date(Some("300000.01.01")).is_none(), "beyond the calendar");
    assert!(parse_date(Some("-2026.01.01")).is_none());
}

#[test]
fn the_epoch_is_counted_from() {
    assert_eq!(parse_date(Some("1970.01.01")), Some(43_200));
    assert_eq!(parse_date(Some("1970.01.02")), Some(43_200 + 86_400));
    assert_eq!(parse_date(Some("1969.12.31")), Some(43_200 - 86_400));
}

#[test]
fn moments_are_shown_by_their_day() {
    let moment = parse_date(Some("2026.03.03")).unwrap();
    assert_eq!(day_label(moment), "3 Mar");
    assert_eq!(minute_label(moment), "2026-03-03 12:00");
    assert_eq!(recent_label(moment), "03-03 12:00");
    assert_eq!(minute_label(moment + 6 * 3600 + 5 * 60), "2026-03-03 18:05");
    assert_eq!(day_label(parse_date(Some("2026.12.31")).unwrap()), "31 Dec");
    assert_eq!(minute_label(parse_date(Some("0007.01.02")).unwrap()), "0007-01-02 12:00");
    assert_eq!(minute_label(parse_date(Some("12345.01.02")).unwrap()), "+12345-01-02 12:00");
    assert_eq!(minute_label(-62_198_755_200), "-0001-01-01 00:00");
}

#[test]
fn a_game_without_a_date_is_filed_under_now() {
    assert_eq!(played_at(Some("????.??.??"), 17), 17);
    assert_eq!(played_at(None, 17), 17);
    assert_eq!(played_at(Some("1970.01.01"), 17), 43_200);
}

/// A later date is a later moment, over several years of days.
#[test]
fn days_follow_one_another() {
    let mut before = parse_date(Some("2019.12.31")).unwrap();
    for year in 2020..2026 {
        for month in 1..=12 {
            for day in 1..=31 {
                if let Some(moment) = parse_date(Some(&format!("{year}.{month}.{day}"))) {
                    assert_eq!(moment, before + 86_400);
                    before = moment;
                }
            }
        }
    }
}
