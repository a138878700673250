use omachess::announce::{clear, expire, install, last, say, Banner, Tone};

const TONES: [Tone; 5] = [Tone::Rejected, Tone::Won, Tone::Lost, Tone::Drawn, Tone::Ended];

/// Nothing stays on the screen.
#[test]
fn everything_clears_itself() {
    for tone in TONES {
        assert!(tone.dwell() > 0, "{tone:?} would never go away");
    }
    assert!(
        Tone::Rejected.dwell() < Tone::Lost.dwell(),
        "a nudge should not sit there as long as a sentence"
    );
}

/// Each tone needs its own class, or they cannot be told apart.
#[test]
fn every_tone_has_its_own_class() {
    let mut seen: Vec<&str> = TONES.iter().map(|t| t.css()).collect();
    let before = seen.len();
    seen.sort_unstable();
    seen.dedup();
    assert_eq!(seen.len(), before);
}

#[test]
fn what_was_said_is_remembered_until_it_is_cleared() {
    let mut banner: Option<Banner> = None;
    say(&mut banner, Tone::Won, "nobody is listening");
    assert!(banner.is_none());
    install(&mut banner);
    assert!(last(&banner).is_none());
    say(&mut banner, Tone::Won, "Checkmate.");
    assert_eq!(last(&banner), Some((Tone::Won, "Checkmate.".to_owned())));
    let shown = banner.as_ref().unwrap();
    assert!(shown.visible);
    assert_eq!(shown.text, "Checkmate.");
    assert_eq!(shown.hide, Some(Tone::Won.dwell()));
    say(&mut banner, Tone::Rejected, "Not that.");
    assert_eq!(banner.as_ref().unwrap().class, Some(Tone::Rejected));
    assert_eq!(banner.as_ref().unwrap().hide, Some(Tone::Rejected.dwell()));
    expire(&mut banner);
    assert!(!banner.as_ref().unwrap().visible);
    say(&mut banner, Tone::Drawn, "A draw.");
    clear(&mut banner);
    assert!(!banner.as_ref().unwrap().visible);
    assert!(last(&banner).is_none());
}
