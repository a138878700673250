use omachess::sound::{clip_file, clips, is_stale, is_wave, players, unpack, which, Cue, Sounds};

/// A clip of no length: a RIFF/WAVE header and nothing behind it.
fn clip() -> Vec<u8> {
    let mut bytes = b"RIFF".to_vec();
    bytes.extend_from_slice(&[4, 0, 0, 0]);
    bytes.extend_from_slice(b"WAVE");
    bytes
}

#[test]
fn every_cue_has_a_clip() {
    let mut named = Vec::new();
    for (cue, name) in clips() {
        assert_eq!(cue.name(), name);
        let bytes = clip();
        assert!(!bytes.is_empty(), "{name} clip is empty");
        // A RIFF/WAVE header is what a clip is told by, whichever cue it belongs to.
        assert_eq!(&bytes[..4], b"RIFF", "{name} is not a RIFF file");
        assert_eq!(&bytes[8..12], b"WAVE", "{name} is not a WAVE file");
        assert!(is_wave(&bytes));
        named.push(name);
    }
    named.sort_unstable();
    named.dedup();
    assert_eq!(named.len(), 6);
}

#[test]
fn silence_is_requestable() {
    // The env var is the documented way to turn sound off entirely.
    assert!(clips().len() == 6);
    let found = vec![Some("/usr/bin/pw-play".to_owned())];
    let silent = Sounds::new("/tmp/sounds".to_owned(), true, true, &found);
    assert!(!silent.is_audible());
    assert_eq!(silent.play(Cue::Move), None);
}

#[test]
fn a_truncated_clip_is_not_a_wave() {
    assert!(!is_wave(&[]));
    assert!(!is_wave(&clip()[..11]));
    let mut wrong = clip();
    wrong[8] = b'w';
    assert!(!is_wave(&wrong));
}

#[test]
fn a_clip_is_written_again_where_it_differs() {
    assert!(is_stale(None, 100));
    assert!(is_stale(Some(99), 100));
    assert!(!is_stale(Some(100), 100));
}

#[test]
fn a_second_unpacking_has_nothing_to_write() {
    let lengths: Vec<u64> = vec![100, 200, 300, 400, 500, 600];
    let mut stored = vec![Some(100), None, Some(299), Some(400), Some(0), None];
    let writes = unpack(&stored, &lengths);
    assert_eq!(writes, [false, true, true, false, true, true]);
    for (place, write) in writes.into_iter().enumerate() {
        if write {
            stored[place] = Some(lengths[place]);
        }
    }
    assert_eq!(unpack(&stored, &lengths), [false; 6]);
    assert_eq!(unpack(&Vec::new(), &lengths), [true; 6]);
}

#[test]
fn the_first_player_that_is_there_plays() {
    assert!(!players().is_empty());
    assert_eq!(which(&vec![None, Some("b".to_owned()), Some("c".to_owned())]), Some("b".to_owned()));
    assert_eq!(which(&vec![None, None]), None);
    let found = vec![None, Some("/usr/bin/paplay".to_owned())];
    let sounds = Sounds::new("/tmp/sounds".to_owned(), false, true, &found);
    assert!(sounds.is_audible());
    assert_eq!(sounds.dir(), "/tmp/sounds");
    assert_eq!(
        sounds.play(Cue::Capture),
        Some(("/usr/bin/paplay".to_owned(), clip_file("capture")))
    );
    let mute = Sounds::new("/tmp/sounds".to_owned(), false, true, &vec![None]);
    assert!(!mute.is_audible());
}
