//! Sound effects: which clip a cue plays, and through which player.
//!
//! Playback goes through whichever small command-line player is present, and falls back to
//! silence when none is. Sound is a nicety, so every failure ends in silence rather than an
//! error the user has to care about.

use crate::text::{opt_text, opt_texts};
use vstd::prelude::*;
use vstd::string::*;

verus! {

/// What a sound is played for.
#[derive(Debug, Clone, Copy, PartialEq, Eq, Structural)]
pub enum Cue {
    Move,
    Capture,
    Check,
    Wrong,
    Solved,
    End,
}

/// The name of a cue's clip.
pub open spec fn cue_name(cue: Cue) -> Seq<char> {
    match cue {
        Cue::Move => "move"@,
        Cue::Capture => "capture"@,
        Cue::Check => "check"@,
        Cue::Wrong => "wrong"@,
        Cue::Solved => "solved"@,
        Cue::End => "end"@,
    }
}

impl Cue {
    /// The name of the clip that this cue plays.
    pub fn name(self) -> (r: &'static str)
        ensures
            r@ == cue_name(self),
    {
        match self {
            Cue::Move => "move",
            Cue::Capture => "capture",
            Cue::Check => "check",
            Cue::Wrong => "wrong",
            Cue::Solved => "solved",
            Cue::End => "end",
        }
    }
}

/// Every cue, in the order in which the clips are unpacked.
pub open spec fn all_cues() -> Seq<Cue> {
    seq![Cue::Move, Cue::Capture, Cue::Check, Cue::Wrong, Cue::Solved, Cue::End]
}

/// The clips, each with the name that its file is stored under.
pub fn clips() -> (r: Vec<(Cue, &'static str)>)
    ensures
        r@.len() == all_cues().len(),
        forall|i: int|
            0 <= i < r@.len() ==> (#[trigger] r@[i]).0 == all_cues()[i] && r@[i].1@ == cue_name(
                all_cues()[i],
            ),
{
    vec![
        (Cue::Move, "move"),
        (Cue::Capture, "capture"),
        (Cue::Check, "check"),
        (Cue::Wrong, "wrong"),
        (Cue::Solved, "solved"),
        (Cue::End, "end"),
    ]
}

/// The players that are tried, in order. The first that exists wins.
pub open spec fn player_names() -> Seq<Seq<char>> {
    seq!["pw-play"@, "paplay"@, "aplay"@]
}

/// The players that are tried, in order.
pub fn players() -> (r: Vec<&'static str>)
    ensures
        r@.len() == player_names().len(),
        forall|i: int| 0 <= i < r@.len() ==> (#[trigger] r@[i])@ == player_names()[i],
{
    vec!["pw-play", "paplay", "aplay"]
}

/// The file that a clip is stored in.
pub open spec fn clip_file_name(name: Seq<char>) -> Seq<char> {
    name + ".wav"@
}

/// The file that a clip is stored in.
pub fn clip_file(name: &str) -> (r: String)
    ensures
        r@ == clip_file_name(name@),
{
    let mut out = name.to_owned();
    out.append(".wav");
    out
}

/// Whether bytes begin as a WAVE file does: `RIFF`, a length, `WAVE`.
pub open spec fn wave_header(bytes: Seq<u8>) -> bool {
    &&& bytes.len() >= 12
    &&& bytes.subrange(0, 4) == seq![0x52u8, 0x49, 0x46, 0x46]
    &&& bytes.subrange(8, 12) == seq![0x57u8, 0x41, 0x56, 0x45]
}

/// Whether bytes begin as a WAVE file does, so that a truncated clip is found out before it
/// plays as silence.
pub fn is_wave(bytes: &[u8]) -> (r: bool)
    ensures
        r == wave_header(bytes@),
{
    if bytes.len() < 12 {
        return false;
    }
    let riff = bytes[0] == 0x52 && bytes[1] == 0x49 && bytes[2] == 0x46 && bytes[3] == 0x46;
    let wave = bytes[8] == 0x57 && bytes[9] == 0x41 && bytes[10] == 0x56 && bytes[11] == 0x45;
    proof {
        let a = bytes@.subrange(0, 4);
        let b = bytes@.subrange(8, 12);
        let x = seq![0x52u8, 0x49, 0x46, 0x46];
        let y = seq![0x57u8, 0x41, 0x56, 0x45];
        assert(a[0] == bytes@[0] && a[1] == bytes@[1] && a[2] == bytes@[2] && a[3] == bytes@[3]);
        assert(b[0] == bytes@[8] && b[1] == bytes@[9] && b[2] == bytes@[10] && b[3] == bytes@[11]);
        assert(riff ==> a =~= x);
        assert(wave ==> b =~= y);
        assert(x[0] == 0x52u8 && x[1] == 0x49u8 && x[2] == 0x46u8 && x[3] == 0x46u8);
        assert(y[0] == 0x57u8 && y[1] == 0x41u8 && y[2] == 0x56u8 && y[3] == 0x45u8);
    }
    riff && wave
}

/// Whether an unpacked clip has to be written again: when it is missing, or of another size.
///
/// A running application must not fight itself over the file on every launch.
pub fn is_stale(stored: Option<u64>, clip: u64) -> (r: bool)
    ensures
        r == (stored != Some(clip)),
{
    match stored {
        Some(length) => length != clip,
        None => true,
    }
}

/// Which clips have to be written: those whose file is missing, or of another size. `stored` holds
/// the size of each clip's file, and `lengths` the size of each clip.
pub open spec fn to_write(stored: Seq<Option<u64>>, lengths: Seq<u64>) -> Seq<bool> {
    Seq::new(lengths.len(), |i: int| i >= stored.len() || stored[i] != Some(lengths[i]))
}

/// Which clips have to be written, so that every file has the size of its clip. `stored` holds the
/// size of each clip's file, where there is one, and `lengths` the size of each clip.
pub fn unpack(stored: &Vec<Option<u64>>, lengths: &Vec<u64>) -> (r: Vec<bool>)
    ensures
        r@ == to_write(stored@, lengths@),
{
    let mut writes: Vec<bool> = Vec::new();
    let mut i: usize = 0;
    while i < lengths.len()
        invariant
            i <= lengths.len(),
            writes@ == to_write(stored@, lengths@).take(i as int),
        decreases lengths.len() - i,
    {
        let write = i >= stored.len() || is_stale(stored[i], lengths[i]);
        writes.push(write);
        i += 1;
        assert(writes@ =~= to_write(stored@, lengths@).take(i as int));
    }
    assert(writes@ =~= to_write(stored@, lengths@));
    writes
}

/// The sizes of some files.
pub open spec fn file_sizes(files: Seq<Option<Seq<u8>>>) -> Seq<Option<u64>> {
    Seq::new(
        files.len(),
        |i: int|
            match files[i] {
                Some(bytes) => Some(bytes.len() as u64),
                None => None,
            },
    )
}

/// The sizes of some clips.
pub open spec fn clip_sizes(clips: Seq<Seq<u8>>) -> Seq<u64> {
    Seq::new(clips.len(), |i: int| clips[i].len() as u64)
}

/// What the files hold once the clips have been unpacked over them.
pub open spec fn unpacked(
    files: Seq<Option<Seq<u8>>>,
    clips: Seq<Seq<u8>>,
) -> Seq<Option<Seq<u8>>> {
    Seq::new(
        clips.len(),
        |i: int|
            if to_write(file_sizes(files), clip_sizes(clips))[i] {
                Some(clips[i])
            } else {
                files[i]
            },
    )
}

/// Unpacking leaves every clip with a file of exactly its size. A file that was missing or of
/// another size holds the clip, one that had the size already is not written, and a second
/// unpacking writes nothing.
pub proof fn a_second_unpacking_writes_nothing(files: Seq<Option<Seq<u8>>>, clips: Seq<Seq<u8>>)
    requires
        forall|i: int|
            0 <= i < files.len() ==> (#[trigger] files[i] matches Some(bytes) ==> bytes.len()
                <= u64::MAX),
        forall|i: int| 0 <= i < clips.len() ==> (#[trigger] clips[i]).len() <= u64::MAX,
    ensures
        unpacked(files, clips).len() == clips.len(),
        forall|i: int|
            0 <= i < clips.len() ==> {
                &&& #[trigger] unpacked(files, clips)[i] is Some
                &&& unpacked(files, clips)[i]->0.len() == clips[i].len()
                &&& if i < files.len() && files[i] is Some && files[i]->0.len() == clips[i].len() {
                    &&& !to_write(file_sizes(files), clip_sizes(clips))[i]
                    &&& unpacked(files, clips)[i] == files[i]
                } else {
                    &&& to_write(file_sizes(files), clip_sizes(clips))[i]
                    &&& unpacked(files, clips)[i] == Some(clips[i])
                }
            },
        forall|i: int|
            0 <= i < clips.len() ==> !#[trigger] to_write(
                file_sizes(unpacked(files, clips)),
                clip_sizes(clips),
            )[i],
        unpacked(unpacked(files, clips), clips) == unpacked(files, clips),
{
    let after = unpacked(files, clips);
    assert forall|i: int| 0 <= i < clips.len() implies {
        &&& #[trigger] after[i] is Some
        &&& after[i]->0.len() == clips[i].len()
    } by {
        if i < files.len() {
            assert(file_sizes(files)[i] == Some(clip_sizes(clips)[i]) ==> files[i]->0.len()
                == clips[i].len());
        }
    }
    assert forall|i: int| 0 <= i < clips.len() implies !#[trigger] to_write(
        file_sizes(after),
        clip_sizes(clips),
    )[i] by {
        assert(after[i] is Some);
        assert(file_sizes(after)[i] == Some(clip_sizes(clips)[i]));
    }
    assert(unpacked(after, clips) =~= after);
}

/// The first of some results that is there.
pub open spec fn first_found(results: Seq<Option<Seq<char>>>) -> Option<Seq<char>>
    decreases results.len(),
{
    if results.len() == 0 {
        None
    } else if results[0] is Some {
        results[0]
    } else {
        first_found(results.drop_first())
    }
}

/// The first of some results that is there.
fn take_first(results: &Vec<Option<String>>) -> (r: Option<String>)
    ensures
        opt_text(r) == first_found(opt_texts(results@)),
{
    let ghost all = opt_texts(results@);
    let mut i: usize = 0;
    assert(all.skip(0) =~= all);
    while i < results.len()
        invariant
            i <= results.len(),
            all == opt_texts(results@),
            first_found(all) == first_found(all.skip(i as int)),
        decreases results.len() - i,
    {
        assert(all.skip(i as int)[0] == all[i as int]);
        assert(all.skip(i as int).drop_first() =~= all.skip(i + 1));
        match &results[i] {
            Some(found) => {
                return Some(found.clone());
            },
            None => {},
        }
        i += 1;
    }
    None
}

/// A cue is played by the clip that has its own name.
pub proof fn a_cue_has_its_own_clip(cue: Cue)
    ensures
        cue_name(cue) == "move"@ <==> cue == Cue::Move,
        cue_name(cue) == "capture"@ <==> cue == Cue::Capture,
        cue_name(cue) == "check"@ <==> cue == Cue::Check,
        cue_name(cue) == "wrong"@ <==> cue == Cue::Wrong,
        cue_name(cue) == "solved"@ <==> cue == Cue::Solved,
        cue_name(cue) == "end"@ <==> cue == Cue::End,
{
    reveal_strlit("move");
    reveal_strlit("capture");
    reveal_strlit("check");
    reveal_strlit("wrong");
    reveal_strlit("solved");
    reveal_strlit("end");
    assert("move"@.len() == 4 && "capture"@.len() == 7 && "check"@.len() == 5);
    assert("wrong"@.len() == 5 && "solved"@.len() == 6 && "end"@.len() == 3);
    assert("check"@[0] == 'c' && "wrong"@[0] == 'w');
}

/// A WAVE file is told by its head alone: the two tags with any length between them, whatever
/// follows. Another tag in either place, or a file that ends before its second tag does, is none.
pub proof fn a_wave_file_is_told_by_its_head(
    first: Seq<u8>,
    length: Seq<u8>,
    second: Seq<u8>,
    rest: Seq<u8>,
    short: Seq<u8>,
)
    requires
        first.len() == 4,
        length.len() == 4,
        second.len() == 4,
        short.len() < 12,
    ensures
        wave_header(first + length + second + rest) <==> (first == seq![0x52u8, 0x49, 0x46, 0x46]
            && second == seq![0x57u8, 0x41, 0x56, 0x45]),
        !wave_header(short),
{
    let bytes = first + length + second + rest;
    assert(bytes.subrange(0, 4) =~= first);
    assert(bytes.subrange(8, 12) =~= second);
}

/// The first result that is there is the one that is found, and none is found exactly where none is
/// there.
pub proof fn the_first_that_is_there_is_found(results: Seq<Option<Seq<char>>>)
    ensures
        first_found(results) is None <==> (forall|i: int|
            0 <= i < results.len() ==> (#[trigger] results[i]) is None),
        first_found(results) matches Some(found) ==> exists|i: int|
            0 <= i < results.len() && results[i] == Some(found) && (forall|j: int|
                0 <= j < i ==> (#[trigger] results[j]) is None),
    decreases results.len(),
{
    if results.len() > 0 {
        let rest = results.drop_first();
        the_first_that_is_there_is_found(rest);
        if results[0] is None {
            if first_found(rest) is Some {
                let i = choose|i: int|
                    0 <= i < rest.len() && rest[i] == Some(first_found(rest)->0) && (forall|j: int|
                        0 <= j < i ==> (#[trigger] rest[j]) is None);
                assert(results[i + 1] == rest[i]);
                assert forall|j: int| 0 <= j < i + 1 implies (#[trigger] results[j]) is None by {
                    if j > 0 {
                        assert(rest[j - 1] == results[j]);
                    }
                }
            } else {
                assert forall|i: int| 0 <= i < results.len() implies (#[trigger] results[i]) is None
                    by {
                    if i > 0 {
                        assert(rest[i - 1] == results[i]);
                    }
                }
            }
        }
    }
}

/// A program found on the search path: the first candidate that is a file.
///
/// `candidates` holds, for each directory of the path in order, the program's path in that
/// directory where a file stands there, and nothing where none does.
pub fn which(candidates: &Vec<Option<String>>) -> (r: Option<String>)
    ensures
        opt_text(r) == first_found(opt_texts(candidates@)),
{
    take_first(candidates)
}

/// The sounds of a running application.
pub struct Sounds {
    player: Option<String>,
    dir: String,
}

/// What a [`Sounds`] holds.
#[verifier::ext_equal]
pub struct SoundsModel {
    pub player: Option<Seq<char>>,
    pub dir: Seq<char>,
}

impl View for Sounds {
    type V = SoundsModel;

    closed spec fn view(&self) -> SoundsModel {
        SoundsModel { player: opt_text(self.player), dir: self.dir@ }
    }
}

impl Sounds {
    /// Choose a player. Sound is off where silence was asked for or the clips could not be
    /// unpacked into `dir`; otherwise the first player of [`players`] that was found plays,
    /// and `found` says for each of them where it is.
    pub fn new(dir: String, silent: bool, unpacked: bool, found: &Vec<Option<String>>) -> (r: Self)
        ensures
            r@ == (SoundsModel {
                player: if silent || !unpacked {
                    None
                } else {
                    first_found(opt_texts(found@))
                },
                dir: dir@,
            }),
    {
        let player = if silent || !unpacked {
            None
        } else {
            take_first(found)
        };
        Sounds { player, dir }
    }

    /// Whether anything will be heard.
    pub fn is_audible(&self) -> (r: bool)
        ensures
            r == (self@.player is Some),
    {
        self.player.is_some()
    }

    /// The directory that the clips are unpacked into.
    pub fn dir(&self) -> (r: &str)
        ensures
            r@ == self@.dir,
    {
        self.dir.as_str()
    }

    /// What playing a cue runs: the player, and the clip's file in [`Sounds::dir`]. Nothing
    /// where there is no player.
    pub fn play(&self, cue: Cue) -> (r: Option<(String, String)>)
        ensures
            match r {
                Some((player, file)) => self@.player == Some(player@) && file@ == clip_file_name(
                    cue_name(cue),
                ),
                None => self@.player is None,
            },
    {
        match &self.player {
            Some(player) => Some((player.clone(), clip_file(cue.name()))),
            None => None,
        }
    }
}

/// No two cues share a clip, so each can be told from the others by its sound.
pub proof fn cues_have_their_own_clips(a: Cue, b: Cue)
    requires
        a != b,
    ensures
        clip_file_name(cue_name(a)) != clip_file_name(cue_name(b)),
{
    reveal_strlit("move");
    reveal_strlit("capture");
    reveal_strlit("check");
    reveal_strlit("wrong");
    reveal_strlit("solved");
    reveal_strlit("end");
    reveal_strlit(".wav");
    let x = cue_name(a);
    let y = cue_name(b);
    assert(x.len() != y.len() || x[0] != y[0] || x[1] != y[1]);
    if clip_file_name(x) == clip_file_name(y) {
        assert(clip_file_name(x).len() == x.len() + 4 && clip_file_name(y).len() == y.len() + 4);
        assert(clip_file_name(x)[0] == x[0] && clip_file_name(y)[0] == y[0]);
        assert(clip_file_name(x)[1] == x[1] && clip_file_name(y)[1] == y[1]);
    }
}

} // verus!
