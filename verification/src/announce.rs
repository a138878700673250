//! Saying what just happened, across the width of the window.
//!
//! One mechanism for everything: a line of text across the window, stating the outcome in words.
//! It never takes input, so it cannot swallow the next click, and everything it says clears
//! itself. What happened is a moment; a tab's own status line is where the state belongs.

use vstd::prelude::*;
use vstd::string::*;

verus! {

/// What kind of thing is being announced. Only the colour differs; the mechanism is deliberately
/// identical for all of them.
#[derive(Debug, Clone, Copy, PartialEq, Eq, Structural)]
pub enum Tone {
    /// The move was refused: illegal, not yours, not now.
    Rejected,
    /// The player got the result they were after.
    Won,
    /// The player did not.
    Lost,
    /// Neither, and that is sometimes the goal.
    Drawn,
    /// A statement of fact with no verdict attached.
    Ended,
}

/// How long a refused move stays on screen, in milliseconds. Long enough to read six words,
/// short enough not to sit over the position while you look for the real move.
pub const REJECTED_MS: u64 = 1_800;

/// How long a result stays, in milliseconds. Long enough to read a sentence and glance at the
/// board, short enough that it is gone before you want the board back.
pub const RESULT_MS: u64 = 4_500;

/// The style class of a tone.
pub open spec fn tone_class(tone: Tone) -> Seq<char> {
    match tone {
        Tone::Rejected => "rejected"@,
        Tone::Won => "won"@,
        Tone::Lost => "lost"@,
        Tone::Drawn => "drawn"@,
        Tone::Ended => "ended"@,
    }
}

/// How long a tone stays up, in milliseconds.
pub open spec fn dwell_ms(tone: Tone) -> u64 {
    match tone {
        Tone::Rejected => REJECTED_MS,
        _ => RESULT_MS,
    }
}

impl Tone {
    /// The style class of this tone.
    pub fn css(self) -> (r: &'static str)
        ensures
            r@ == tone_class(self),
    {
        match self {
            Tone::Rejected => "rejected",
            Tone::Won => "won",
            Tone::Lost => "lost",
            Tone::Drawn => "drawn",
            Tone::Ended => "ended",
        }
    }

    /// How long this stays up, in milliseconds. Everything goes away on its own; a result is
    /// simply given longer, because it is a whole sentence rather than a nudge and it usually
    /// arrives with a position worth reading underneath it.
    pub fn dwell(self) -> (r: u64)
        ensures
            r == dwell_ms(self),
    {
        match self {
            Tone::Rejected => REJECTED_MS,
            _ => RESULT_MS,
        }
    }
}

/// The banner's state.
pub struct Banner {
    pub visible: bool,
    pub text: String,
    /// The tone whose class the label carries, once it has carried one.
    pub class: Option<Tone>,
    /// The running timer that will hide the message, by its length in milliseconds. It is
    /// replaced whenever a new message comes, so the second does not inherit the first's clock.
    pub hide: Option<u64>,
    /// What was last said.
    pub last: Option<(Tone, String)>,
}

/// What a [`Banner`] holds.
#[verifier::ext_equal]
pub struct BannerModel {
    pub visible: bool,
    pub text: Seq<char>,
    pub class: Option<Tone>,
    pub hide: Option<u64>,
    pub last: Option<(Tone, Seq<char>)>,
}

/// What was announced, as plain text.
pub open spec fn said_text(said: Option<(Tone, String)>) -> Option<(Tone, Seq<char>)> {
    match said {
        Some((tone, text)) => Some((tone, text@)),
        None => None,
    }
}

impl View for Banner {
    type V = BannerModel;

    open spec fn view(&self) -> BannerModel {
        BannerModel {
            visible: self.visible,
            text: self.text@,
            class: self.class,
            hide: self.hide,
            last: said_text(self.last),
        }
    }
}

/// What an optional banner holds.
pub open spec fn opt_banner(banner: Option<Banner>) -> Option<BannerModel> {
    match banner {
        Some(banner) => Some(banner@),
        None => None,
    }
}

/// A banner that has said nothing.
pub open spec fn quiet() -> BannerModel {
    BannerModel { visible: false, text: ""@, class: None, hide: None, last: None }
}

/// The banner after something was said. Without a banner nothing is said.
pub open spec fn after_saying(
    banner: Option<BannerModel>,
    tone: Tone,
    text: Seq<char>,
) -> Option<BannerModel> {
    match banner {
        Some(_) => Some(
            BannerModel {
                visible: true,
                text,
                class: Some(tone),
                hide: Some(dwell_ms(tone)),
                last: Some((tone, text)),
            },
        ),
        None => None,
    }
}

/// The banner after its message was taken down.
pub open spec fn after_clearing(banner: Option<BannerModel>) -> Option<BannerModel> {
    match banner {
        Some(banner) => Some(BannerModel { visible: false, hide: None, last: None, ..banner }),
        None => None,
    }
}

/// The banner after its timer ran out.
pub open spec fn after_expiry(banner: Option<BannerModel>) -> Option<BannerModel> {
    match banner {
        Some(banner) => Some(BannerModel { visible: false, hide: None, ..banner }),
        None => None,
    }
}

/// What is being announced.
pub open spec fn showing(banner: Option<BannerModel>) -> Option<(Tone, Seq<char>)> {
    match banner {
        Some(banner) => if banner.visible {
            banner.last
        } else {
            None
        },
        None => None,
    }
}

/// A message is showing exactly while a timer runs that will take it down.
pub open spec fn banner_inv(banner: Option<BannerModel>) -> bool {
    match banner {
        Some(banner) => {
            &&& banner.visible <==> banner.hide is Some
            &&& banner.visible ==> banner.last is Some
            &&& banner.hide matches Some(left) ==> left > 0
        },
        None => true,
    }
}

/// Nothing stays on the screen: whatever is said carries a timer of a positive length, and is
/// gone once that has run out. A refused move goes sooner than a result.
pub proof fn everything_clears_itself(banner: Option<BannerModel>, tone: Tone, text: Seq<char>)
    requires
        banner_inv(banner),
    ensures
        dwell_ms(tone) > 0,
        tone != Tone::Rejected ==> dwell_ms(Tone::Rejected) < dwell_ms(tone),
        banner_inv(Some(quiet())),
        banner_inv(after_saying(banner, tone, text)),
        banner_inv(after_clearing(banner)),
        banner_inv(after_expiry(banner)),
        showing(after_expiry(after_saying(banner, tone, text))) is None,
        showing(after_clearing(after_saying(banner, tone, text))) is None,
{
}

/// What is said is what is read back, and it replaces whatever was said before.
pub proof fn what_is_said_is_showing(
    banner: Option<BannerModel>,
    tone: Tone,
    text: Seq<char>,
    later: Tone,
    other: Seq<char>,
)
    requires
        banner is Some,
    ensures
        showing(after_saying(banner, tone, text)) == Some((tone, text)),
        after_saying(after_saying(banner, tone, text), later, other) == after_saying(
            banner,
            later,
            other,
        ),
{
}

/// What is announced is shown at once, in its own words and tone, for as long as that kind of thing
/// stays: a refused move for under two seconds and anything else for four and a half. Without a banner
/// nothing is shown, and taking a message down leaves nothing showing.
pub proof fn a_message_is_shown_for_its_time(
    banner: Option<BannerModel>,
    tone: Tone,
    text: Seq<char>,
)
    ensures
        banner is Some ==> {
            let after = after_saying(banner, tone, text);
            &&& after is Some
            &&& after->0.visible
            &&& after->0.text == text
            &&& after->0.class == Some(tone)
            &&& after->0.hide == Some(
                if tone == Tone::Rejected {
                    1800u64
                } else {
                    4500u64
                },
            )
        },
        banner is None ==> after_saying(banner, tone, text) is None,
        showing(after_clearing(banner)) is None,
        showing(after_expiry(banner)) is None,
{
}

/// Each tone has a class of its own, or they could not be told apart; and what was won is not
/// coloured as lost, nor a refusal as a result.
pub proof fn tones_have_their_own_classes(a: Tone, b: Tone)
    ensures
        tone_class(a) == tone_class(b) ==> a == b,
        tone_class(a) == "won"@ <==> a == Tone::Won,
        tone_class(a) == "lost"@ <==> a == Tone::Lost,
        tone_class(a) == "drawn"@ <==> a == Tone::Drawn,
        tone_class(a) == "rejected"@ <==> a == Tone::Rejected,
        tone_class(a) == "ended"@ <==> a == Tone::Ended,
{
    reveal_strlit("rejected");
    reveal_strlit("won");
    reveal_strlit("lost");
    reveal_strlit("drawn");
    reveal_strlit("ended");
    assert("drawn"@[0] != "ended"@[0]);
    assert("rejected"@.len() == 8 && "won"@.len() == 3 && "lost"@.len() == 4);
    assert("drawn"@.len() == 5 && "ended"@.len() == 5);
}

/// Put a banner over the window.
pub fn install(banner: &mut Option<Banner>)
    ensures
        opt_banner(*final(banner)) == Some(quiet()),
{
    *banner = Some(
        Banner { visible: false, text: "".to_owned(), class: None, hide: None, last: None },
    );
}

/// Say something across the window.
pub fn say(banner: &mut Option<Banner>, tone: Tone, text: &str)
    ensures
        opt_banner(*final(banner)) == after_saying(opt_banner(*old(banner)), tone, text@),
{
    if banner.is_some() {
        *banner = Some(
            Banner {
                visible: true,
                text: text.to_owned(),
                class: Some(tone),
                hide: Some(tone.dwell()),
                last: Some((tone, text.to_owned())),
            },
        );
    }
}

/// Take the message down, which every board does when it starts a new position.
pub fn clear(banner: &mut Option<Banner>)
    ensures
        opt_banner(*final(banner)) == after_clearing(opt_banner(*old(banner))),
{
    match banner.take() {
        Some(shown) => {
            *banner = Some(
                Banner {
                    visible: false,
                    text: shown.text,
                    class: shown.class,
                    hide: None,
                    last: None,
                },
            );
        },
        None => {},
    }
}

/// The timer ran out.
pub fn expire(banner: &mut Option<Banner>)
    ensures
        opt_banner(*final(banner)) == after_expiry(opt_banner(*old(banner))),
{
    match banner.take() {
        Some(shown) => {
            *banner = Some(
                Banner {
                    visible: false,
                    text: shown.text,
                    class: shown.class,
                    hide: None,
                    last: shown.last,
                },
            );
        },
        None => {},
    }
}

/// What was last announced, if anything is showing.
pub fn last(banner: &Option<Banner>) -> (r: Option<(Tone, String)>)
    ensures
        said_text(r) == showing(opt_banner(*banner)),
{
    match banner {
        Some(shown) => {
            if shown.visible {
                match &shown.last {
                    Some((tone, text)) => Some((*tone, text.clone())),
                    None => None,
                }
            } else {
                None
            }
        },
        None => None,
    }
}

} // verus!
