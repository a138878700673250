//! Numbers as a person reads them.

use crate::text::{decimal, glue2, number, plural, push_number, push_plural};
use vstd::prelude::*;
use vstd::string::*;

verus! {

/// A quotient rounded to the nearest whole number, and to the even one of two that are as near.
pub open spec fn rounded(n: int, d: int) -> int {
    let q = n / d;
    let r = n % d;
    if 2 * r > d || 2 * r == d && q % 2 == 1 {
        q + 1
    } else {
        q
    }
}

/// A power of two.
pub open spec fn power2(n: nat) -> int
    decreases n,
{
    if n == 0 {
        1
    } else {
        2 * power2((n - 1) as nat)
    }
}

/// How often a number can be halved before it falls below two.
pub open spec fn halvings(n: int) -> nat
    decreases n,
{
    if n < 2 {
        0
    } else {
        1 + halvings(n / 2)
    }
}

/// A number as a binary floating-point number of double precision holds it: exactly, as long as
/// it has no more than 53 binary digits, and rounded to 53 of them otherwise.
pub open spec fn as_double(n: int) -> int {
    let digits = halvings(n) + 1;
    if digits <= 53 {
        n
    } else {
        rounded(n, power2((digits - 53) as nat)) * power2((digits - 53) as nat)
    }
}

/// A number of millions in tenths, as double precision divides and one decimal shows it.
pub open spec fn tenths_of_millions(n: int) -> int {
    let whole = as_double(n);
    // The quotient lies between two powers of two, which leaves it this many binary digits behind
    // the point.
    let behind = (52 - halvings(whole / 1_000_000)) as nat;
    let quotient = rounded(whole * power2(behind), 1_000_000);
    rounded(quotient * 10, power2(behind))
}

/// A count as it is shown: in full up to four digits, in thousands up to six, in millions with
/// one decimal beyond.
pub open spec fn compact_text(count: u64) -> Seq<char> {
    if count <= 9_999 {
        decimal(count as nat)
    } else if count <= 999_999 {
        decimal(rounded(count as int, 1_000) as nat) + "k"@
    } else {
        let tenths = tenths_of_millions(count as int);
        decimal((tenths / 10) as nat) + "."@ + decimal((tenths % 10) as nat) + "M"@
    }
}

/// Powers of two are positive.
proof fn power2_positive(n: nat)
    ensures
        power2(n) >= 1,
    decreases n,
{
    if n > 0 {
        power2_positive((n - 1) as nat);
    }
}

/// A number lies between the powers of two that its halvings count.
proof fn halvings_bound(n: int)
    requires
        n >= 1,
    ensures
        power2(halvings(n)) <= n < power2(halvings(n) + 1),
    decreases n,
{
    if n >= 2 {
        halvings_bound(n / 2);
    }
}

/// A larger power of two is larger.
proof fn power2_grows(a: nat, b: nat)
    requires
        a <= b,
    ensures
        power2(a) <= power2(b),
    decreases b,
{
    if a < b {
        power2_grows(a, (b - 1) as nat);
        power2_positive((b - 1) as nat);
    }
}

/// A power of two is the product of two that share its exponent.
proof fn power2_adds(a: nat, b: nat)
    ensures
        power2(a) * power2(b) == power2(a + b),
    decreases a,
{
    if a > 0 {
        power2_adds((a - 1) as nat, b);
        assert(power2(a) * power2(b) == 2 * (power2((a - 1) as nat) * power2(b)))
            by (nonlinear_arith)
            requires
                power2(a) == 2 * power2((a - 1) as nat),
        ;
    }
}

/// Some powers of two.
proof fn some_powers()
    ensures
        power2(11) == 0x800,
        power2(45) == 0x2000_0000_0000,
        power2(52) == 0x10_0000_0000_0000,
        power2(64) == 0x1_0000_0000_0000_0000,
{
    assert(power2(4) == 16) by {
        reveal_with_fuel(power2, 5);
    }
    power2_adds(4, 4);
    assert(power2(8) == 0x100) by (nonlinear_arith)
        requires
            power2(4) == 16,
            power2(4) * power2(4) == power2(8),
    ;
    power2_adds(8, 8);
    assert(power2(16) == 0x1_0000) by (nonlinear_arith)
        requires
            power2(8) == 0x100,
            power2(8) * power2(8) == power2(16),
    ;
    power2_adds(16, 16);
    assert(power2(32) == 0x1_0000_0000) by (nonlinear_arith)
        requires
            power2(16) == 0x1_0000,
            power2(16) * power2(16) == power2(32),
    ;
    power2_adds(32, 32);
    assert(power2(64) == 0x1_0000_0000_0000_0000) by (nonlinear_arith)
        requires
            power2(32) == 0x1_0000_0000,
            power2(32) * power2(32) == power2(64),
    ;
    power2_adds(32, 16);
    assert(power2(48) == 0x1_0000_0000_0000) by (nonlinear_arith)
        requires
            power2(32) == 0x1_0000_0000,
            power2(16) == 0x1_0000,
            power2(32) * power2(16) == power2(48),
    ;
    power2_adds(48, 4);
    assert(power2(52) == 0x10_0000_0000_0000) by (nonlinear_arith)
        requires
            power2(48) == 0x1_0000_0000_0000,
            power2(4) == 16,
            power2(48) * power2(4) == power2(52),
    ;
    assert(power2(11) == 8 * power2(8)) by {
        reveal_with_fuel(power2, 4);
    }
    assert(power2(48) == 8 * power2(45)) by {
        reveal_with_fuel(power2, 4);
    }
}

/// A quotient rounded to the nearest whole number, and to the even one of two that are as near.
fn round_half_even(n: u128, d: u128) -> (r: u128)
    requires
        0 < d < 0x4000_0000_0000_0000_0000_0000_0000_0000,
        n < 0x4000_0000_0000_0000_0000_0000_0000_0000,
    ensures
        r == rounded(n as int, d as int),
        r <= n / d + 1,
{
    let q = n / d;
    let r = n % d;
    assert(q <= n) by (nonlinear_arith)
        requires
            d > 0,
            q == n / d,
    ;
    if 2 * r > d || (2 * r == d && q % 2 == 1) {
        q + 1
    } else {
        q
    }
}

/// How often a number can be halved before it falls below two, with the power of two that many
/// halvings make.
fn count_halvings(n: u64) -> (r: (u32, u64))
    requires
        n >= 1,
    ensures
        r.0 == halvings(n as int),
        r.1 == power2(halvings(n as int)),
        r.0 < 64,
{
    let mut left = n;
    let mut count: u32 = 0;
    let mut power: u64 = 1;
    proof {
        halvings_bound(n as int);
        some_powers();
        if halvings(n as int) >= 64 {
            power2_grows(64, halvings(n as int));
        }
    }
    while left >= 2
        invariant
            n >= 1,
            left >= 1,
            halvings(n as int) == count + halvings(left as int),
            halvings(n as int) < 64,
            power == power2(count as nat),
            power2(halvings(n as int)) <= n,
        decreases left,
    {
        proof {
            power2_grows((count + 1) as nat, halvings(n as int));
        }
        left = left / 2;
        count += 1;
        power = power * 2;
    }
    (count, power)
}

/// A number as double precision holds it.
fn to_double(n: u64) -> (r: u128)
    requires
        n >= 1,
    ensures
        r == as_double(n as int),
        n <= 0xffff_ffff_ffff_ffff ==> r <= 0x1_0000_0000_0000_0000,
        r >= 1,
        n >= 1_000_000 ==> r >= 1_000_000,
{
    let (count, power) = count_halvings(n);
    if count + 1 <= 53 {
        return n as u128;
    }
    let behind: u32 = count - 52;
    let ghost shift = (halvings(n as int) - 52) as nat;
    // The power of two that 52 halvings fewer make.
    let unit: u64 = power / 0x10_0000_0000_0000;
    proof {
        some_powers();
        power2_adds(shift, 52);
        power2_positive(shift);
        assert(power == unit * 0x10_0000_0000_0000);
        assert(unit == power2(shift));
        halvings_bound(n as int);
        power2_grows(shift, 11);
    }
    let m = round_half_even(n as u128, unit as u128);
    proof {
        let q = n as int / unit as int;
        // The rounded quotient has at most 53 binary digits, or is the next power of two.
        assert(n as int <= 0x20_0000_0000_0000 * unit as int - 1) by {
            assert(power2((halvings(n as int) + 1) as nat) == 2 * power);
        }
        assert(q <= 0x20_0000_0000_0000 - 1 && q >= 0x10_0000_0000_0000) by (nonlinear_arith)
            requires
                q == n as int / unit as int,
                unit > 0,
                n as int <= 0x20_0000_0000_0000 * unit as int - 1,
                n as int >= 0x10_0000_0000_0000 * unit as int,
        ;
        assert(m <= 0x20_0000_0000_0000);
        assert(m >= 0x10_0000_0000_0000);
        assert(m * unit <= 0x20_0000_0000_0000 * 2048) by (nonlinear_arith)
            requires
                0 <= m <= 0x20_0000_0000_0000,
                0 <= unit <= 2048,
        ;
        assert(m * unit >= 0x10_0000_0000_0000) by (nonlinear_arith)
            requires
                m >= 0x10_0000_0000_0000,
                unit >= 1,
        ;
    }
    m * (unit as u128)
}

/// A number of millions in tenths, as double precision divides and one decimal shows it.
fn millions(n: u64) -> (r: u64)
    requires
        n >= 1_000_000,
    ensures
        r == tenths_of_millions(n as int),
{
    let whole = to_double(n);
    let floor: u64 = (whole / 1_000_000) as u64;
    let (count, power) = count_halvings(floor);
    proof {
        halvings_bound(floor as int);
        some_powers();
        if halvings(floor as int) >= 45 {
            power2_grows(45, halvings(floor as int));
        }
        power2_adds((52 - count) as nat, count as nat);
        power2_positive(count as nat);
        power2_positive((52 - count) as nat);
    }
    let scale: u64 = 0x10_0000_0000_0000 / power;
    proof {
        assert(scale == power2((52 - count) as nat)) by (nonlinear_arith)
            requires
                power2((52 - count) as nat) * power2(count as nat) == 0x10_0000_0000_0000,
                power == power2(count as nat),
                power >= 1,
                scale == 0x10_0000_0000_0000u64 / power,
        ;
        // The quotient is below the next power of two.
        assert(whole < 2 * power * 1_000_000);
        assert(whole * scale < 0x20_0000_0000_0000 * 1_000_000) by (nonlinear_arith)
            requires
                whole < 2 * power * 1_000_000,
                power * scale == 0x10_0000_0000_0000,
                scale >= 1,
        ;
    }
    let quotient = round_half_even(whole * (scale as u128), 1_000_000);
    let tenths = round_half_even(quotient * 10, scale as u128);
    assert(tenths <= 0x20_0000_0000_0000 * 10 + 20) by {
        let n = (quotient * 10) as int;
        let d = scale as int;
        assert(n / d <= n) by (nonlinear_arith)
            requires
                n >= 0,
                d >= 1,
        ;
    }
    tenths as u64
}

/// Millions of puzzles do not fit in a window subtitle, and the exact figure is not what the
/// reader wants from it.
pub fn compact(count: u64) -> (r: String)
    ensures
        r@ == compact_text(count),
{
    if count <= 9_999 {
        number(count)
    } else if count <= 999_999 {
        let thousands = round_half_even(count as u128, 1_000) as u64;
        glue2(number(thousands).as_str(), "k")
    } else {
        let tenths = millions(count);
        let mut text = number(tenths / 10);
        text.append(".");
        push_number(&mut text, tenths % 10);
        text.append("M");
        text
    }
}

/// Rounding gives the nearest whole number, and of two that are as near the even one.
pub proof fn rounding_goes_to_the_nearest(n: int, d: int)
    requires
        d > 0,
    ensures
        -d <= 2 * (n - d * rounded(n, d)) <= d,
        2 * (n - d * rounded(n, d)) == d || 2 * (n - d * rounded(n, d)) == -d ==> rounded(n, d) % 2
            == 0,
{
    let q = n / d;
    let r = n % d;
    assert(n == d * q + r && 0 <= r < d) by (nonlinear_arith)
        requires
            d > 0,
            q == n / d,
            r == n % d,
    ;
    assert(d * (q + 1) == d * q + d) by (nonlinear_arith);
}

/// Double precision holds a number of 64 binary digits to within a thousand or so.
proof fn a_double_is_near(n: int)
    requires
        1 <= n <= u64::MAX,
    ensures
        -1024 <= as_double(n) - n <= 1024,
        n >= 1_000_000 ==> as_double(n) >= 1_000_000,
{
    let digits = halvings(n) + 1;
    halvings_bound(n);
    some_powers();
    if halvings(n) >= 64 {
        power2_grows(64, halvings(n));
    }
    if digits > 53 {
        let unit = power2((digits - 53) as nat);
        power2_grows((digits - 53) as nat, 11);
        power2_positive((digits - 53) as nat);
        power2_grows(52, halvings(n));
        rounding_goes_to_the_nearest(n, unit);
        assert(rounded(n, unit) * unit == unit * rounded(n, unit)) by (nonlinear_arith);
    }
}

/// A number of millions in tenths is the number that it is shown for, to within the half of a tenth
/// and what double precision loses.
proof fn tenths_are_near(n: int)
    requires
        1_000_000 <= n <= u64::MAX,
    ensures
        -53_000 <= 100_000 * tenths_of_millions(n) - n <= 53_000,
{
    let whole = as_double(n);
    a_double_is_near(n);
    let floor = whole / 1_000_000;
    let h = halvings(floor);
    halvings_bound(floor);
    some_powers();
    if h >= 45 {
        power2_grows(45, h);
    }
    let behind = (52 - h) as nat;
    let p = power2(behind);
    power2_grows(8, behind);
    assert(power2(8) == 256) by {
        reveal_with_fuel(power2, 9);
    }
    let q = rounded(whole * p, 1_000_000);
    let t = rounded(q * 10, p);
    rounding_goes_to_the_nearest(whole * p, 1_000_000);
    rounding_goes_to_the_nearest(q * 10, p);
    let off = 20 * whole - 2_000_000 * t;
    assert(p * off == 20 * (whole * p) - 2_000_000 * (p * t)) by (nonlinear_arith)
        requires
            off == 20 * whole - 2_000_000 * t,
    ;
    assert(-1_039_063 <= off <= 1_039_063) by (nonlinear_arith)
        requires
            p >= 256,
            -(1_000_000 * p + 10_000_000) <= p * off <= 1_000_000 * p + 10_000_000,
    ;
}

/// A count of up to four digits is shown in full; one of up to six as the thousands that it is
/// nearest to; a larger one in millions, to a single decimal.
pub proof fn a_count_is_shown_for_what_it_is(count: u64)
    ensures
        count <= 9_999 ==> compact_text(count) == decimal(count as nat),
        10_000 <= count <= 999_999 ==> exists|thousands: nat|
            compact_text(count) == #[trigger] decimal(thousands) + "k"@ && -500 <= count - 1_000
                * thousands <= 500,
        count >= 1_000_000 ==> exists|whole: nat, tenth: nat|
            compact_text(count) == #[trigger] decimal(whole) + "."@ + #[trigger] decimal(tenth)
                + "M"@ && tenth < 10 && -53_000 <= 1_000_000 * whole + 100_000 * tenth - count
                <= 53_000,
{
    if 10_000 <= count <= 999_999 {
        rounding_goes_to_the_nearest(count as int, 1_000);
        let thousands = rounded(count as int, 1_000) as nat;
        assert(compact_text(count) == decimal(thousands) + "k"@);
    }
    if count >= 1_000_000 {
        tenths_are_near(count as int);
        let tenths = tenths_of_millions(count as int);
        let whole = (tenths / 10) as nat;
        let tenth = (tenths % 10) as nat;
        assert(compact_text(count) == decimal(whole) + "."@ + decimal(tenth) + "M"@);
    }
}

/// A number divided by another, without what is left over, towards zero.
pub open spec fn whole_part(n: int, d: int) -> int {
    if n < 0 {
        -((-n) / d)
    } else {
        n / d
    }
}

/// A span of time as a person would say it.
pub open spec fn span_text(seconds: int) -> Seq<char> {
    let minutes = whole_part(seconds, 60);
    let hours = whole_part(seconds, 3_600);
    let days = whole_part(seconds, 86_400);
    if minutes < 1 {
        "under a minute"@
    } else if minutes < 60 {
        decimal(minutes as nat) + " min"@
    } else if hours < 48 {
        decimal(hours as nat) + " h"@
    } else {
        decimal(days as nat) + " days"@
    }
}

/// A span of time as a person would say it. A span is read to judge whether a repeat is far
/// enough from the first solve to mean anything, so the units change where a reader would change
/// them.
pub fn humanise(seconds: i64) -> (r: String)
    ensures
        r@ == span_text(seconds as int),
{
    if seconds < 60 {
        return "under a minute".to_owned();
    }
    let minutes = (seconds / 60) as u64;
    let hours = (seconds / 3_600) as u64;
    if minutes < 60 {
        glue2(number(minutes).as_str(), " min")
    } else if hours < 48 {
        glue2(number(hours).as_str(), " h")
    } else {
        glue2(number((seconds / 86_400) as u64).as_str(), " days")
    }
}

/// Every span is said in the unit that suits it: minutes below an hour, hours below two days, and
/// days from there on; and a longer span never reads as a smaller number of the same unit.
pub proof fn spans_change_units_where_a_reader_would(a: int, b: int)
    requires
        0 <= a <= b,
    ensures
        a < 60 ==> span_text(a) == "under a minute"@,
        60 <= a < 3_600 ==> span_text(a) == decimal((a / 60) as nat) + " min"@,
        3_600 <= a < 172_800 ==> span_text(a) == decimal((a / 3_600) as nat) + " h"@,
        172_800 <= a ==> span_text(a) == decimal((a / 86_400) as nat) + " days"@,
        a / 60 <= b / 60,
        a / 3_600 <= b / 3_600,
        a / 86_400 <= b / 86_400,
{
}

/// A wait as it would be spoken.
pub open spec fn wait_text(millis: int) -> Seq<char> {
    let left = if millis < 0 {
        0
    } else {
        millis
    };
    if left < 3_600_000 {
        // A minute that has begun counts, and there is always one.
        let minutes = if left <= 60_000 {
            1
        } else {
            (left + 59_999) / 60_000
        };
        decimal(minutes as nat) + " minute"@ + plural(minutes)
    } else {
        let hours = (left + 1_800_000) / 3_600_000;
        decimal(hours as nat) + " hour"@ + plural(hours)
    }
}

/// A wait, given in milliseconds, in the units a person would use for it. A negative wait means
/// it is already ready, and is never spoken as one.
pub fn describe_wait(millis: i64) -> (r: String)
    ensures
        r@ == wait_text(millis as int),
{
    let left: i64 = if millis < 0 {
        0
    } else {
        millis
    };
    let (count, unit): (u64, &str) = if left < 3_600_000 {
        let minutes: i64 = if left <= 60_000 {
            1
        } else {
            (left + 59_999) / 60_000
        };
        (minutes as u64, " minute")
    } else {
        let hours: i64 = if left % 3_600_000 < 1_800_000 {
            left / 3_600_000
        } else {
            left / 3_600_000 + 1
        };
        (hours as u64, " hour")
    };
    let mut text = number(count);
    text.append(unit);
    push_plural(&mut text, count);
    text
}

/// Minutes and seconds on the clock.
pub open spec fn clock_text(seconds: u64) -> Seq<char> {
    decimal((seconds / 60) as nat) + ":"@ + two_digits((seconds % 60) as nat)
}

/// A number below a hundred, with a zero in front where it has one digit.
pub open spec fn two_digits(n: nat) -> Seq<char> {
    if n < 10 {
        "0"@ + decimal(n)
    } else {
        decimal(n)
    }
}

/// The clock shows whole minutes and, in two digits, the seconds that are left: a minute later it shows
/// one minute more and the same seconds.
pub proof fn the_clock_shows_minutes_and_seconds(minutes: u64, seconds: u64)
    requires
        seconds < 60,
        60 * minutes + seconds <= u64::MAX,
    ensures
        clock_text((60 * minutes + seconds) as u64) == decimal(minutes as nat) + ":"@ + (
        if seconds < 10 {
            "0"@ + decimal(seconds as nat)
        } else {
            decimal(seconds as nat)
        }),
{
    let whole = (60 * minutes + seconds) as u64;
    assert(whole / 60 == minutes && whole % 60 == seconds);
}

/// A wait is said in minutes below an hour, in hours from there on, is never said to be nothing, and is
/// never said to be shorter than it is while it is said in minutes.
pub proof fn a_wait_is_never_understated(millis: int)
    ensures
        millis <= 60_000 ==> wait_text(millis) == decimal(1) + " minute"@ + ""@,
        60_000 < millis < 3_600_000 ==> exists|minutes: nat|
            #![trigger decimal(minutes)]
            wait_text(millis) == decimal(minutes) + " minute"@ + "s"@ && (minutes - 1) * 60_000
                < millis <= minutes * 60_000,
        millis >= 3_600_000 ==> exists|hours: nat|
            #![trigger decimal(hours)]
            wait_text(millis) == decimal(hours) + " hour"@ + plural(hours as int) && hours
                * 3_600_000 - 1_800_000 <= millis < hours * 3_600_000 + 1_800_000,
{
    if 60_000 < millis < 3_600_000 {
        let minutes = ((millis + 59_999) / 60_000) as nat;
        assert(wait_text(millis) == decimal(minutes) + " minute"@ + "s"@);
    }
    if millis >= 3_600_000 {
        let hours = ((millis + 1_800_000) / 3_600_000) as nat;
        assert(wait_text(millis) == decimal(hours) + " hour"@ + plural(hours as int));
    }
}

/// The subtitle says where things stand: the rating, how many are due, and that there is nothing to
/// solve exactly where nothing is loaded.
pub proof fn the_subtitle_says_where_things_stand(rating: Seq<char>, due: u64, total: u64)
    ensures
        total == 0 ==> summary_text(rating, due, total)
            == "No puzzles loaded — run `omachess ingest <lichess_db_puzzle.csv.zst>`"@,
        total > 0 ==> summary_text(rating, due, total) == "Rating "@ + rating + " · "@ + decimal(
            due as nat,
        ) + " due · "@ + compact_text(total) + " puzzles"@,
{
}

/// Minutes and seconds on the clock.
pub fn clock(seconds: u64) -> (r: String)
    ensures
        r@ == clock_text(seconds),
{
    let rest = seconds % 60;
    let tail = if rest < 10 {
        glue2("0", number(rest).as_str())
    } else {
        number(rest)
    };
    crate::text::glue3(number(seconds / 60).as_str(), ":", tail.as_str())
}

/// A line for the window's subtitle: where things stand.
pub open spec fn summary_text(rating: Seq<char>, due: u64, total: u64) -> Seq<char> {
    if total == 0 {
        "No puzzles loaded — run `omachess ingest <lichess_db_puzzle.csv.zst>`"@
    } else {
        "Rating "@ + rating + " · "@ + decimal(due as nat) + " due · "@ + compact_text(total)
            + " puzzles"@
    }
}

/// A one-line summary of where things stand, for the window subtitle.
pub fn summary(rating: &str, due: u64, total: u64) -> (r: String)
    ensures
        r@ == summary_text(rating@, due, total),
{
    if total == 0 {
        "No puzzles loaded — run `omachess ingest <lichess_db_puzzle.csv.zst>`".to_owned()
    } else {
        let mut text = crate::text::glue5(
            "Rating ",
            rating,
            " · ",
            number(due).as_str(),
            " due · ",
        );
        text.append(compact(total).as_str());
        text.append(" puzzles");
        text
    }
}

} // verus!
