//! Building the strings that the application shows.

use vstd::prelude::*;
use vstd::string::*;

verus! {

/// The character of one decimal digit.
pub open spec fn digit(d: int) -> char {
    (48 + d) as char
}

/// A number in decimal, without leading zeros.
pub open spec fn decimal(n: nat) -> Seq<char>
    decreases n,
{
    if n < 10 {
        seq![digit(n as int)]
    } else {
        decimal(n / 10).push(digit((n % 10) as int))
    }
}

/// A signed number in decimal, with a minus sign in front where it is negative.
pub open spec fn signed(n: int) -> Seq<char> {
    if n < 0 {
        seq!['-'] + decimal((-n) as nat)
    } else {
        decimal(n as nat)
    }
}

/// The plural ending of a regular noun.
pub open spec fn plural(n: int) -> Seq<char> {
    if n == 1 {
        ""@
    } else {
        "s"@
    }
}

/// What an optional string holds.
pub open spec fn opt_text(text: Option<String>) -> Option<Seq<char>> {
    match text {
        Some(text) => Some(text@),
        None => None,
    }
}

/// What each of some optional strings holds.
pub open spec fn opt_texts(texts: Seq<Option<String>>) -> Seq<Option<Seq<char>>> {
    Seq::new(texts.len(), |i: int| opt_text(texts[i]))
}

/// What each of some strings holds.
pub open spec fn texts(texts: Seq<String>) -> Seq<Seq<char>> {
    Seq::new(texts.len(), |i: int| texts[i]@)
}

/// The same strings again.
pub fn copy_texts(from: &Vec<String>) -> (r: Vec<String>)
    ensures
        texts(r@) == texts(from@),
        r@.len() == from@.len(),
{
    let r = from.clone();
    assert(texts(r@) =~= texts(from@));
    r
}

/// The digit `d` as a string of one character.
fn digit_str(d: usize) -> (r: &'static str)
    requires
        d < 10,
    ensures
        r@ == seq![digit(d as int)],
{
    let digits: &'static str = "0123456789";
    proof {
        reveal_strlit("0123456789");
    }
    let r = digits.substring_char(d, d + 1);
    assert(r@ =~= seq![digit(d as int)]);
    r
}

/// Append a number in decimal.
pub fn push_number(out: &mut String, n: u64)
    ensures
        final(out)@ == old(out)@ + decimal(n as nat),
    decreases n,
{
    if n < 10 {
        out.append(digit_str(n as usize));
        assert(out@ =~= old(out)@ + decimal(n as nat));
    } else {
        push_number(out, n / 10);
        let last = (n % 10) as usize;
        out.append(digit_str(last));
        assert(out@ =~= old(out)@ + decimal(n as nat));
    }
}

/// A number in decimal.
pub fn number(n: u64) -> (r: String)
    ensures
        r@ == decimal(n as nat),
{
    let mut out = String::new();
    push_number(&mut out, n);
    assert(out@ =~= decimal(n as nat));
    out
}

/// Append a signed number in decimal.
pub fn push_signed(out: &mut String, n: i64)
    ensures
        final(out)@ == old(out)@ + signed(n as int),
{
    if n < 0 {
        proof {
            reveal_strlit("-");
        }
        assert("-"@ =~= seq!['-']);
        out.append("-");
        let magnitude: u64 = if n == i64::MIN {
            0x8000_0000_0000_0000
        } else {
            (-n) as u64
        };
        push_number(out, magnitude);
        assert(out@ =~= old(out)@ + signed(n as int));
    } else {
        push_number(out, n as u64);
    }
}

/// Append the plural ending of a regular noun.
pub fn push_plural(out: &mut String, n: u64)
    ensures
        final(out)@ == old(out)@ + plural(n as int),
{
    if n == 1 {
        out.append("");
    } else {
        out.append("s");
    }
}

/// Two strings, one behind the other.
pub fn glue2(a: &str, b: &str) -> (r: String)
    ensures
        r@ == a@ + b@,
{
    let mut out = a.to_owned();
    out.append(b);
    out
}

/// Three strings, one behind the other.
pub fn glue3(a: &str, b: &str, c: &str) -> (r: String)
    ensures
        r@ == a@ + b@ + c@,
{
    let mut out = glue2(a, b);
    out.append(c);
    out
}

/// Four strings, one behind the other.
pub fn glue4(a: &str, b: &str, c: &str, d: &str) -> (r: String)
    ensures
        r@ == a@ + b@ + c@ + d@,
{
    let mut out = glue3(a, b, c);
    out.append(d);
    out
}

/// Five strings, one behind the other.
pub fn glue5(a: &str, b: &str, c: &str, d: &str, e: &str) -> (r: String)
    ensures
        r@ == a@ + b@ + c@ + d@ + e@,
{
    let mut out = glue4(a, b, c, d);
    out.append(e);
    out
}

/// A truth value as it is written.
pub open spec fn truth(b: bool) -> Seq<char> {
    if b {
        "true"@
    } else {
        "false"@
    }
}

/// A truth value as it is written.
pub fn truth_text(b: bool) -> (r: &'static str)
    ensures
        r@ == truth(b),
{
    if b {
        "true"
    } else {
        "false"
    }
}

/// Some strings with a separator between each two of them.
pub open spec fn joined(parts: Seq<Seq<char>>, separator: Seq<char>) -> Seq<char>
    decreases parts.len(),
{
    if parts.len() == 0 {
        Seq::empty()
    } else if parts.len() == 1 {
        parts[0]
    } else {
        joined(parts.drop_last(), separator) + separator + parts.last()
    }
}

/// Put a separator between each two of some strings.
pub fn join(parts: &Vec<String>, separator: &str) -> (r: String)
    ensures
        r@ == joined(texts(parts@), separator@),
{
    let ghost all = texts(parts@);
    let mut out = String::new();
    let mut i: usize = 0;
    assert(out@ =~= joined(all.take(0), separator@));
    while i < parts.len()
        invariant
            i <= parts.len(),
            all == texts(parts@),
            out@ == joined(all.take(i as int), separator@),
        decreases parts.len() - i,
    {
        let ghost before = out@;
        if i > 0 {
            out.append(separator);
        }
        out.append(parts[i].as_str());
        assert(all.take(i + 1).drop_last() =~= all.take(i as int));
        assert(all.take(i + 1).last() == parts@[i as int]@);
        if i == 0 {
            assert(before =~= Seq::<char>::empty());
            assert(out@ =~= parts@[0]@);
            assert(all.take(1)[0] == parts@[0]@);
        }
        i += 1;
    }
    assert(all.take(i as int) =~= all);
    out
}

/// Whether a character is white space.
pub open spec fn is_space(c: char) -> bool {
    let code = c as int;
    ||| 0x09 <= code <= 0x0d
    ||| code == 0x20
    ||| code == 0x85
    ||| code == 0xa0
    ||| code == 0x1680
    ||| 0x2000 <= code <= 0x200a
    ||| code == 0x2028
    ||| code == 0x2029
    ||| code == 0x202f
    ||| code == 0x205f
    ||| code == 0x3000
}

/// Whether a character is white space.
fn space(c: char) -> (r: bool)
    ensures
        r == is_space(c),
{
    let code = c as u32;
    (0x09 <= code && code <= 0x0d) || code == 0x20 || code == 0x85 || code == 0xa0 || code == 0x1680
        || (0x2000 <= code && code <= 0x200a) || code == 0x2028 || code == 0x2029 || code == 0x202f
        || code == 0x205f || code == 0x3000
}

/// Where the word that stands at `from` ends.
pub open spec fn word_end(text: Seq<char>, from: int) -> int
    decreases text.len() - from,
{
    if from >= text.len() || is_space(text[from]) {
        from
    } else {
        word_end(text, from + 1)
    }
}

/// A word's end lies within the text, at or behind its beginning.
proof fn word_end_bounds(text: Seq<char>, from: int)
    requires
        0 <= from <= text.len(),
    ensures
        from <= word_end(text, from) <= text.len(),
    decreases text.len() - from,
{
    if from < text.len() && !is_space(text[from]) {
        word_end_bounds(text, from + 1);
    }
}

/// The words of a text, from a point on: its runs of characters that are not white space.
pub open spec fn words_from(text: Seq<char>, from: int) -> Seq<Seq<char>>
    decreases text.len() - from,
    when 0 <= from
    via words_come_to_an_end
{
    if from >= text.len() {
        Seq::empty()
    } else if is_space(text[from]) {
        words_from(text, from + 1)
    } else {
        seq![text.subrange(from, word_end(text, from))] + words_from(text, word_end(text, from))
    }
}

#[via_fn]
proof fn words_come_to_an_end(text: Seq<char>, from: int) {
    if 0 <= from < text.len() && !is_space(text[from]) {
        word_end_bounds(text, from + 1);
        assert(word_end(text, from) == word_end(text, from + 1));
    }
}

/// Whether a text begins with another.
pub open spec fn begins(text: Seq<char>, start: Seq<char>) -> bool {
    start.len() <= text.len() && text.subrange(0, start.len() as int) == start
}

/// Two joined texts begin with the first.
pub proof fn begins_with_its_start(start: Seq<char>, rest: Seq<char>)
    ensures
        begins(start + rest, start),
{
    assert((start + rest).subrange(0, start.len() as int) =~= start);
}

/// A text that begins with another has its first character.
pub proof fn begins_alike(text: Seq<char>, start: Seq<char>)
    ensures
        begins(text, start) && start.len() > 0 ==> text[0] == start[0],
{
    if begins(text, start) && start.len() > 0 {
        assert(text.subrange(0, start.len() as int)[0] == text[0]);
    }
}

/// How many white space characters a text holds, from a point on.
pub open spec fn blanks_from(text: Seq<char>, from: int) -> nat
    decreases text.len() - from,
{
    if from >= text.len() {
        0
    } else {
        (if is_space(text[from]) {
            1nat
        } else {
            0
        }) + blanks_from(text, from + 1)
    }
}

/// A word holds no white space.
proof fn a_word_is_unbroken(text: Seq<char>, from: int)
    requires
        0 <= from <= text.len(),
    ensures
        blanks_from(text, from) == blanks_from(text, word_end(text, from)),
        word_end(text, from) < text.len() ==> is_space(text[word_end(text, from)]),
    decreases text.len() - from,
{
    if from < text.len() && !is_space(text[from]) {
        a_word_is_unbroken(text, from + 1);
    }
}

/// A text has at most one word more than it has white space characters, and no word more than
/// those where it begins with one.
pub proof fn blanks_bound_words(text: Seq<char>, from: int)
    requires
        0 <= from <= text.len(),
    ensures
        words_from(text, from).len() <= blanks_from(text, from) + 1,
        from == text.len() || is_space(text[from]) ==> words_from(text, from).len() <= blanks_from(
            text,
            from,
        ),
    decreases text.len() - from,
{
    if from < text.len() {
        if is_space(text[from]) {
            blanks_bound_words(text, from + 1);
        } else {
            word_end_bounds(text, from + 1);
            assert(word_end(text, from) == word_end(text, from + 1));
            a_word_is_unbroken(text, from);
            blanks_bound_words(text, word_end(text, from));
        }
    }
}

/// Behind the first of two joined texts, the white space is the second's.
proof fn blanks_behind(a: Seq<char>, b: Seq<char>, from: int)
    requires
        0 <= from <= b.len(),
    ensures
        blanks_from(a + b, a.len() + from) == blanks_from(b, from),
    decreases b.len() - from,
{
    if from < b.len() {
        blanks_behind(a, b, from + 1);
    }
}

/// The white space of two joined texts, from a point in the first on.
proof fn blanks_add_from(a: Seq<char>, b: Seq<char>, from: int)
    requires
        0 <= from <= a.len(),
    ensures
        blanks_from(a + b, from) == blanks_from(a, from) + blanks_from(b, 0),
    decreases a.len() - from,
{
    if from < a.len() {
        blanks_add_from(a, b, from + 1);
    } else {
        blanks_behind(a, b, 0);
    }
}

/// Two joined texts hold the white space of both.
pub broadcast proof fn blanks_add(a: Seq<char>, b: Seq<char>)
    ensures
        #[trigger] blanks_from(a + b, 0) == blanks_from(a, 0) + blanks_from(b, 0),
{
    blanks_add_from(a, b, 0);
}

/// A number in decimal holds no white space.
pub broadcast proof fn a_number_is_one_word(n: nat)
    ensures
        #[trigger] blanks_from(decimal(n), 0) == 0,
    decreases n,
{
    reveal_with_fuel(blanks_from, 2);
    let last = digit((n % 10) as int);
    assert(!is_space(last));
    if n < 10 {
        assert(n % 10 == n);
    } else {
        a_number_is_one_word(n / 10);
        assert(decimal(n) =~= decimal(n / 10) + seq![last]);
        blanks_add(decimal(n / 10), seq![last]);
    }
}

/// What a row of digits is worth.
pub open spec fn worth(text: Seq<char>) -> int
    decreases text.len(),
{
    if text.len() == 0 {
        0
    } else {
        10 * worth(text.drop_last()) + (text.last() as int - 48)
    }
}

/// A number in decimal begins with a digit.
pub proof fn a_number_begins_with_a_digit(n: nat)
    ensures
        decimal(n).len() > 0,
        '0' <= decimal(n)[0] <= '9',
    decreases n,
{
    if n >= 10 {
        a_number_begins_with_a_digit(n / 10);
    }
}

/// A number in decimal is worth that number, so two numbers are never written alike.
pub proof fn a_number_is_worth_itself(n: nat, other: nat)
    ensures
        worth(decimal(n)) == n,
        decimal(n) == decimal(other) ==> n == other,
    decreases n + other,
{
    a_written_number_is_worth(n);
    a_written_number_is_worth(other);
}

/// A number in decimal is worth that number.
proof fn a_written_number_is_worth(n: nat)
    ensures
        worth(decimal(n)) == n,
    decreases n,
{
    reveal_with_fuel(worth, 2);
    let last = digit((n % 10) as int);
    assert(last as int - 48 == n % 10);
    if n < 10 {
        assert(decimal(n).drop_last() =~= Seq::<char>::empty());
        assert(decimal(n).last() == last);
    } else {
        a_written_number_is_worth(n / 10);
        assert(decimal(n).drop_last() =~= decimal(n / 10));
        assert(decimal(n).last() == last);
    }
}

/// A word stands in the plural exactly where it does not stand for one; a signed number has its sign
/// exactly where it is negative.
pub proof fn one_is_singular(n: int)
    ensures
        plural(n) == ""@ <==> n == 1,
        plural(n) == "s"@ <==> n != 1,
        n >= 0 ==> signed(n) == decimal(n as nat),
        n < 0 ==> signed(n) == seq!['-'] + decimal((-n) as nat),
{
    reveal_strlit("");
    reveal_strlit("s");
    assert(""@.len() == 0 && "s"@.len() == 1);
}

/// Joined texts stand in their order with the separator between each two: one more stands behind the
/// others, behind a separator.
pub proof fn joined_texts_stand_in_order(
    parts: Seq<Seq<char>>,
    next: Seq<char>,
    separator: Seq<char>,
)
    ensures
        parts.len() > 0 ==> joined(parts.push(next), separator) == joined(parts, separator)
            + separator + next,
        joined(seq![next], separator) == next,
        joined(Seq::empty(), separator) == Seq::<char>::empty(),
{
    assert(parts.push(next).drop_last() =~= parts);
}

/// A word ends where it did, whatever stands behind the space that follows.
proof fn a_word_ends_at_its_space(text: Seq<char>, more: Seq<char>, from: int)
    requires
        0 <= from <= text.len(),
        more.len() > 0,
        is_space(more[0]),
    ensures
        word_end(text + more, from) == word_end(text, from),
    decreases text.len() - from,
{
    let all = text + more;
    if from < text.len() {
        assert(all[from] == text[from]);
        if !is_space(text[from]) {
            a_word_ends_at_its_space(text, more, from + 1);
        }
    } else {
        assert(all[from] == more[0]);
    }
}

/// A text without white space is one word to its end.
proof fn a_word_reaches_the_end(text: Seq<char>, from: int)
    requires
        0 <= from <= text.len(),
        forall|i: int| from <= i < text.len() ==> !is_space(#[trigger] text[i]),
    ensures
        word_end(text, from) == text.len(),
    decreases text.len() - from,
{
    if from < text.len() {
        a_word_reaches_the_end(text, from + 1);
    }
}

/// A word behind a space is one word more.
proof fn a_word_is_added(text: Seq<char>, word: Seq<char>, from: int)
    requires
        0 <= from <= text.len(),
        word.len() > 0,
        forall|i: int| 0 <= i < word.len() ==> !is_space(#[trigger] word[i]),
    ensures
        words_from(text + " "@ + word, from) == words_from(text, from).push(word),
    decreases text.len() - from,
{
    reveal_strlit(" ");
    let more = " "@ + word;
    let all = text + " "@ + word;
    assert(all =~= text + more);
    if from == text.len() {
        assert(all[from] == ' ');
        assert forall|i: int| from + 1 <= i < all.len() implies !is_space(#[trigger] all[i]) by {
            assert(all[i] == word[i - from - 1]);
        }
        a_word_reaches_the_end(all, from + 1);
        assert(all.subrange(from + 1, all.len() as int) =~= word);
        assert(!is_space(all[from + 1]));
        assert(words_from(all, all.len() as int) =~= Seq::empty());
        assert(words_from(all, from + 1) =~= seq![word]);
        assert(words_from(all, from) == words_from(all, from + 1));
        assert(words_from(text, from) =~= Seq::empty());
    } else if is_space(text[from]) {
        assert(all[from] == text[from]);
        a_word_is_added(text, word, from + 1);
    } else {
        assert(all[from] == text[from]);
        a_word_ends_at_its_space(text, more, from);
        word_end_bounds(text, from + 1);
        let end = word_end(text, from);
        assert(all.subrange(from, end) =~= text.subrange(from, end));
        a_word_is_added(text, word, end);
    }
}

/// Words with a space between each two of them come apart into the same words.
proof fn words_come_apart(words: Seq<Seq<char>>)
    requires
        forall|w: int|
            0 <= w < words.len() ==> (#[trigger] words[w]).len() > 0 && forall|i: int|
                0 <= i < words[w].len() ==> !is_space(#[trigger] words[w][i]),
    ensures
        words_from(joined(words, " "@), 0) == words,
    decreases words.len(),
{
    if words.len() == 0 {
        assert(words =~= Seq::empty());
    } else if words.len() == 1 {
        let word = words[0];
        assert(!is_space(word[0]));
        a_word_reaches_the_end(word, 0);
        assert(word.subrange(0, word.len() as int) =~= word);
        assert(words_from(word, word.len() as int) =~= Seq::empty());
        assert(words_from(word, 0) =~= words);
    } else {
        let front = words.drop_last();
        assert forall|w: int| 0 <= w < front.len() implies (#[trigger] front[w]).len() > 0 && forall|
            i: int,
        |
            0 <= i < front[w].len() ==> !is_space(#[trigger] front[w][i]) by {
            assert(front[w] == words[w]);
        }
        words_come_apart(front);
        assert(words[words.len() - 1] == words.last());
        a_word_is_added(joined(front, " "@), words.last(), 0);
        assert(front.push(words.last()) =~= words);
    }
}

/// Of words with a space between each two of them, the first are the ones that stand first: as many
/// as were asked for, or all where there are no more.
pub proof fn the_first_words_are_those_in_front(words: Seq<Seq<char>>, count: int)
    requires
        0 <= count,
        forall|w: int|
            0 <= w < words.len() ==> (#[trigger] words[w]).len() > 0 && forall|i: int|
                0 <= i < words[w].len() ==> !is_space(#[trigger] words[w][i]),
    ensures
        count <= words.len() ==> first_words_of(joined(words, " "@), count) == joined(
            words.take(count),
            " "@,
        ),
        count >= words.len() ==> first_words_of(joined(words, " "@), count) == joined(words, " "@),
{
    words_come_apart(words);
    if count == words.len() {
        assert(words.take(count) =~= words);
    }
}

/// A line feed ends a line, and so does a carriage return with one.
proof fn a_line_ends_at_its_feed(text: Seq<char>, from: int, end: int)
    requires
        0 <= from <= end <= text.len(),
        forall|i: int| from <= i < end ==> #[trigger] text[i] != '\n',
        end == text.len() || text[end] == '\n',
    ensures
        line_end(text, from) == end,
    decreases end - from,
{
    if from < end {
        a_line_ends_at_its_feed(text, from + 1, end);
    }
}

/// The first line of a text is what stands before its first line feed, without the carriage return
/// that may come with it; a text without a line feed is its own first line.
pub proof fn the_first_line_is_what_stands_before_its_end(line: Seq<char>, rest: Seq<char>)
    requires
        forall|i: int| 0 <= i < line.len() ==> #[trigger] line[i] != '\n',
    ensures
        first_line_of(line) == line,
        first_line_of(line + seq!['\r', '\n'] + rest) == line,
        line.len() == 0 || line.last() != '\r' ==> first_line_of(line + seq!['\n'] + rest) == line,
{
    let end = line.len() as int;
    a_line_ends_at_its_feed(line, 0, end);
    assert(line.take(end) =~= line);
    let plain = line + seq!['\n'] + rest;
    assert(plain[end] == '\n');
    assert forall|i: int| 0 <= i < end implies #[trigger] plain[i] != '\n' by {
        assert(plain[i] == line[i]);
    }
    a_line_ends_at_its_feed(plain, 0, end);
    assert(plain.take(end) =~= line);
    if end > 0 {
        assert(plain[end - 1] == line.last());
    }
    let both = line + seq!['\r', '\n'] + rest;
    assert(both[end] == '\r' && both[end + 1] == '\n');
    assert forall|i: int| 0 <= i < end + 1 implies #[trigger] both[i] != '\n' by {
        if i < end {
            assert(both[i] == line[i]);
        }
    }
    a_line_ends_at_its_feed(both, 0, end + 1);
    assert(both.take(end) =~= line);
}

/// A padded text keeps its characters, reaches its width, and is the text itself where that is as
/// wide already.
pub proof fn padding_reaches_the_width(text: Seq<char>, width: int)
    ensures
        padded_end(text, width).len() == (if text.len() < width {
            width
        } else {
            text.len() as int
        }),
        padded_start(text, width).len() == (if text.len() < width {
            width
        } else {
            text.len() as int
        }),
        padded_end(text, width).take(text.len() as int) == text,
        padded_start(text, width).skip(padded_start(text, width).len() - text.len()) == text,
{
    so_many_spaces(width - text.len());
    assert(padded_end(text, width).take(text.len() as int) =~= text);
    assert(padded_start(text, width).skip(padded_start(text, width).len() - text.len()) =~= text);
}

/// So many spaces are so many characters.
proof fn so_many_spaces(count: int)
    ensures
        spaces(count).len() == if count < 0 {
            0
        } else {
            count
        },
    decreases count,
{
    reveal_strlit("");
    reveal_strlit(" ");
    if count > 0 {
        so_many_spaces(count - 1);
    }
}

/// The first words of a text, with one space between each two of them.
pub open spec fn first_words_of(text: Seq<char>, count: int) -> Seq<char> {
    let words = words_from(text, 0);
    joined(
        if words.len() > count {
            words.take(count)
        } else {
            words
        },
        " "@,
    )
}

/// The first words of a text, with one space between each two of them.
pub fn first_words(text: &str, count: usize) -> (r: String)
    ensures
        r@ == first_words_of(text@, count as int),
{
    let ghost all = words_from(text@, 0);
    let len = text.unicode_len();
    let mut words: Vec<String> = Vec::new();
    let mut at: usize = 0;
    assert(texts(words@) + words_from(text@, 0) =~= all);
    while at < len && words.len() < count
        invariant
            at <= len,
            len == text@.len(),
            words@.len() <= count,
            all == words_from(text@, 0),
            texts(words@) + words_from(text@, at as int) == all,
        decreases len - at,
    {
        if space(text.get_char(at)) {
            at += 1;
        } else {
            let ghost before = texts(words@);
            let start = at;
            while at < len && !space(text.get_char(at))
                invariant
                    start <= at <= len,
                    len == text@.len(),
                    word_end(text@, start as int) == word_end(text@, at as int),
                decreases len - at,
            {
                at += 1;
            }
            assert(at == word_end(text@, start as int));
            proof {
                word_end_bounds(text@, start as int);
                if at == start {
                    assert(is_space(text@[start as int]));
                }
            }
            let word = text.substring_char(start, at).to_owned();
            words.push(word);
            assert(texts(words@) =~= before.push(text@.subrange(start as int, at as int)));
            assert(texts(words@) + words_from(text@, at as int) =~= all);
        }
    }
    proof {
        if words@.len() == count {
            assert(all.take(count as int) =~= texts(words@));
            if words_from(text@, at as int).len() == 0 {
                assert(all =~= texts(words@));
            }
        } else {
            assert(all =~= texts(words@));
        }
    }
    join(&words, " ")
}

/// So many spaces.
pub open spec fn spaces(count: int) -> Seq<char>
    decreases count,
{
    if count <= 0 {
        ""@
    } else {
        spaces(count - 1) + " "@
    }
}

/// A text filled up with spaces behind it to a width, counted in characters.
pub open spec fn padded_end(text: Seq<char>, width: int) -> Seq<char> {
    text + spaces(width - text.len())
}

/// A text filled up with spaces in front of it to a width, counted in characters.
pub open spec fn padded_start(text: Seq<char>, width: int) -> Seq<char> {
    spaces(width - text.len()) + text
}

/// So many spaces.
fn blank(count: usize) -> (r: String)
    ensures
        r@ == spaces(count as int),
{
    let mut out = "".to_owned();
    let mut i: usize = 0;
    while i < count
        invariant
            i <= count,
            out@ == spaces(i as int),
        decreases count - i,
    {
        out.append(" ");
        i += 1;
    }
    out
}

/// How many spaces a text lacks to a width.
fn lacking(text: &str, width: usize) -> (r: usize)
    ensures
        r == if text@.len() < width {
            width - text@.len()
        } else {
            0
        },
{
    let len = text.unicode_len();
    if len < width {
        width - len
    } else {
        0
    }
}

/// Fill a text up with spaces behind it to a width.
pub fn pad_end(text: &str, width: usize) -> (r: String)
    ensures
        r@ == padded_end(text@, width as int),
{
    glue2(text, blank(lacking(text, width)).as_str())
}

/// Fill a text up with spaces in front of it to a width.
pub fn pad_start(text: &str, width: usize) -> (r: String)
    ensures
        r@ == padded_start(text@, width as int),
{
    glue2(blank(lacking(text, width)).as_str(), text)
}

/// Whether a text stands in another at a place.
pub open spec fn stands_at(text: Seq<char>, part: Seq<char>, at: int) -> bool {
    0 <= at && at + part.len() <= text.len() && text.subrange(at, at + part.len()) == part
}

/// Whether a text holds another.
pub open spec fn holds_text(text: Seq<char>, part: Seq<char>) -> bool {
    exists|at: int| stands_at(text, part, at)
}

/// Whether a text stands in another at a place.
fn is_at(text: &str, part: &str, at: usize, len: usize, whole: usize) -> (r: bool)
    requires
        len == part@.len(),
        whole == text@.len(),
        at + len <= whole,
    ensures
        r == stands_at(text@, part@, at as int),
{
    let mut i: usize = 0;
    while i < len
        invariant
            i <= len,
            len == part@.len(),
            whole == text@.len(),
            at + len <= whole,
            forall|j: int| 0 <= j < i ==> text@[at + j] == part@[j],
        decreases len - i,
    {
        if text.get_char(at + i) != part.get_char(i) {
            assert(text@.subrange(at as int, at + len)[i as int] != part@[i as int]);
            return false;
        }
        i += 1;
    }
    assert(text@.subrange(at as int, at + len) =~= part@);
    true
}

/// Whether a text holds another.
pub fn contains(text: &str, part: &str) -> (r: bool)
    ensures
        r == holds_text(text@, part@),
{
    let len = part.unicode_len();
    let whole = text.unicode_len();
    if len > whole {
        return false;
    }
    let mut at: usize = 0;
    while at <= whole - len
        invariant
            len == part@.len(),
            whole == text@.len(),
            len <= whole,
            at <= whole - len + 1,
            forall|i: int| 0 <= i < at ==> !stands_at(text@, part@, i),
        decreases whole - len + 1 - at,
    {
        if is_at(text, part, at, len, whole) {
            return true;
        }
        if at == whole - len {
            assert forall|i: int| !stands_at(text@, part@, i) by {
                if 0 <= i < at {
                }
            }
            return false;
        }
        at += 1;
    }
    false
}

/// Where the first line of a text ends, from a point on.
pub open spec fn line_end(text: Seq<char>, from: int) -> int
    decreases text.len() - from,
{
    if from >= text.len() || text[from] == '\n' {
        from
    } else {
        line_end(text, from + 1)
    }
}

/// The first line of a text, without what ends it: a line feed, or a carriage return and a line
/// feed.
pub open spec fn first_line_of(text: Seq<char>) -> Seq<char> {
    let end = line_end(text, 0);
    if 0 < end < text.len() && text[end - 1] == '\r' {
        text.take(end - 1)
    } else {
        text.take(end)
    }
}

/// The first line of a text.
pub fn first_line(text: &str) -> (r: String)
    ensures
        r@ == first_line_of(text@),
{
    let len = text.unicode_len();
    let mut end: usize = 0;
    while end < len && text.get_char(end) != '\n'
        invariant
            end <= len,
            len == text@.len(),
            line_end(text@, 0) == line_end(text@, end as int),
        decreases len - end,
    {
        end += 1;
    }
    let upto = if 0 < end && end < len && text.get_char(end - 1) == '\r' {
        end - 1
    } else {
        end
    };
    let r = text.substring_char(0, upto).to_owned();
    assert(r@ =~= first_line_of(text@));
    r
}

/// Put a string at the end of a list.
pub fn put_text(list: &mut Vec<String>, text: String)
    ensures
        texts(final(list)@) == texts(old(list)@).push(text@),
{
    let ghost before = list@;
    list.push(text);
    assert(texts(list@) =~= texts(before).push(text@));
}

/// Put one list of strings behind another.
pub fn put_texts(list: &mut Vec<String>, more: Vec<String>)
    ensures
        texts(final(list)@) == texts(old(list)@) + texts(more@),
{
    let ghost before = list@;
    let mut rest = more;
    list.append(&mut rest);
    assert(texts(list@) =~= texts(before) + texts(more@));
}

/// No strings at all.
pub fn no_texts() -> (r: Vec<String>)
    ensures
        texts(r@) == Seq::<Seq<char>>::empty(),
{
    let r: Vec<String> = Vec::new();
    assert(texts(r@) =~= Seq::empty());
    r
}

/// One string.
pub fn one_text(text: String) -> (r: Vec<String>)
    ensures
        texts(r@) == seq![text@],
{
    let mut r = no_texts();
    put_text(&mut r, text);
    assert(texts(r@) =~= seq![text@]);
    r
}

} // verus!
