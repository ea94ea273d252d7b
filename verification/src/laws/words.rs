//! Text, numbers, spans of time and brightness.

use crate::backoff::{parse_backoff, Backoff, Failure};
use crate::brightness::Brightness;
use crate::laws::place::{
    first_after, lemma_before, lemma_first_after, lemma_first_field, lemma_first_line, spelled,
    without,
};
use crate::laws::store::one_number;
use crate::record::{parse_applied, TintState};
use crate::scan::{
    contains, contains_text, fields_of, lines_of, occurs_at, position_of, strip_prefix, text_after,
};
use crate::text::{
    all_digits, chars_of, decimal_text, decimal_value, is_digit, is_whitespace, lemma_decimal,
    lemma_word_len_before, parse_number, parse_u32, same_text, trim, trim_end, trim_start, trimmed,
    two_digit_text, views, words, words_of,
};
use crate::time::{Duration, SystemTime};
use vstd::prelude::*;

verus! {

// ---------------------------------------------------------------------------
// Numbers
// ---------------------------------------------------------------------------
/// Whether every character is one of `0` to `9`.
pub open spec fn only_digits(text: Seq<char>) -> bool {
    forall|i: int| 0 <= i < text.len() ==> '0' <= #[trigger] text[i] <= '9'
}

proof fn lemma_only_digits(text: Seq<char>)
    ensures
        only_digits(text) == all_digits(text),
{
    if only_digits(text) {
        assert forall|i: int| 0 <= i < text.len() implies is_digit(#[trigger] text[i]) by {
            assert('0' <= text[i] <= '9');
        }
    }
    if all_digits(text) {
        assert forall|i: int| 0 <= i < text.len() implies '0' <= #[trigger] text[i] <= '9' by {
            assert(is_digit(text[i]));
        }
    }
}

proof fn lemma_value_is_spelled(text: Seq<char>, n: int)
    requires
        0 <= n <= text.len(),
        only_digits(text),
    ensures
        decimal_value(text.take(n)) == spelled(text, 0, n),
    decreases n,
{
    if n > 0 {
        lemma_value_is_spelled(text, n - 1);
        assert(text.take(n).drop_last() =~= text.take(n - 1));
        assert(text.take(n).last() == text[n - 1]);
        assert('0' <= text[n - 1] <= '9');
    }
}

proof fn lemma_spelled_shift(text: Seq<char>, from: int, to: int)
    requires
        0 <= from <= to <= text.len(),
    ensures
        spelled(text, from, to) == spelled(text.skip(from), 0, to - from),
    decreases to - from,
{
    if from < to {
        lemma_spelled_shift(text, from, to - 1);
        assert(text.skip(from)[to - from - 1] == text[to - 1]);
    }
}

/// **Law.** A number is written in digits that spell it, without a leading zero
/// unless it is zero; in two digits it has one exactly if it is below ten.
pub proof fn a_number_is_written_in_its_digits(n: u64, text: String, m: u64, padded: String)
    requires
        call_ensures(decimal_text, (n,), text),
        call_ensures(two_digit_text, (m,), padded),
        m < 100,
    ensures
        text@.len() > 0,
        only_digits(text@),
        spelled(text@, 0, text@.len() as int) == n,
        n > 0 ==> text@[0] != '0',
        n == 0 ==> text@.len() == 1,
        padded@.len() == 2,
        only_digits(padded@),
        spelled(padded@, 0, 2) == m,
{
    lemma_decimal(n as nat);
    lemma_only_digits(text@);
    lemma_value_is_spelled(text@, text@.len() as int);
    assert(text@.take(text@.len() as int) =~= text@);
    lemma_no_leading_zero(n as nat);
    reveal_with_fuel(crate::text::decimal, 3);
    reveal_with_fuel(spelled, 3);
    assert(padded@.len() == 2);
}

proof fn lemma_no_leading_zero(n: nat)
    ensures
        n > 0 ==> crate::text::decimal(n)[0] != '0',
        n == 0 ==> crate::text::decimal(n).len() == 1,
        crate::text::decimal(n).len() > 0,
    decreases n,
{
    if n >= 10 {
        lemma_no_leading_zero(n / 10);
        assert(crate::text::decimal(n)[0] == crate::text::decimal(n / 10)[0]);
    }
}

/// **Law.** A number is read from digits, with a plus in front or without, exactly
/// if it is no larger than it may be; nothing else is a number.
pub proof fn a_number_is_read_from_its_digits(
    text: &str,
    max: u64,
    value: Option<u64>,
    small: Option<u32>,
)
    requires
        call_ensures(parse_number, (text, max), value),
        call_ensures(parse_u32, (text,), small),
    ensures
        ({
            let n = text@.len() as int;
            let from: int = if n > 0 && text@[0] == '+' {
                1
            } else {
                0
            };
            let spells = n > from && only_digits(text@.skip(from));
            let number = spelled(text@, from, n);
            &&& value is Some <==> spells && number <= max
            &&& value matches Some(v) ==> v == number
            &&& small is Some <==> spells && number <= 4_294_967_295
            &&& small matches Some(v) ==> v == number
        }),
{
    let n = text@.len() as int;
    let from: int = if n > 0 && text@[0] == '+' {
        1
    } else {
        0
    };
    let digits = text@.skip(from);
    assert(from == 0 ==> digits =~= text@);
    lemma_only_digits(digits);
    lemma_spelled_shift(text@, from, n);
    if only_digits(digits) {
        lemma_value_is_spelled(digits, digits.len() as int);
        assert(digits.take(digits.len() as int) =~= digits);
    }
}

// ---------------------------------------------------------------------------
// White space
// ---------------------------------------------------------------------------
/// Whether a character is white space, by its number.
pub open spec fn is_blank(c: char) -> bool {
    let n = c as int;
    (9 <= n <= 13) || n == 32 || n == 133 || n == 160 || n == 5_760 || (8_192 <= n <= 8_202) || n
        == 8_232 || n == 8_233 || n == 8_239 || n == 8_287 || n == 12_288
}

/// Whether a text is all white space.
pub open spec fn all_blank(text: Seq<char>) -> bool {
    forall|i: int| 0 <= i < text.len() ==> is_blank(#[trigger] text[i])
}

proof fn lemma_trim_start(lead: Seq<char>, rest: Seq<char>)
    requires
        all_blank(lead),
        rest.len() > 0 ==> !is_blank(rest[0]),
    ensures
        trim_start(lead + rest) == rest,
    decreases lead.len(),
{
    let whole = lead + rest;
    if lead.len() > 0 {
        assert(is_blank(lead[0]));
        assert(whole[0] == lead[0]);
        assert(whole.skip(1) =~= lead.skip(1) + rest);
        assert forall|i: int| 0 <= i < lead.skip(1).len() implies is_blank(
            #[trigger] lead.skip(1)[i],
        ) by {
            assert(lead.skip(1)[i] == lead[i + 1]);
        }
        lemma_trim_start(lead.skip(1), rest);
    } else {
        assert(whole =~= rest);
    }
}

proof fn lemma_trim_end(rest: Seq<char>, tail: Seq<char>)
    requires
        all_blank(tail),
        rest.len() > 0 ==> !is_blank(rest.last()),
    ensures
        trim_end(rest + tail) == rest,
    decreases tail.len(),
{
    let whole = rest + tail;
    if tail.len() > 0 {
        assert(is_blank(tail[tail.len() - 1]));
        assert(whole.last() == tail.last());
        assert(whole.drop_last() =~= rest + tail.drop_last());
        lemma_trim_end(rest, tail.drop_last());
    } else {
        assert(whole =~= rest);
    }
}

/// **Law.** Trimming takes the white space off both ends and leaves what is in
/// between.
pub proof fn trimming_leaves_what_is_between(
    text: &str,
    lead: Seq<char>,
    core: Seq<char>,
    tail: Seq<char>,
    inner: &str,
)
    requires
        call_ensures(trimmed, (text,), inner),
        text@ == lead + core + tail,
        all_blank(lead) && all_blank(tail),
        core.len() > 0 ==> !is_blank(core[0]) && !is_blank(core.last()),
        core.len() == 0 ==> tail.len() == 0,
    ensures
        inner@ == core,
{
    lemma_trimmed(lead, core, tail);
    assert(lead + core + tail =~= lead + (core + tail));
}

/// White space around a text is trimmed off it.
pub proof fn lemma_trimmed(lead: Seq<char>, core: Seq<char>, tail: Seq<char>)
    requires
        all_blank(lead) && all_blank(tail),
        core.len() > 0 ==> !is_blank(core[0]) && !is_blank(core.last()),
        core.len() == 0 ==> tail.len() == 0,
    ensures
        trim(lead + (core + tail)) == core,
{
    assert(core.len() > 0 ==> (core + tail)[0] == core[0]);
    lemma_trim_start(lead, core + tail);
    lemma_trim_end(core, tail);
}

proof fn lemma_words_skip(lead: Seq<char>, rest: Seq<char>)
    requires
        all_blank(lead),
    ensures
        words(lead + rest) == words(rest),
    decreases lead.len(),
{
    let whole = lead + rest;
    if lead.len() > 0 {
        assert(is_blank(lead[0]));
        assert(whole[0] == lead[0]);
        assert(whole.skip(1) =~= lead.skip(1) + rest);
        assert forall|i: int| 0 <= i < lead.skip(1).len() implies is_blank(
            #[trigger] lead.skip(1)[i],
        ) by {
            assert(lead.skip(1)[i] == lead[i + 1]);
        }
        lemma_words_skip(lead.skip(1), rest);
    } else {
        assert(whole =~= rest);
    }
}

/// **Law.** A text's words are the runs between its white space, in order: the
/// first, and then those of what follows it. White space alone holds none.
pub proof fn words_are_the_runs_between_white_space<'a>(
    text: &'a str,
    rest: &'a str,
    lead: Seq<char>,
    word: Seq<char>,
    list: Vec<&'a str>,
    others: Vec<&'a str>,
)
    requires
        call_ensures(words_of, (text,), list),
        call_ensures(words_of, (rest,), others),
        text@ == lead + word + rest@,
        all_blank(lead),
        forall|i: int| 0 <= i < word.len() ==> !is_blank(#[trigger] word[i]),
        rest@.len() > 0 ==> is_blank(rest@[0]),
    ensures
        word.len() > 0 ==> views(list@) == seq![word] + views(others@),
        word.len() == 0 ==> views(list@) == views(others@),
        text@.len() == 0 ==> list.len() == 0,
{
    assert(lead + word + rest@ =~= lead + (word + rest@));
    lemma_words_skip(lead, word + rest@);
    if word.len() > 0 {
        let whole = word + rest@;
        assert forall|i: int| 0 <= i < word.len() implies !is_whitespace(#[trigger] word[i]) by {
            assert(!is_blank(word[i]));
        }
        lemma_word_len_before(word, rest@);
        assert(whole[0] == word[0]);
        assert(whole.take(word.len() as int) =~= word);
        assert(whole.skip(word.len() as int) =~= rest@);
    } else {
        assert(word + rest@ =~= rest@);
    }
    assert(views(list@).len() == list.len());
}

// ---------------------------------------------------------------------------
// Parts
// ---------------------------------------------------------------------------
/// **Law.** Two texts are the same exactly if their characters are; a text's
/// characters are listed in order.
pub proof fn texts_are_their_characters(a: &str, b: &str, same: bool, chars: Vec<char>)
    requires
        call_ensures(same_text, (a, b), same),
        call_ensures(chars_of, (a,), chars),
    ensures
        same <==> a@ == b@,
        chars@ == a@,
{
}

/// **Law.** A part is found where it first occurs, and what follows it is what is
/// left after it; a prefix is what a text starts with.
pub proof fn a_part_is_found_where_it_first_occurs<'a>(
    whole: &'a str,
    part: &str,
    before: Seq<char>,
    at: Option<usize>,
    found: bool,
    rest: Option<&'a str>,
    stripped: Option<&'a str>,
)
    requires
        call_ensures(position_of, (whole, part), at),
        call_ensures(contains_text, (whole, part), found),
        call_ensures(text_after, (whole, part), rest),
        call_ensures(strip_prefix, (whole, part), stripped),
    ensures
        first_after(whole@, before, part@) ==> at == Some(before.len() as usize) && found && (rest
            matches Some(r) && r@ == whole@.skip((before.len() + part@.len()) as int)),
        (forall|i: int|
            0 <= i && i + part@.len() <= whole@.len() ==> #[trigger] whole@.subrange(
                i,
                (i + part@.len()) as int,
            ) != part@) ==> at is None && !found && rest is None,
        stripped is Some <==> part@.len() <= whole@.len() && whole@.take(part@.len() as int)
            == part@,
        stripped matches Some(r) ==> part@ + r@ == whole@,
{
    if first_after(whole@, before, part@) {
        let k = before.len() as int;
        lemma_first_after(whole@, before, part@);
        assert(occurs_at(whole@, part@, k));
        assert(contains(whole@, part@));
        match at {
            Some(found_at) => {
                assert(occurs_at(whole@, part@, found_at as int));
                if found_at < k {
                    assert(whole@.subrange(found_at as int, found_at + part@.len()) == part@);
                }
            },
            None => {},
        }
    }
    if forall|i: int|
        0 <= i && i + part@.len() <= whole@.len() ==> #[trigger] whole@.subrange(
            i,
            (i + part@.len()) as int,
        ) != part@ {
        assert forall|i: int| !#[trigger] occurs_at(whole@, part@, i) by {}
    }
    if stripped is Some {
        assert(part@ + (stripped->0)@ =~= whole@);
    }
}

/// **Law.** A text's fields are what its separators part: the first, and then those
/// of what follows it. One without a separator is its own only field.
pub proof fn fields_are_parted_by_separators<'a>(
    text: &'a str,
    rest: &'a str,
    separator: char,
    first: Seq<char>,
    list: Vec<&'a str>,
    others: Vec<&'a str>,
)
    requires
        call_ensures(fields_of, (text, separator), list),
        call_ensures(fields_of, (rest, separator), others),
        without(first, separator),
    ensures
        text@ == first + seq![separator] + rest@ ==> views(list@) == seq![first] + views(others@),
        text@ == first ==> views(list@) == seq![first],
{
    lemma_first_field(first, separator, rest@);
}

/// **Law.** A text's lines are what its line feeds end: the first, without the
/// carriage return in front of its line feed, and then those of what follows. A
/// last line without a line feed is a line if it holds anything.
pub proof fn lines_are_ended_by_line_feeds<'a>(
    text: &'a str,
    rest: &'a str,
    first: Seq<char>,
    list: Vec<&'a str>,
    others: Vec<&'a str>,
)
    requires
        call_ensures(lines_of, (text,), list),
        call_ensures(lines_of, (rest,), others),
        without(first, '\n'),
    ensures
        (first.len() == 0 || first.last() != '\r') && text@ == first + seq!['\n'] + rest@ ==> views(
            list@,
        ) == seq![first] + views(others@),
        text@ == first + seq!['\r'] + seq!['\n'] + rest@ ==> views(list@) == seq![first] + views(
            others@,
        ),
        text@ == first && first.len() > 0 ==> views(list@) == seq![first],
        text@.len() == 0 ==> list.len() == 0,
{
    assert(views(list@).len() == list.len());
    if (first.len() == 0 || first.last() != '\r') && text@ == first + seq!['\n'] + rest@ {
        lemma_first_line(first, rest@);
    }
    if text@ == first + seq!['\r'] + seq!['\n'] + rest@ {
        let line = first.push('\r');
        assert(text@ =~= line + seq!['\n'] + rest@);
        let k = line.len() as int;
        assert forall|i: int| 0 <= i < k implies #[trigger] text@[i] != '\n' by {
            if i < first.len() {
                assert(text@[i] == first[i]);
            }
        }
        lemma_before(text@, '\n', k);
        assert(text@.take(k) =~= line);
        assert(text@.skip(k + 1) =~= rest@);
        assert(line.drop_last() =~= first);
    }
    if text@ == first && first.len() > 0 {
        lemma_before(text@, '\n', text@.len() as int);
    }
}

// ---------------------------------------------------------------------------
// Records
// ---------------------------------------------------------------------------
/// **Law.** A record of the screen says `off`, or a temperature in digits, with
/// white space around it or without; anything else is unreadable.
pub proof fn a_screen_record_is_off_or_a_temperature(
    record: &str,
    inner: &str,
    read: Option<TintState>,
    number: Option<u32>,
)
    requires
        call_ensures(parse_applied, (record,), read),
        call_ensures(trimmed, (record,), inner),
        call_ensures(parse_u32, (inner,), number),
    ensures
        inner@ == "off"@ ==> read == Some(None::<u32>),
        inner@ != "off"@ && number is Some ==> read == Some(number),
        inner@ != "off"@ && number is None ==> read is None,
{
}

/// **Law.** A record of a backoff is four words: a state, a deadline a clock can
/// hold, a wait, and a kind. What follows them says nothing, and a record that
/// lacks one of them is unreadable.
pub proof fn a_backoff_record_is_four_words<'a>(
    record: &'a str,
    list: Vec<&'a str>,
    state: Option<TintState>,
    deadline: Option<u64>,
    wait: Option<u64>,
    read: Option<Backoff>,
)
    requires
        call_ensures(parse_backoff, (record,), read),
        call_ensures(words_of, (record,), list),
        list.len() >= 4 ==> call_ensures(parse_applied, (list@[0],), state) && call_ensures(
            parse_number,
            (list@[1], 9_223_372_036_854_775_807u64),
            deadline,
        ) && call_ensures(parse_number, (list@[2], 18_446_744_073_709_551_615u64), wait),
    ensures
        list.len() < 4 ==> read is None,
        list.len() >= 4 ==> {
            &&& read is Some <==> state is Some && deadline is Some && wait is Some && (list@[3]@
                == "auth"@ || list@[3]@ == "other"@)
            &&& read matches Some(b) ==> {
                &&& Some(b.state) == state
                &&& b.retry_at@ == deadline->0 * 1_000_000_000
                &&& b.delay@ == wait->0 * 1_000_000_000
                &&& b.failure == Failure::Auth <==> list@[3]@ == "auth"@
            }
        },
{
    let seen = views(list@);
    assert(seen.len() == list.len());
    reveal_strlit("auth");
    reveal_strlit("other");
    assert("auth"@.len() != "other"@.len());
    if list.len() >= 4 {
        assert(seen[0] == list@[0]@ && seen[1] == list@[1]@ && seen[2] == list@[2]@ && seen[3]
            == list@[3]@);
    }
}

// ---------------------------------------------------------------------------
// Time and brightness
// ---------------------------------------------------------------------------
/// **Law.** Spans and moments are counted in nanoseconds, a thousand million to
/// the second; the clock reaches as far as an `i64` counts seconds, either way.
pub proof fn time_is_counted_in_nanoseconds(
    secs: u64,
    nanos: u32,
    whole: Duration,
    span: Duration,
    count: u128,
    floor: u64,
    later: Option<SystemTime>,
    earlier: Option<SystemTime>,
)
    requires
        nanos < 1_000_000_000,
        call_ensures(Duration::from_secs, (secs,), whole),
        call_ensures(Duration::new, (secs, nanos), span),
        call_ensures(Duration::as_nanos, (span,), count),
        call_ensures(Duration::as_secs, (span,), floor),
        call_ensures(SystemTime::after_epoch, (span,), later),
        call_ensures(SystemTime::before_epoch, (span,), earlier),
    ensures
        whole@ == secs * 1_000_000_000,
        span@ == secs * 1_000_000_000 + nanos,
        count == span@,
        floor == secs,
        later is Some <==> secs <= 9_223_372_036_854_775_807,
        later matches Some(at) ==> at@ == span@,
        earlier is Some <==> secs < 9_223_372_036_854_775_808 || (secs == 9_223_372_036_854_775_808
            && nanos == 0),
        earlier matches Some(at) ==> at@ == -span@,
{
}

/// **Law.** A moment moved on by a span is that much later, where the clock
/// reaches that far; its whole seconds since the epoch are those that have gone by,
/// and none before it.
pub proof fn a_moment_moves_on_by_a_span(
    at: SystemTime,
    span: Duration,
    later: Option<SystemTime>,
    count: i128,
    secs: u64,
)
    requires
        call_ensures(SystemTime::checked_add, (at, span), later),
        call_ensures(SystemTime::as_nanos, (at,), count),
        call_ensures(SystemTime::unix_seconds, (at,), secs),
    ensures
        later is Some <==> at@ + span@ < 9_223_372_036_854_775_808 * 1_000_000_000,
        later matches Some(then) ==> then@ == at@ + span@,
        count == at@,
        at@ >= 0 ==> secs * 1_000_000_000 <= at@ < (secs + 1) * 1_000_000_000,
        at@ < 0 ==> secs == 0,
{
}

/// **Law.** Brightnesses are compared as the numbers they are, and full brightness
/// is one.
pub proof fn brightness_is_compared_as_a_number(
    a: Brightness,
    b: Brightness,
    equal: bool,
    full: Brightness,
)
    requires
        call_ensures(Brightness::equals, (a, b), equal),
        call_ensures(Brightness::full, (), full),
    ensures
        equal <==> one_number(a.bits, b.bits),
        full.bits == 0x3ff0_0000_0000_0000u64,
{
}

} // verus!
