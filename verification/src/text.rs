//! Text: the few string operations the rest of the crate is built from, each
//! tied to a plain mathematical reading of what it does to a sequence of
//! characters.

use vstd::prelude::*;

verus! {

// ---------------------------------------------------------------------------
// Views
// ---------------------------------------------------------------------------
/// The character sequences behind a list of string slices.
pub open spec fn views(texts: Seq<&str>) -> Seq<Seq<char>> {
    Seq::new(texts.len(), |i: int| texts[i]@)
}

/// The character sequences behind a list of owned strings.
pub open spec fn string_views(texts: Seq<String>) -> Seq<Seq<char>> {
    Seq::new(texts.len(), |i: int| texts[i]@)
}

/// The characters of an optional string.
pub open spec fn optional_view(text: Option<String>) -> Option<Seq<char>> {
    match text {
        Some(t) => Some(t@),
        None => None,
    }
}

/// The characters of `text`, in order.
pub fn chars_of(text: &str) -> (chars: Vec<char>)
    ensures
        chars@ == text@,
{
    let mut chars: Vec<char> = Vec::new();
    for c in it: text.chars()
        invariant
            chars@ == text@.take(it.index()),
            it.seq() == text@,
    {
        chars.push(c);
    }
    chars
}

/// Whether two texts hold the same characters.
pub fn same_text(a: &str, b: &str) -> (same: bool)
    ensures
        same == (a@ == b@),
{
    let left = chars_of(a);
    let right = chars_of(b);
    if left.len() != right.len() {
        return false;
    }
    for i in 0..left.len()
        invariant
            left@ == a@,
            right@ == b@,
            left.len() == right.len(),
            forall|j: int| 0 <= j < i ==> left@[j] == right@[j],
    {
        if left[i] != right[i] {
            assert(a@[i as int] != b@[i as int]);
            return false;
        }
    }
    assert(a@ =~= b@);
    true
}

// ---------------------------------------------------------------------------
// Decimal numbers
// ---------------------------------------------------------------------------
/// Whether `c` is one of `0` to `9`.
pub open spec fn is_digit(c: char) -> bool {
    '0' <= c <= '9'
}

/// The number a decimal digit stands for.
pub open spec fn digit_value(c: char) -> nat {
    (c as int - '0' as int) as nat
}

/// The decimal digit for a number below ten.
pub open spec fn digit_char(d: nat) -> char {
    (d + '0' as int) as char
}

/// Whether every character is a decimal digit.
pub open spec fn all_digits(s: Seq<char>) -> bool {
    forall|i: int| 0 <= i < s.len() ==> is_digit(#[trigger] s[i])
}

/// The number a run of decimal digits spells, most significant digit first.
pub open spec fn decimal_value(s: Seq<char>) -> nat
    decreases s.len(),
{
    if s.len() == 0 {
        0
    } else {
        decimal_value(s.drop_last()) * 10 + digit_value(s.last())
    }
}

/// The shortest decimal spelling of `n`.
pub open spec fn decimal(n: nat) -> Seq<char>
    decreases n,
{
    if n < 10 {
        seq![digit_char(n)]
    } else {
        decimal(n / 10).push(digit_char(n % 10))
    }
}

/// A decimal spelling of `n` padded with a zero to at least two digits.
pub open spec fn two_digits(n: nat) -> Seq<char> {
    if n < 10 {
        seq!['0'] + decimal(n)
    } else {
        decimal(n)
    }
}

/// The unsigned number `s` spells, if it spells one of at most `max`: an
/// optional `+`, then at least one digit, and nothing else.
pub open spec fn parse_unsigned(s: Seq<char>, max: nat) -> Option<nat> {
    let digits = if s.len() > 0 && s[0] == '+' {
        s.skip(1)
    } else {
        s
    };
    if digits.len() > 0 && all_digits(digits) && decimal_value(digits) <= max {
        Some(decimal_value(digits))
    } else {
        None
    }
}

/// A digit's number and its character are two names for the same thing.
pub proof fn lemma_digit_char(d: nat)
    requires
        d < 10,
    ensures
        is_digit(digit_char(d)),
        digit_value(digit_char(d)) == d,
        digit_char(d) != '+',
        !is_whitespace(digit_char(d)),
{
}

/// A decimal spelling is a non-empty run of digits that spells its number.
pub proof fn lemma_decimal(n: nat)
    ensures
        decimal(n).len() > 0,
        all_digits(decimal(n)),
        decimal_value(decimal(n)) == n,
    decreases n,
{
    if n < 10 {
        lemma_digit_char(n);
        let s = decimal(n);
        assert(s.drop_last() =~= Seq::<char>::empty());
        assert(decimal_value(s.drop_last()) == 0);
        assert(decimal_value(s) == decimal_value(s.drop_last()) * 10 + digit_value(s.last()));
    } else {
        lemma_decimal(n / 10);
        lemma_digit_char(n % 10);
        let s = decimal(n);
        assert(s.drop_last() =~= decimal(n / 10));
    }
}

/// **Law.** Reading back the decimal spelling of a number gives the number,
/// for every number within the limit, and nothing for one beyond it.
pub proof fn parse_undoes_decimal(n: nat, max: nat)
    ensures
        parse_unsigned(decimal(n), max) == (if n <= max {
            Some(n)
        } else {
            None
        }),
{
    lemma_decimal(n);
    assert(is_digit(decimal(n)[0]));
}

/// A longer run of digits never spells a smaller number.
proof fn lemma_decimal_value_grows(s: Seq<char>, k: int)
    requires
        0 <= k <= s.len(),
        all_digits(s),
    ensures
        decimal_value(s.take(k)) <= decimal_value(s),
    decreases s.len() - k,
{
    if k < s.len() {
        lemma_decimal_value_grows(s, k + 1);
        let t = s.take(k + 1);
        assert(t.drop_last() =~= s.take(k));
        assert(is_digit(s[k]));
    } else {
        assert(s.take(k) =~= s);
    }
}

/// The decimal digit for `d`, as text.
fn digit_text(d: u64) -> (text: &'static str)
    requires
        d < 10,
    ensures
        text@ == seq![digit_char(d as nat)],
{
    proof {
        reveal_strlit("0123456789");
    }
    let text = "0123456789".substring_char(d as usize, d as usize + 1);
    assert(text@ =~= seq![digit_char(d as nat)]);
    text
}

/// The shortest decimal spelling of `n`.
pub fn decimal_text(n: u64) -> (text: String)
    ensures
        text@ == decimal(n as nat),
    decreases n,
{
    if n < 10 {
        digit_text(n).to_owned()
    } else {
        let mut text = decimal_text(n / 10);
        text.append(digit_text(n % 10));
        assert(text@ =~= decimal(n as nat));
        text
    }
}

/// A decimal spelling of `n` padded with a zero to at least two digits.
pub fn two_digit_text(n: u64) -> (text: String)
    ensures
        text@ == two_digits(n as nat),
{
    if n < 10 {
        proof {
            reveal_strlit("0");
        }
        let text = "0".to_owned().concat(decimal_text(n).as_str());
        assert(text@ =~= two_digits(n as nat));
        text
    } else {
        decimal_text(n)
    }
}

/// Reads an unsigned number of at most `max`; see [`parse_unsigned`].
pub fn parse_number(text: &str, max: u64) -> (value: Option<u64>)
    ensures
        value matches Some(v) ==> parse_unsigned(text@, max as nat) == Some(v as nat),
        value is None ==> parse_unsigned(text@, max as nat) is None,
{
    let chars = chars_of(text);
    let start: usize = if chars.len() > 0 && chars[0] == '+' {
        1
    } else {
        0
    };
    let ghost digits = if text@.len() > 0 && text@[0] == '+' {
        text@.skip(1)
    } else {
        text@
    };
    assert(digits =~= text@.skip(start as int));
    if start >= chars.len() {
        return None;
    }
    let mut value: u64 = 0;
    let mut i: usize = start;
    assert(digits.take(0) =~= Seq::<char>::empty());
    while i < chars.len()
        invariant
            chars@ == text@,
            start <= i <= chars.len(),
            start < chars.len(),
            digits == text@.skip(start as int),
            parse_unsigned(text@, max as nat) == (if all_digits(digits) && decimal_value(digits)
                <= max {
                Some(decimal_value(digits))
            } else {
                None
            }),
            value <= max,
            value == decimal_value(digits.take(i - start)),
            forall|j: int| 0 <= j < i - start ==> is_digit(#[trigger] digits[j]),
        decreases chars.len() - i,
    {
        let c = chars[i];
        assert(c == digits[i - start]);
        if c < '0' || c > '9' {
            return None;
        }
        let digit: u64 = c as u64 - '0' as u64;
        let ghost next = digits.take(i - start + 1);
        proof {
            assert(next.drop_last() =~= digits.take(i - start));
            assert(next.last() == c);
            assert(decimal_value(next) == value * 10 + digit);
            if all_digits(digits) {
                lemma_decimal_value_grows(digits, i - start + 1);
            }
        }
        let tens: u64 = match value.checked_mul(10) {
            Some(tens) => tens,
            None => {
                return None;
            },
        };
        value = match tens.checked_add(digit) {
            Some(sum) => sum,
            None => {
                return None;
            },
        };
        if value > max {
            return None;
        }
        i = i + 1;
    }
    assert(digits.take(i - start) =~= digits);
    Some(value)
}

/// Reads a `u32`; see [`parse_unsigned`].
pub fn parse_u32(text: &str) -> (value: Option<u32>)
    ensures
        value matches Some(v) ==> parse_unsigned(text@, u32::MAX as nat) == Some(v as nat),
        value is None ==> parse_unsigned(text@, u32::MAX as nat) is None,
{
    match parse_number(text, u32::MAX as u64) {
        Some(value) => Some(value as u32),
        None => None,
    }
}

// ---------------------------------------------------------------------------
// Whitespace
// ---------------------------------------------------------------------------
/// The characters Unicode calls white space.
pub open spec fn is_whitespace(c: char) -> bool {
    let n = c as int;
    ||| 0x9 <= n <= 0xd
    ||| n == 0x20
    ||| n == 0x85
    ||| n == 0xa0
    ||| n == 0x1680
    ||| 0x2000 <= n <= 0x200a
    ||| n == 0x2028
    ||| n == 0x2029
    ||| n == 0x202f
    ||| n == 0x205f
    ||| n == 0x3000
}

/// Whether `c` is white space.
fn is_space(c: char) -> (space: bool)
    ensures
        space == is_whitespace(c),
{
    let n: u32 = c as u32;
    (0x9 <= n && n <= 0xd) || n == 0x20 || n == 0x85 || n == 0xa0 || n == 0x1680 || (0x2000 <= n
        && n <= 0x200a) || n == 0x2028 || n == 0x2029 || n == 0x202f || n == 0x205f || n == 0x3000
}

/// `s` without its leading white space.
pub open spec fn trim_start(s: Seq<char>) -> Seq<char>
    decreases s.len(),
{
    if s.len() > 0 && is_whitespace(s[0]) {
        trim_start(s.skip(1))
    } else {
        s
    }
}

/// `s` without its trailing white space.
pub open spec fn trim_end(s: Seq<char>) -> Seq<char>
    decreases s.len(),
{
    if s.len() > 0 && is_whitespace(s.last()) {
        trim_end(s.drop_last())
    } else {
        s
    }
}

/// `s` without white space at either end.
pub open spec fn trim(s: Seq<char>) -> Seq<char> {
    trim_end(trim_start(s))
}

/// Whether no character of `s` is white space.
pub open spec fn unspaced(s: Seq<char>) -> bool {
    forall|i: int| 0 <= i < s.len() ==> !is_whitespace(#[trigger] s[i])
}

/// Text without white space has none to trim.
pub proof fn lemma_trim_unspaced(s: Seq<char>)
    requires
        unspaced(s),
    ensures
        trim(s) == s,
{
    if s.len() > 0 {
        assert(!is_whitespace(s[0]));
        assert(!is_whitespace(s[s.len() - 1]));
    }
}

/// Digits are not white space.
pub proof fn lemma_digits_unspaced(s: Seq<char>)
    requires
        all_digits(s),
    ensures
        unspaced(s),
{
    assert forall|i: int| 0 <= i < s.len() implies !is_whitespace(#[trigger] s[i]) by {
        assert(is_digit(s[i]));
    }
}

/// `text` without white space at either end.
pub fn trimmed<'a>(text: &'a str) -> (inner: &'a str)
    ensures
        inner@ == trim(text@),
{
    let chars = chars_of(text);
    let mut from: usize = 0;
    assert(text@.skip(0) =~= text@);
    while from < chars.len() && is_space(chars[from])
        invariant
            chars@ == text@,
            from <= chars.len(),
            trim_start(text@) == trim_start(text@.skip(from as int)),
        decreases chars.len() - from,
    {
        assert(text@.skip(from as int).skip(1) =~= text@.skip(from as int + 1));
        from = from + 1;
    }
    let ghost rest = text@.skip(from as int);
    assert(trim_start(text@) == rest);
    let mut to: usize = chars.len();
    assert(rest.take(to - from) =~= rest);
    while to > from && is_space(chars[to - 1])
        invariant
            chars@ == text@,
            from <= to <= chars.len(),
            rest == text@.skip(from as int),
            trim_end(rest) == trim_end(rest.take(to - from)),
        decreases to - from,
    {
        assert(rest.take(to - from).last() == text@[to - 1]);
        assert(rest.take(to - from).drop_last() =~= rest.take(to - 1 - from));
        to = to - 1;
    }
    assert(trim_end(rest) == rest.take(to - from)) by {
        if to > from {
            assert(rest.take(to - from).last() == text@[to - 1]);
        }
    }
    let inner = text.substring_char(from, to);
    assert(inner@ =~= rest.take(to - from));
    inner
}

// ---------------------------------------------------------------------------
// Words
// ---------------------------------------------------------------------------
/// How many characters come before the first white space of `s`.
pub open spec fn word_len(s: Seq<char>) -> nat
    decreases s.len(),
{
    if s.len() == 0 || is_whitespace(s[0]) {
        0
    } else {
        1 + word_len(s.skip(1))
    }
}

/// A word is no longer than what it starts.
pub proof fn lemma_word_len(s: Seq<char>)
    ensures
        word_len(s) <= s.len(),
        unspaced(s.take(word_len(s) as int)),
        word_len(s) < s.len() ==> is_whitespace(s[word_len(s) as int]),
    decreases s.len(),
{
    if s.len() > 0 && !is_whitespace(s[0]) {
        lemma_word_len(s.skip(1));
        let k = word_len(s) as int;
        let inner = s.skip(1).take(k - 1);
        assert forall|i: int| 0 <= i < k implies !is_whitespace(#[trigger] s.take(k)[i]) by {
            if i > 0 {
                assert(inner[i - 1] == s[i]);
            }
        }
        if k < s.len() {
            assert(s.skip(1)[k - 1] == s[k]);
        }
    }
}

/// The runs of `s` between white space, in order.
pub open spec fn words(s: Seq<char>) -> Seq<Seq<char>>
    decreases s.len(),
{
    if s.len() == 0 {
        Seq::empty()
    } else if is_whitespace(s[0]) {
        words(s.skip(1))
    } else {
        proof {
            lemma_word_len(s);
        }
        seq![s.take(word_len(s) as int)] + words(s.skip(word_len(s) as int))
    }
}

/// The words of `text`; see [`words`].
pub fn words_of<'a>(text: &'a str) -> (list: Vec<&'a str>)
    ensures
        views(list@) == words(text@),
{
    let chars = chars_of(text);
    let mut list: Vec<&'a str> = Vec::new();
    let mut i: usize = 0;
    assert(text@.skip(0) =~= text@);
    assert(views(list@) + words(text@) =~= words(text@));
    while i < chars.len()
        invariant
            chars@ == text@,
            i <= chars.len(),
            words(text@) == views(list@) + words(text@.skip(i as int)),
        decreases chars.len() - i,
    {
        let ghost rest = text@.skip(i as int);
        if is_space(chars[i]) {
            assert(rest.skip(1) =~= text@.skip(i as int + 1));
            i = i + 1;
        } else {
            let mut end: usize = i;
            while end < chars.len() && !is_space(chars[end])
                invariant
                    chars@ == text@,
                    i <= end <= chars.len(),
                    rest == text@.skip(i as int),
                    word_len(rest) == end - i + word_len(text@.skip(end as int)),
                decreases chars.len() - end,
            {
                assert(text@.skip(end as int).skip(1) =~= text@.skip(end as int + 1));
                end = end + 1;
            }
            assert(word_len(rest) == end - i);
            let word = text.substring_char(i, end);
            assert(word@ =~= rest.take(end - i));
            assert(rest.skip(end - i) =~= text@.skip(end as int));
            let ghost before = views(list@);
            list.push(word);
            proof {
                assert(rest[0] == text@[i as int]);
                assert(views(list@) =~= before + seq![word@]);
                assert(before + (seq![word@] + words(text@.skip(end as int))) =~= views(list@)
                    + words(text@.skip(end as int)));
            }
            i = end;
        }
    }
    assert(words(text@.skip(i as int)) =~= Seq::<Seq<char>>::empty());
    assert(views(list@) + Seq::<Seq<char>>::empty() =~= views(list@));
    list
}

/// A word, one space, and more text reads as that word followed by the words
/// of the rest.
pub proof fn lemma_words_cons(word: Seq<char>, rest: Seq<char>)
    requires
        word.len() > 0,
        unspaced(word),
    ensures
        words(word + seq![' '] + rest) == seq![word] + words(rest),
{
    let s = word + seq![' '] + rest;
    lemma_word_len_before(word, seq![' '] + rest);
    assert(s =~= word + (seq![' '] + rest));
    assert(s[0] == word[0]);
    assert(s.take(word.len() as int) =~= word);
    let tail = s.skip(word.len() as int);
    assert(tail =~= seq![' '] + rest);
    assert(tail.skip(1) =~= rest);
    assert(words(tail) == words(rest));
}

/// A lone word is its own list of words.
pub proof fn lemma_words_last(word: Seq<char>)
    requires
        word.len() > 0,
        unspaced(word),
    ensures
        words(word) == seq![word],
{
    lemma_word_len_before(word, Seq::empty());
    assert(word + Seq::<char>::empty() =~= word);
    assert(word[0] == word[0]);
    assert(word.take(word.len() as int) =~= word);
    assert(word.skip(word.len() as int) =~= Seq::<char>::empty());
    assert(words(Seq::<char>::empty()) =~= Seq::<Seq<char>>::empty());
    assert(words(word) =~= seq![word]);
}

/// A run without white space in front of white space is a whole word.
pub proof fn lemma_word_len_before(word: Seq<char>, rest: Seq<char>)
    requires
        unspaced(word),
        rest.len() > 0 ==> is_whitespace(rest[0]),
    ensures
        word_len(word + rest) == word.len(),
    decreases word.len(),
{
    let s = word + rest;
    if word.len() == 0 {
        assert(s =~= rest);
    } else {
        assert(s[0] == word[0]);
        assert(s.skip(1) =~= word.skip(1) + rest);
        assert forall|i: int| 0 <= i < word.skip(1).len() implies !is_whitespace(
            #[trigger] word.skip(1)[i],
        ) by {
            assert(word.skip(1)[i] == word[i + 1]);
        }
        lemma_word_len_before(word.skip(1), rest);
    }
}

} // verus!
