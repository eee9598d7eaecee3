//! Text primitives: segments of separated strings and decimal numbers.

use vstd::prelude::*;
use vstd::string::*;

verus! {

/// `str`'s `==` from the standard library (`<str as PartialEq>::eq`). Trusted:
/// two string slices are equal exactly when they hold the same characters.
pub assume_specification[ <str as PartialEq>::eq ](a: &str, b: &str) -> (equal: bool)
    ensures
        equal == (a@ == b@),
;

/// `String::push` from the standard library. Trusted: it appends the one
/// character and leaves what was there before in place.
pub assume_specification[ String::push ](text: &mut String, c: char)
    ensures
        final(text)@ == old(text)@.push(c),
;

/// The number of bytes that `text` takes as UTF-8.
pub open spec fn byte_len(text: Seq<char>) -> nat {
    vstd::utf8::encode_utf8(text).len()
}

/// Whether `text` takes no more than `limit` bytes.
pub fn fits_in(text: &str, limit: usize) -> (fits: bool)
    ensures
        fits == (byte_len(text@) <= limit),
{
    text.as_bytes().len() <= limit
}

/// The position just behind the last `separator` in `text`, 0 where there is none.
pub open spec fn last_segment_start(text: Seq<char>, separator: char) -> int
    decreases text.len(),
{
    if text.len() == 0 {
        0
    } else if text.last() == separator {
        text.len() as int
    } else {
        last_segment_start(text.drop_last(), separator)
    }
}

/// What stands behind the last `separator` of `text`: all of `text` where it
/// holds no separator, nothing where it ends in one.
pub open spec fn last_segment(text: Seq<char>, separator: char) -> Seq<char> {
    text.subrange(last_segment_start(text, separator), text.len() as int)
}

/// The number of characters in front of the first `separator` of `text`.
pub open spec fn first_segment_len(text: Seq<char>, separator: char) -> int
    decreases text.len(),
{
    if text.len() == 0 || text[0] == separator {
        0
    } else {
        1 + first_segment_len(text.drop_first(), separator)
    }
}

/// What stands in front of the first `separator` of `text`: all of `text`
/// where it holds no separator.
pub open spec fn first_segment(text: Seq<char>, separator: char) -> Seq<char> {
    text.subrange(0, first_segment_len(text, separator))
}

/// The start of the last segment lies inside the text, nothing behind it is a
/// separator, and what stands just before it is one.
pub proof fn lemma_last_segment_start(text: Seq<char>, separator: char)
    ensures
        0 <= last_segment_start(text, separator) <= text.len(),
        !last_segment(text, separator).contains(separator),
        last_segment_start(text, separator) > 0 ==> text[last_segment_start(text, separator) - 1]
            == separator,
        !text.contains(separator) ==> last_segment(text, separator) == text,
    decreases text.len(),
{
    if text.len() > 0 {
        let front = text.drop_last();
        lemma_last_segment_start(front, separator);
        if text.last() != separator {
            let start = last_segment_start(front, separator);
            assert(last_segment(text, separator) =~= last_segment(front, separator).push(
                text.last(),
            ));
            assert forall|i: int| 0 <= i < last_segment(text, separator).len() implies last_segment(
                text,
                separator,
            )[i] != separator by {
                if i < text.len() - 1 - start {
                    assert(last_segment(front, separator)[i] == text[start + i]);
                    assert(last_segment(front, separator).contains(text[start + i]));
                }
            }
            if !text.contains(separator) {
                assert forall|i: int| 0 <= i < front.len() implies front[i] != separator by {
                    assert(text[i] == front[i]);
                }
                assert(last_segment(text, separator) =~= text);
            }
        } else {
            assert(last_segment(text, separator) =~= Seq::<char>::empty());
            assert(text.contains(separator));
        }
    } else {
        assert(last_segment(text, separator) =~= text);
    }
}

/// The first segment ends at the first separator, or at the end of the text.
pub proof fn lemma_first_segment_len(text: Seq<char>, separator: char, end: int)
    requires
        0 <= end <= text.len(),
        forall|i: int| 0 <= i < end ==> text[i] != separator,
        end < text.len() ==> text[end] == separator,
    ensures
        first_segment_len(text, separator) == end,
    decreases end,
{
    if end > 0 {
        let rest = text.drop_first();
        assert forall|i: int| 0 <= i < end - 1 implies rest[i] != separator by {
            assert(rest[i] == text[i + 1]);
        }
        lemma_first_segment_len(rest, separator, end - 1);
    }
}

/// The part of `text` behind its last `separator`.
pub fn last_segment_of<'a>(text: &'a str, separator: char) -> (segment: &'a str)
    ensures
        segment@ == last_segment(text@, separator),
{
    let length = text.unicode_len();
    let mut start: usize = 0;
    let mut seen: usize = 0;
    for c in it: text.chars()
        invariant
            it.seq() == text@,
            seen == it.index(),
            seen <= text@.len() == length,
            start == last_segment_start(text@.take(seen as int), separator),
            0 <= start <= seen,
    {
        proof {
            let next = text@.take(seen + 1);
            assert(next.drop_last() =~= text@.take(seen as int));
            assert(next.last() == c);
        }
        seen = seen + 1;
        if c == separator {
            start = seen;
        }
    }
    proof {
        assert(text@.take(seen as int) =~= text@);
    }
    text.substring_char(start, seen)
}

/// The part of `text` in front of its first `separator`.
pub fn first_segment_of<'a>(text: &'a str, separator: char) -> (segment: &'a str)
    ensures
        segment@ == first_segment(text@, separator),
{
    let length = text.unicode_len();
    let mut end: usize = 0;
    let mut seen: usize = 0;
    let mut found = false;
    for c in it: text.chars()
        invariant
            it.seq() == text@,
            seen == it.index(),
            seen <= text@.len() == length,
            0 <= end <= seen,
            !found ==> end == seen,
            found ==> end < text@.len() && text@[end as int] == separator,
            forall|i: int| 0 <= i < end ==> text@[i] != separator,
    {
        if !found {
            if c == separator {
                found = true;
            } else {
                end = end + 1;
            }
        }
        seen = seen + 1;
    }
    proof {
        lemma_first_segment_len(text@, separator, end as int);
    }
    text.substring_char(0, end)
}

/// Whether `c` is one of the ten decimal digits.
pub open spec fn is_digit(c: char) -> bool {
    '0' <= c <= '9'
}

/// The number that the decimal digit `c` stands for.
pub open spec fn digit_value(c: char) -> nat {
    (c as u32 - '0' as u32) as nat
}

/// The decimal digit that stands for `d`, for `d` below ten.
pub open spec fn digit_char(d: nat) -> char {
    (d + '0' as u32) as char
}

/// Whether `text` is one decimal digit or more and nothing else.
pub open spec fn is_digits(text: Seq<char>) -> bool {
    text.len() > 0 && forall|i: int| 0 <= i < text.len() ==> is_digit(#[trigger] text[i])
}

/// The number that a sequence of decimal digits stands for, the first digit
/// counting most.
pub open spec fn digits_value(text: Seq<char>) -> nat
    decreases text.len(),
{
    if text.len() == 0 {
        0
    } else {
        digits_value(text.drop_last()) * 10 + digit_value(text.last())
    }
}

/// `text` without one leading plus sign.
pub open spec fn unsigned_digits(text: Seq<char>) -> Seq<char> {
    if text.len() > 0 && text[0] == '+' {
        text.drop_first()
    } else {
        text
    }
}

/// The number that `text` stands for as a `u32`: decimal digits, one plus sign
/// allowed in front, leading zeros allowed, and a value that fits.
pub open spec fn parsed_u32(text: Seq<char>) -> Option<u32> {
    let digits = unsigned_digits(text);
    if is_digits(digits) && digits_value(digits) <= u32::MAX {
        Some(digits_value(digits) as u32)
    } else {
        None
    }
}

/// The decimal digits of `n`, without leading zeros.
pub open spec fn decimal_digits(n: nat) -> Seq<char>
    decreases n,
{
    if n < 10 {
        seq![digit_char(n)]
    } else {
        decimal_digits(n / 10).push(digit_char(n % 10))
    }
}

/// The decimal form of the integer `n`, with a minus sign where it is negative.
pub open spec fn decimal_int(n: int) -> Seq<char> {
    if n < 0 {
        seq!['-'] + decimal_digits((-n) as nat)
    } else {
        decimal_digits(n as nat)
    }
}

/// A sequence of digits stands for no less than any of its prefixes.
pub proof fn lemma_digits_value_grows(text: Seq<char>, prefix: int)
    requires
        0 <= prefix <= text.len(),
    ensures
        digits_value(text.take(prefix)) <= digits_value(text),
    decreases text.len(),
{
    if prefix == text.len() {
        assert(text.take(prefix) =~= text);
    } else {
        let front = text.drop_last();
        assert(front.take(prefix) =~= text.take(prefix));
        lemma_digits_value_grows(front, prefix);
    }
}

/// The decimal digits of a number are digits, and they stand for that number.
pub proof fn lemma_decimal_digits_value(n: nat)
    ensures
        is_digits(decimal_digits(n)),
        digits_value(decimal_digits(n)) == n,
        decimal_digits(n)[0] != '+',
    decreases n,
{
    if n < 10 {
        let d = seq![digit_char(n)];
        assert(d.drop_last() =~= Seq::<char>::empty());
        assert(digits_value(d.drop_last()) == 0);
    } else {
        lemma_decimal_digits_value(n / 10);
        let front = decimal_digits(n / 10);
        let all = front.push(digit_char(n % 10));
        assert(all.drop_last() =~= front);
        assert forall|i: int| 0 <= i < all.len() implies is_digit(#[trigger] all[i]) by {
            if i < front.len() {
                assert(all[i] == front[i]);
            }
        }
    }
}

/// Ten to the power of `exponent`.
pub open spec fn pow10(exponent: nat) -> nat
    decreases exponent,
{
    if exponent == 0 {
        1
    } else {
        10 * pow10((exponent - 1) as nat)
    }
}

/// A number below ten to the power of `digits` is written with no more than
/// `digits` digits.
pub proof fn lemma_decimal_digits_len(n: nat, digits: nat)
    requires
        digits >= 1,
        n < pow10(digits),
    ensures
        1 <= decimal_digits(n).len() <= digits,
    decreases n,
{
    if n >= 10 {
        assert(pow10(1) == 10) by {
            assert(pow10(0) == 1);
        }
        assert(digits >= 2);
        assert(pow10(digits) == 10 * pow10((digits - 1) as nat));
        lemma_decimal_digits_len(n / 10, (digits - 1) as nat);
    }
}

/// The decimal form of an integer that an `i64` holds takes no more than 20
/// bytes.
pub proof fn lemma_decimal_int_is_short(n: int)
    requires
        i64::MIN <= n <= i64::MAX,
    ensures
        byte_len(decimal_int(n)) <= 20,
{
    let magnitude: nat = if n < 0 {
        (-n) as nat
    } else {
        n as nat
    };
    assert(pow10(19) == 10_000_000_000_000_000_000) by {
        reveal_with_fuel(pow10, 20);
    }
    lemma_decimal_digits_len(magnitude, 19);
    lemma_decimal_digits_value(magnitude);
    let digits = decimal_digits(magnitude);
    let text = decimal_int(n);
    assert(text.len() <= 20);
    assert forall|i: int| 0 <= i < text.len() implies '\0' <= #[trigger] text[i] <= '\u{7f}' by {
        if n < 0 {
            if i > 0 {
                assert(text[i] == digits[i - 1]);
                assert(is_digit(digits[i - 1]));
            }
        } else {
            assert(is_digit(digits[i]));
        }
    }
    assert(vstd::utf8::is_ascii_chars(text));
    vstd::utf8::is_ascii_chars_encode_utf8(text);
}

/// Reading back the decimal digits of a `u32` gives that number.
pub proof fn lemma_parse_decimal_round_trip(n: u32)
    ensures
        parsed_u32(decimal_digits(n as nat)) == Some(n),
{
    lemma_decimal_digits_value(n as nat);
}

/// Reads `text` as a `u32` in decimal notation.
pub fn parse_u32(text: &str) -> (number: Option<u32>)
    ensures
        number == parsed_u32(text@),
{
    let length = text.unicode_len();
    let mut value: u64 = 0;
    let mut seen: usize = 0;
    let mut digits: usize = 0;
    let ghost body = unsigned_digits(text@);
    let ghost skipped: int = text@.len() - body.len();
    for c in it: text.chars()
        invariant
            it.seq() == text@,
            seen == it.index(),
            seen <= text@.len() == length,
            body == unsigned_digits(text@),
            skipped == text@.len() - body.len(),
            skipped == 0 || skipped == 1,
            seen == 0 ==> digits == 0,
            seen > 0 ==> digits == seen - skipped,
            forall|i: int| 0 <= i < digits ==> is_digit(#[trigger] body[i]),
            value == digits_value(body.take(digits as int)),
            value <= u32::MAX,
    {
        if seen == 0 && c == '+' {
            seen = 1;
        } else {
            proof {
                assert(body[digits as int] == c);
            }
            if c < '0' || c > '9' {
                return None;
            }
            let digit: u64 = (c as u32 - '0' as u32) as u64;
            let next: u64 = value * 10 + digit;
            proof {
                let now = body.take(digits + 1);
                assert(now.drop_last() =~= body.take(digits as int));
                assert(now.last() == c);
                assert(next == digits_value(now));
                lemma_digits_value_grows(body, digits + 1);
            }
            if next > 0xffff_ffff {
                return None;
            }
            value = next;
            digits = digits + 1;
            seen = seen + 1;
        }
    }
    proof {
        assert(body.take(digits as int) =~= body);
    }
    if digits == 0 {
        None
    } else {
        Some(value as u32)
    }
}

/// Appends the decimal digits of `n` to `text`.
fn push_decimal(text: &mut String, n: u64)
    ensures
        final(text)@ == old(text)@ + decimal_digits(n as nat),
    decreases n,
{
    if n >= 10 {
        push_decimal(text, n / 10);
    }
    let digit: u8 = (n % 10) as u8;
    text.push((digit + 48) as char);
    proof {
        if n < 10 {
            assert(old(text)@.push(digit_char(n as nat)) =~= old(text)@ + decimal_digits(n as nat));
        } else {
            assert((old(text)@ + decimal_digits((n / 10) as nat)).push(digit_char((n % 10) as nat))
                =~= old(text)@ + decimal_digits(n as nat));
        }
    }
}

/// The decimal form of `n`, as `to_string` writes it.
pub fn u32_to_string(n: u32) -> (text: String)
    ensures
        text@ == decimal_digits(n as nat),
{
    let mut text = String::new();
    push_decimal(&mut text, n as u64);
    proof {
        assert(Seq::<char>::empty() + decimal_digits(n as nat) =~= decimal_digits(n as nat));
    }
    text
}

/// The decimal form of `n`, as `to_string` writes it.
pub fn i64_to_string(n: i64) -> (text: String)
    ensures
        text@ == decimal_int(n as int),
{
    let mut text = String::new();
    if n < 0 {
        text.push('-');
        let magnitude: u64 = if n == i64::MIN {
            0x8000_0000_0000_0000
        } else {
            (-n) as u64
        };
        push_decimal(&mut text, magnitude);
        proof {
            assert(Seq::<char>::empty().push('-') =~= seq!['-']);
        }
    } else {
        push_decimal(&mut text, n as u64);
        proof {
            assert(Seq::<char>::empty() + decimal_digits(n as nat) =~= decimal_digits(n as nat));
        }
    }
    text
}

/// Whether `c` is white space of the ASCII kind: a space, a tab, a line feed,
/// a form feed or a carriage return.
pub open spec fn is_space(c: char) -> bool {
    c == ' ' || c == '\t' || c == '\n' || c == '\x0C' || c == '\r'
}

/// Whether `word` can be a word: it is not empty and holds no white space.
pub open spec fn is_word(word: Seq<char>) -> bool {
    word.len() > 0 && forall|i: int| 0 <= i < word.len() ==> !is_space(#[trigger] word[i])
}

/// Whether `word` stands in `text` from `start` on, with white space or an
/// end of the text on either side.
pub open spec fn is_word_at(text: Seq<char>, word: Seq<char>, start: int) -> bool {
    &&& 0 <= start
    &&& start + word.len() <= text.len()
    &&& text.subrange(start, start + word.len()) == word
    &&& (start == 0 || is_space(text[start - 1]))
    &&& (start + word.len() == text.len() || is_space(text[start + word.len()]))
}

/// Whether `word` is one of the words that white space divides `text` into.
pub open spec fn has_word(text: Seq<char>, word: Seq<char>) -> bool {
    is_word(word) && exists|start: int| is_word_at(text, word, start)
}

/// The characters of `text`.
pub fn chars_of(text: &str) -> (chars: Vec<char>)
    ensures
        chars@ == text@,
{
    let mut chars: Vec<char> = Vec::new();
    for c in it: text.chars()
        invariant
            it.seq() == text@,
            chars@ == text@.take(it.index() as int),
    {
        proof {
            assert(text@.take(it.index() + 1) =~= text@.take(it.index() as int).push(c));
        }
        chars.push(c);
    }
    proof {
        assert(text@.take(text@.len() as int) =~= text@);
    }
    chars
}

/// Whether `c` is white space of the ASCII kind.
pub fn is_space_char(c: char) -> (space: bool)
    ensures
        space == is_space(c),
{
    c == ' ' || c == '\t' || c == '\n' || c == '\x0C' || c == '\r'
}

/// Whether `word` stands in `text` from `start` on as a word of its own.
fn word_at(text: &Vec<char>, word: &Vec<char>, start: usize) -> (found: bool)
    requires
        start + word.len() <= text.len(),
    ensures
        found == is_word_at(text@, word@, start as int),
{
    let end = start + word.len();
    if start > 0 && !is_space_char(text[start - 1]) {
        return false;
    }
    if end < text.len() && !is_space_char(text[end]) {
        return false;
    }
    let mut matched: usize = 0;
    while matched < word.len()
        invariant
            matched <= word.len(),
            end == start + word.len(),
            end <= text.len(),
            forall|i: int| 0 <= i < matched ==> text@[start + i] == word@[i],
        decreases word.len() - matched,
    {
        if text[start + matched] != word[matched] {
            proof {
                assert(text@.subrange(start as int, end as int)[matched as int] != word@[
                    matched as int
                ]);
            }
            return false;
        }
        matched = matched + 1;
    }
    proof {
        assert(text@.subrange(start as int, end as int) =~= word@);
    }
    true
}

/// Whether `word` is one of the words that white space divides `text` into.
pub fn contains_word(text: &str, word: &str) -> (found: bool)
    ensures
        found == has_word(text@, word@),
{
    let line = chars_of(text);
    let sought = chars_of(word);
    if sought.len() == 0 {
        return false;
    }
    let mut checked: usize = 0;
    while checked < sought.len()
        invariant
            checked <= sought.len(),
            sought@ == word@,
            forall|i: int| 0 <= i < checked ==> !is_space(#[trigger] sought@[i]),
        decreases sought.len() - checked,
    {
        if is_space_char(sought[checked]) {
            return false;
        }
        checked = checked + 1;
    }
    if sought.len() > line.len() {
        return false;
    }
    let last = line.len() - sought.len();
    let mut start: usize = 0;
    while start <= last
        invariant
            start <= last + 1,
            last == line.len() - sought.len(),
            line@ == text@,
            sought@ == word@,
            is_word(sought@),
            forall|before: int| 0 <= before < start ==> !is_word_at(line@, sought@, before),
        decreases last + 1 - start,
    {
        if word_at(&line, &sought, start) {
            return true;
        }
        start = start + 1;
    }
    false
}

} // verus!
