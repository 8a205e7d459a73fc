//! Text helpers shared by the parsers and the messages of the library.

use vstd::prelude::*;

verus! {

/// The lower-case form of a text, as the standard library's
/// `str::to_lowercase` gives it.
pub uninterp spec fn lowercased(text: Seq<char>) -> Seq<char>;

/// Calls `str::to_lowercase`. Not proved: that the result is the text named
/// by [`lowercased`], which is to say that it depends on the argument alone.
#[verifier::external_body]
pub(crate) fn lowercase(text: &str) -> (lower: String)
    ensures
        lower@ == lowercased(text@),
{
    text.to_lowercase()
}

/// Whether a character is white space: one of the characters that Unicode
/// gives the property `White_Space`.
pub open spec fn is_white_space(c: char) -> bool {
    ||| '\u{9}' <= c <= '\u{d}'
    ||| c == ' '
    ||| c == '\u{85}'
    ||| c == '\u{a0}'
    ||| c == '\u{1680}'
    ||| '\u{2000}' <= c <= '\u{200a}'
    ||| c == '\u{2028}'
    ||| c == '\u{2029}'
    ||| c == '\u{202f}'
    ||| c == '\u{205f}'
    ||| c == '\u{3000}'
}

/// A text without the white space that it begins with.
pub open spec fn trimmed_start(text: Seq<char>) -> Seq<char>
    decreases text.len(),
{
    if text.len() > 0 && is_white_space(text[0]) {
        trimmed_start(text.skip(1))
    } else {
        text
    }
}

/// A text without the white space that it ends with.
pub open spec fn trimmed_end(text: Seq<char>) -> Seq<char>
    decreases text.len(),
{
    if text.len() > 0 && is_white_space(text.last()) {
        trimmed_end(text.drop_last())
    } else {
        text
    }
}

/// A text without its leading and trailing white space.
pub open spec fn trimmed(text: Seq<char>) -> Seq<char> {
    trimmed_end(trimmed_start(text))
}

fn white_space(c: char) -> (yes: bool)
    ensures
        yes == is_white_space(c),
{
    ('\u{9}' <= c && c <= '\u{d}') || c == ' ' || c == '\u{85}' || c == '\u{a0}' || c
        == '\u{1680}' || ('\u{2000}' <= c && c <= '\u{200a}') || c == '\u{2028}' || c
        == '\u{2029}' || c == '\u{202f}' || c == '\u{205f}' || c == '\u{3000}'
}

/// Takes the white space from both ends of a text (see [`trimmed`]).
pub fn trim(text: &str) -> (inner: &str)
    ensures
        inner@ == trimmed(text@),
{
    let len: usize = text.unicode_len();
    let mut from: usize = 0;
    assert(text@.skip(0) =~= text@);
    while from < len && white_space(text.get_char(from))
        invariant
            from <= len,
            len == text@.len(),
            trimmed_start(text@) == trimmed_start(text@.skip(from as int)),
        decreases len - from,
    {
        assert(text@.skip(from as int).skip(1) =~= text@.skip(from + 1));
        from += 1;
    }
    let mut to: usize = len;
    assert(text@.subrange(from as int, len as int) =~= text@.skip(from as int));
    while to > from && white_space(text.get_char(to - 1))
        invariant
            from <= to <= len,
            len == text@.len(),
            trimmed_start(text@) == text@.skip(from as int),
            trimmed(text@) == trimmed_end(text@.subrange(from as int, to as int)),
        decreases to - from,
    {
        assert(text@.subrange(from as int, to as int).drop_last() =~= text@.subrange(
            from as int,
            to - 1,
        ));
        to -= 1;
    }
    text.substring_char(from, to)
}

/// Whether every character of `text` is one of the ten decimal digits.
pub open spec fn all_digits(text: Seq<char>) -> bool {
    forall|i: int| 0 <= i < text.len() ==> '0' <= #[trigger] text[i] <= '9'
}

/// The number that a run of decimal digits writes, most significant first.
pub open spec fn digits_value(text: Seq<char>) -> nat
    decreases text.len(),
{
    if text.len() == 0 {
        0
    } else {
        (digits_value(text.drop_last()) * 10 + (text.last() as nat - '0' as nat)) as nat
    }
}

/// The digits of a decimal numeral: the text itself, without one leading `+`.
pub open spec fn numeral_digits(text: Seq<char>) -> Seq<char> {
    if text.len() > 0 && text[0] == '+' {
        text.skip(1)
    } else {
        text
    }
}

/// The number that `text` writes in decimal, if it writes one that a `usize`
/// holds: an optional `+`, then one digit or more, and nothing else.
pub open spec fn decimal_usize(text: Seq<char>) -> Option<usize> {
    let digits = numeral_digits(text);
    if digits.len() > 0 && all_digits(digits) && digits_value(digits) <= usize::MAX {
        Some(digits_value(digits) as usize)
    } else {
        None
    }
}

/// With digits only, the value of the first digits is at most the value of
/// them all.
pub proof fn lemma_digits_value_grows(digits: Seq<char>, count: int)
    requires
        all_digits(digits),
        0 <= count <= digits.len(),
    ensures
        digits_value(digits.take(count)) <= digits_value(digits),
    decreases digits.len() - count,
{
    if count == digits.len() {
        assert(digits.take(count) =~= digits);
    } else {
        lemma_digits_value_grows(digits.drop_last(), count);
        assert(digits.drop_last().take(count) =~= digits.take(count));
    }
}

/// A text with a character outside ASCII writes no number.
proof fn lemma_numerals_are_ascii(text: Seq<char>)
    requires
        !vstd::utf8::is_ascii_chars(text),
    ensures
        decimal_usize(text) == None::<usize>,
{
    let i = choose|i: int| 0 <= i < text.len() && !('\0' <= #[trigger] text[i] <= '\u{7f}');
    let digits = numeral_digits(text);
    if text[0] == '+' {
        assert(digits[i - 1] == text[i]);
    }
}

/// Reads a number written in decimal (see [`decimal_usize`]): an optional
/// `+`, then one digit or more, and nothing else. A number that a `usize`
/// does not hold is none.
pub fn parse_usize(text: &str) -> (number: Option<usize>)
    ensures
        number == decimal_usize(text@),
{
    if !text.is_ascii() {
        proof {
            lemma_numerals_are_ascii(text@);
        }
        return None;
    }
    let bytes = text.as_bytes();
    proof {
        vstd::string::is_ascii_spec_bytes(text);
    }
    let len: usize = bytes.len();
    let start: usize = if len > 0 && bytes[0] == 43u8 {
        1
    } else {
        0
    };
    let ghost digits = numeral_digits(text@);
    if start == len {
        return None;
    }
    let mut value: usize = 0;
    let mut k: usize = start;
    while k < len
        invariant
            start <= k <= len,
            len == text@.len(),
            bytes@.len() == len,
            start < len,
            vstd::utf8::is_ascii_chars(text@),
            forall|i: int| 0 <= i < len ==> bytes@[i] == (#[trigger] text@[i]) as u8,
            digits == text@.skip(start as int),
            digits == numeral_digits(text@),
            all_digits(digits.take(k - start)),
            value == digits_value(digits.take(k - start)),
        decreases len - k,
    {
        let byte: u8 = bytes[k];
        assert(digits.take(k + 1 - start).drop_last() =~= digits.take(k - start));
        if byte < 48u8 || byte > 57u8 {
            assert(!('0' <= digits[k - start] <= '9'));
            return None;
        }
        let digit: usize = (byte - 48u8) as usize;
        let grown = match value.checked_mul(10) {
            Some(tens) => tens.checked_add(digit),
            None => None,
        };
        match grown {
            Some(more) => {
                value = more;
            },
            None => {
                proof {
                    if all_digits(digits) {
                        lemma_digits_value_grows(digits, k + 1 - start);
                    }
                }
                return None;
            },
        }
        k += 1;
    }
    assert(digits.take(len - start) =~= digits);
    Some(value)
}

/// The character of one decimal digit.
pub open spec fn digit_char(d: nat) -> char
    recommends
        d < 10,
{
    if d == 0 {
        '0'
    } else if d == 1 {
        '1'
    } else if d == 2 {
        '2'
    } else if d == 3 {
        '3'
    } else if d == 4 {
        '4'
    } else if d == 5 {
        '5'
    } else if d == 6 {
        '6'
    } else if d == 7 {
        '7'
    } else if d == 8 {
        '8'
    } else {
        '9'
    }
}

/// The decimal numeral of `n`, without sign or leading zeros.
pub open spec fn numeral(n: nat) -> Seq<char>
    decreases n,
{
    if n < 10 {
        seq![digit_char(n)]
    } else {
        numeral(n / 10).push(digit_char(n % 10))
    }
}

fn digit_text(d: usize) -> (text: &'static str)
    requires
        d < 10,
    ensures
        text@ == seq![digit_char(d as nat)],
{
    proof {
        reveal_strlit("0");
        reveal_strlit("1");
        reveal_strlit("2");
        reveal_strlit("3");
        reveal_strlit("4");
        reveal_strlit("5");
        reveal_strlit("6");
        reveal_strlit("7");
        reveal_strlit("8");
        reveal_strlit("9");
    }
    let text = if d == 0 {
        "0"
    } else if d == 1 {
        "1"
    } else if d == 2 {
        "2"
    } else if d == 3 {
        "3"
    } else if d == 4 {
        "4"
    } else if d == 5 {
        "5"
    } else if d == 6 {
        "6"
    } else if d == 7 {
        "7"
    } else if d == 8 {
        "8"
    } else {
        "9"
    };
    text
}

/// Writes `n` in decimal.
pub fn decimal(n: usize) -> (text: String)
    ensures
        text@ == numeral(n as nat),
    decreases n,
{
    if n < 10 {
        digit_text(n).to_owned()
    } else {
        let mut text = decimal(n / 10);
        text.append(digit_text(n % 10));
        text
    }
}

/// Every numeral is made of digits, and its value is the number it was
/// written for.
pub proof fn lemma_numeral_value(n: nat)
    ensures
        numeral(n).len() > 0,
        all_digits(numeral(n)),
        digits_value(numeral(n)) == n,
        numeral(n)[0] != '+',
    decreases n,
{
    if n < 10 {
        assert(digits_value(numeral(n).drop_last()) == 0);
    } else {
        lemma_numeral_value(n / 10);
        assert(numeral(n).drop_last() =~= numeral(n / 10));
    }
}

/// How many characters of a title a message shows at most.
pub const TITLE_LIMIT: usize = 24;

/// How many characters of a longer title a message keeps before the dots.
pub const TITLE_KEPT: usize = 21;

/// A title as a message shows it: whole where it has at most
/// [`TITLE_LIMIT`] characters, and else its first [`TITLE_KEPT`]
/// characters and three dots.
pub open spec fn short_title_text(title: Seq<char>) -> Seq<char> {
    if title.len() > TITLE_LIMIT {
        title.subrange(0, TITLE_KEPT as int) + "..."@
    } else {
        title
    }
}

/// Shortens a title for a message (see [`short_title_text`]).
pub fn short_title(title: &str) -> (short: String)
    ensures
        short@ == short_title_text(title@),
{
    if title.unicode_len() > TITLE_LIMIT {
        let mut short = title.substring_char(0, TITLE_KEPT).to_owned();
        short.append("...");
        short
    } else {
        title.to_owned()
    }
}

} // verus!
