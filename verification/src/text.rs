//! Text: decoding bytes, reading and writing numbers, joining pieces.
use vstd::prelude::*;
use vstd::utf8::{decode_utf8, valid_utf8};

verus! {

/// Description that `std::str::Utf8Error` gives of why bytes are not UTF-8.
pub uninterp spec fn utf8_failure(bytes: Seq<u8>) -> Seq<char>;

/// Text that `String::from_utf8_lossy` makes of bytes.
pub uninterp spec fn lossy_text(bytes: Seq<u8>) -> Seq<char>;

/// Description that `std::num::ParseIntError` gives of why a text is no `i32`.
pub uninterp spec fn parse_i32_failure(text: Seq<char>) -> Seq<char>;

/// Text that the `Debug` format of `std::path::Path` gives of a path.
pub uninterp spec fn path_debug(path: Seq<char>) -> Seq<char>;

/// Formats a `std::path::Path` with `{:?}`. The outcome depends on the path alone;
/// how it is quoted is not stated.
#[verifier::external_body]
pub(crate) fn debug_path_text(path: &str) -> (text: String)
    ensures
        text@ == path_debug(path@),
{
    format!("{:?}", std::path::Path::new(path))
}

/// Calls `std::str::from_utf8`, which accepts exactly the valid UTF-8 byte strings
/// and then gives the text they encode. The description of a refusal depends on
/// the bytes alone; what it says is not stated.
#[verifier::external_body]
pub(crate) fn text_from_utf8(bytes: &[u8]) -> (text: Result<String, String>)
    ensures
        text is Ok <==> valid_utf8(bytes@),
        text matches Ok(t) ==> t@ == decode_utf8(bytes@),
        text matches Err(t) ==> t@ == utf8_failure(bytes@),
{
    match std::str::from_utf8(bytes) {
        Ok(text) => Ok(text.to_owned()),
        Err(error) => Err(error.to_string()),
    }
}

/// Calls `String::from_utf8_lossy`. It keeps valid UTF-8 as it is; which
/// replacement characters it puts for other bytes is not stated.
#[verifier::external_body]
pub(crate) fn text_from_utf8_lossy(bytes: &[u8]) -> (text: String)
    ensures
        text@ == lossy_text(bytes@),
        valid_utf8(bytes@) ==> text@ == decode_utf8(bytes@),
{
    String::from_utf8_lossy(bytes).into_owned()
}

/// The characters with the Unicode property `White_Space`.
pub open spec fn white_space(c: char) -> bool {
    ||| '\u{9}' <= c <= '\u{d}'
    ||| c == '\u{20}'
    ||| c == '\u{85}'
    ||| c == '\u{a0}'
    ||| c == '\u{1680}'
    ||| '\u{2000}' <= c <= '\u{200a}'
    ||| c == '\u{2028}'
    ||| c == '\u{2029}'
    ||| c == '\u{202f}'
    ||| c == '\u{205f}'
    ||| c == '\u{3000}'
}

/// `s` without the white space at its front.
pub open spec fn trimmed_start(s: Seq<char>) -> Seq<char>
    decreases s.len(),
{
    if s.len() > 0 && white_space(s.first()) {
        trimmed_start(s.drop_first())
    } else {
        s
    }
}

/// `s` without the white space at its end.
pub open spec fn trimmed_end(s: Seq<char>) -> Seq<char>
    decreases s.len(),
{
    if s.len() > 0 && white_space(s.last()) {
        trimmed_end(s.drop_last())
    } else {
        s
    }
}

/// `s` without the white space at either end.
pub open spec fn trimmed(s: Seq<char>) -> Seq<char> {
    trimmed_end(trimmed_start(s))
}

/// Calls `str::trim`, which takes the white space off both ends of a text.
#[verifier::external_body]
pub(crate) fn trim(text: &str) -> (inner: &str)
    ensures
        inner@ == trimmed(text@),
{
    text.trim()
}

/// Every character of `s` is a decimal digit.
pub open spec fn all_digits(s: Seq<char>) -> bool {
    forall|i: int| 0 <= i < s.len() ==> '0' <= #[trigger] s[i] <= '9'
}

/// The number that a string of decimal digits writes.
pub open spec fn digits_value(s: Seq<char>) -> int
    decreases s.len(),
{
    if s.len() == 0 {
        0
    } else {
        10 * digits_value(s.drop_last()) + (s.last() as int - '0' as int)
    }
}

/// The `i32` that `s` writes: an optional sign, then decimal digits and nothing else.
pub open spec fn parsed_i32(s: Seq<char>) -> Option<int> {
    let signed = s.len() > 0 && (s[0] == '+' || s[0] == '-');
    let digits = if signed {
        s.skip(1)
    } else {
        s
    };
    let value = if signed && s[0] == '-' {
        -digits_value(digits)
    } else {
        digits_value(digits)
    };
    if digits.len() > 0 && all_digits(digits) && i32::MIN <= value <= i32::MAX {
        Some(value)
    } else {
        None
    }
}

/// Calls `str::parse::<i32>`, which reads an optional sign and decimal digits, and
/// refuses every other text and every number that does not fit. The description of
/// a refusal depends on the text alone; what it says is not stated.
#[verifier::external_body]
pub(crate) fn parse_i32(text: &str) -> (number: Result<i32, String>)
    ensures
        number matches Ok(n) ==> parsed_i32(text@) == Some(n as int),
        number matches Err(why) ==> parsed_i32(text@) is None && why@ == parse_i32_failure(text@),
{
    text.parse::<i32>().map_err(|error| error.to_string())
}

/// The decimal digit for a number below ten.
pub open spec fn digit(d: nat) -> char {
    ('0' as nat + d) as char
}

/// `n` written in decimal.
pub open spec fn decimal(n: nat) -> Seq<char>
    decreases n,
{
    if n < 10 {
        seq![digit(n)]
    } else {
        decimal(n / 10).push(digit(n % 10))
    }
}

/// `i` written in decimal, with a sign when it is negative.
pub open spec fn signed_decimal(i: int) -> Seq<char> {
    if i < 0 {
        seq!['-'] + decimal((-i) as nat)
    } else {
        decimal(i as nat)
    }
}

/// The digit for `d` as a text.
fn digit_text(d: u32) -> (text: &'static str)
    requires
        d < 10,
    ensures
        text@ == seq![digit(d as nat)],
{
    proof {
        reveal_strlit("0");
        reveal_strlit("1");
        reveal_strlit("2");
        reveal_strlit("3");
        reveal_strlit("4");
        reveal_strlit("5");
        reveal_strlit("6");
        reveal_strlit("7");
        reveal_strlit("8");
        reveal_strlit("9");
    }
    if d == 0 {
        "0"
    } else if d == 1 {
        "1"
    } else if d == 2 {
        "2"
    } else if d == 3 {
        "3"
    } else if d == 4 {
        "4"
    } else if d == 5 {
        "5"
    } else if d == 6 {
        "6"
    } else if d == 7 {
        "7"
    } else if d == 8 {
        "8"
    } else {
        "9"
    }
}

/// Appends `n` in decimal.
fn push_decimal(text: &mut String, n: u32)
    ensures
        final(text)@ == old(text)@ + decimal(n as nat),
    decreases n,
{
    if n >= 10 {
        push_decimal(text, n / 10);
    }
    text.append(digit_text(n % 10));
    assert(text@ =~= old(text)@ + decimal(n as nat));
}

/// Writes `i` in decimal.
pub(crate) fn i32_text(i: i32) -> (text: String)
    ensures
        text@ == signed_decimal(i as int),
{
    let mut text = String::new();
    if i < 0 {
        proof {
            reveal_strlit("-");
        }
        text.append("-");
        let magnitude: u32 = (-(i as i64)) as u32;
        push_decimal(&mut text, magnitude);
        assert(text@ =~= signed_decimal(i as int));
    } else {
        push_decimal(&mut text, i as u32);
        assert(text@ =~= signed_decimal(i as int));
    }
    text
}

/// Joins two texts.
pub(crate) fn join2(a: &str, b: &str) -> (text: String)
    ensures
        text@ == a@ + b@,
{
    let mut text = a.to_owned();
    text.append(b);
    text
}

/// Joins three texts.
pub(crate) fn join3(a: &str, b: &str, c: &str) -> (text: String)
    ensures
        text@ == a@ + b@ + c@,
{
    let mut text = a.to_owned();
    text.append(b);
    text.append(c);
    text
}

/// Joins four texts.
pub(crate) fn join4(a: &str, b: &str, c: &str, d: &str) -> (text: String)
    ensures
        text@ == a@ + b@ + c@ + d@,
{
    let mut text = a.to_owned();
    text.append(b);
    text.append(c);
    text.append(d);
    text
}

proof fn lemma_decimal(n: nat)
    ensures
        decimal(n).len() > 0,
        all_digits(decimal(n)),
        digits_value(decimal(n)) == n,
    decreases n,
{
    let text = decimal(n);
    if n < 10 {
        assert(text.drop_last() =~= Seq::empty());
        assert(digits_value(text.drop_last()) == 0);
    } else {
        lemma_decimal(n / 10);
        assert(text.drop_last() =~= decimal(n / 10));
        assert forall|i: int| 0 <= i < text.len() implies '0' <= #[trigger] text[i] <= '9' by {
            if i < decimal(n / 10).len() {
                assert(text[i] == decimal(n / 10)[i]);
            }
        }
    }
}

/// A number that is written in decimal is read back as it was.
pub proof fn law_written_number_is_read_back(i: i32)
    ensures
        parsed_i32(signed_decimal(i as int)) == Some(i as int),
{
    let text = signed_decimal(i as int);
    if i < 0 {
        lemma_decimal((-i) as nat);
        assert(text.skip(1) =~= decimal((-i) as nat));
    } else {
        lemma_decimal(i as nat);
        assert('0' <= text[0] <= '9');
    }
}

/// A number that stands on a line of its own is read back as it was.
pub proof fn law_number_on_a_line_is_read_back(i: i32)
    ensures
        parsed_i32(trimmed(signed_decimal(i as int).push('\n'))) == Some(i as int),
{
    let text = signed_decimal(i as int);
    law_written_number_is_read_back(i);
    if i < 0 {
        lemma_decimal((-i) as nat);
        assert(text.last() == decimal((-i) as nat).last());
    } else {
        lemma_decimal(i as nat);
    }
    let line = text.push('\n');
    assert(line.first() == text.first());
    assert(!white_space(text.first()));
    assert(!white_space(text.last()));
    assert(trimmed_start(line) == line);
    assert(line.drop_last() =~= text);
    assert(trimmed_end(text) == text);
    assert(trimmed_end(line) == text);
}

/// A number is written without anything superfluous: digits only, after a minus sign if it is
/// negative, and no zero at the front but for 0 itself.
pub proof fn law_number_is_written_plainly(i: i32)
    ensures
        ({
            let text = signed_decimal(i as int);
            let digits = if i < 0 {
                text.skip(1)
            } else {
                text
            };
            &&& text.len() > 0
            &&& text[0] == '-' <==> i < 0
            &&& digits.len() > 0
            &&& all_digits(digits)
            &&& digits[0] == '0' <==> i == 0
            &&& i == 0 ==> digits.len() == 1
        }),
{
    if i < 0 {
        lemma_decimal((-i) as nat);
        lemma_no_leading_zero((-i) as nat);
        assert(signed_decimal(i as int).skip(1) =~= decimal((-i) as nat));
    } else {
        lemma_decimal(i as nat);
        lemma_no_leading_zero(i as nat);
        assert('0' <= signed_decimal(i as int)[0] <= '9');
    }
}

proof fn lemma_no_leading_zero(n: nat)
    ensures
        decimal(n).len() > 0,
        decimal(n)[0] == '0' <==> n == 0,
    decreases n,
{
    if n >= 10 {
        lemma_no_leading_zero(n / 10);
        assert(decimal(n)[0] == decimal(n / 10)[0]);
    }
}

} // verus!
