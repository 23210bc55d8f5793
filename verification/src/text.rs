//! Small helpers on texts and on the raw output of commands.

use vstd::prelude::*;

verus! {

/// Whether `needle` occurs in `hay` as a run of consecutive items.
pub open spec fn occurs(hay: Seq<u8>, needle: Seq<u8>) -> bool {
    exists|i: int| occurs_at(hay, needle, i)
}

/// Whether `needle` stands in `hay` at position `i`.
pub open spec fn occurs_at(hay: Seq<u8>, needle: Seq<u8>, i: int) -> bool {
    0 <= i && i + needle.len() <= hay.len() && hay.subrange(i, i + needle.len()) == needle
}

/// Whether `needle` stands in `hay` at position `at`.
fn matches_at(hay: &[u8], needle: &[u8], at: usize) -> (found: bool)
    requires
        at + needle@.len() <= hay@.len(),
    ensures
        found == occurs_at(hay@, needle@, at as int),
{
    let n = hay.len();
    let mut k: usize = 0;
    while k < needle.len()
        invariant
            n == hay@.len(),
            at + needle@.len() <= hay@.len(),
            k <= needle@.len(),
            forall|j: int| 0 <= j < k ==> hay@[at + j] == needle@[j],
        decreases needle@.len() - k,
    {
        if hay[at + k] != needle[k] {
            assert(hay@.subrange(at as int, at + needle@.len())[k as int] != needle@[k as int]);
            return false;
        }
        k += 1;
    }
    assert(hay@.subrange(at as int, at + needle@.len()) =~= needle@);
    true
}

/// Whether the bytes of `needle` occur in `hay`, one after the other.
pub fn contains_bytes(hay: &[u8], needle: &[u8]) -> (found: bool)
    ensures
        found == occurs(hay@, needle@),
{
    if needle.len() > hay.len() {
        assert(forall|i: int| !occurs_at(hay@, needle@, i));
        return false;
    }
    let last: usize = hay.len() - needle.len();
    let mut at: usize = 0;
    loop
        invariant
            last + needle@.len() == hay@.len(),
            at <= last,
            forall|i: int| 0 <= i < at ==> !occurs_at(hay@, needle@, i),
        decreases last - at,
    {
        if matches_at(hay, needle, at) {
            return true;
        }
        if at == last {
            assert(forall|i: int| !occurs_at(hay@, needle@, i));
            return false;
        }
        at += 1;
    }
}

/// Whether `text` begins with `prefix`.
pub open spec fn has_prefix(text: Seq<char>, prefix: Seq<char>) -> bool {
    prefix.len() <= text.len() && text.subrange(0, prefix.len() as int) == prefix
}

/// Whether `text` begins with `prefix`.
pub fn starts_with(text: &str, prefix: &str) -> (found: bool)
    ensures
        found == has_prefix(text@, prefix@),
{
    let n = prefix.unicode_len();
    if text.unicode_len() < n {
        return false;
    }
    let mut k: usize = 0;
    while k < n
        invariant
            n == prefix@.len(),
            n <= text@.len(),
            k <= n,
            forall|j: int| 0 <= j < k ==> text@[j] == prefix@[j],
        decreases n - k,
    {
        if text.get_char(k) != prefix.get_char(k) {
            assert(text@.subrange(0, n as int)[k as int] != prefix@[k as int]);
            return false;
        }
        k += 1;
    }
    assert(text@.subrange(0, n as int) =~= prefix@);
    true
}

/// What is left of `text` behind `prefix`, if `text` begins with it.
pub fn strip_prefix(text: &str, prefix: &str) -> (rest: Option<String>)
    ensures
        rest is Some == has_prefix(text@, prefix@),
        rest is Some ==> rest->0@ == text@.subrange(prefix@.len() as int, text@.len() as int),
{
    if starts_with(text, prefix) {
        let from = prefix.unicode_len();
        let to = text.unicode_len();
        Some(String::from_str(text.substring_char(from, to)))
    } else {
        None
    }
}

/// Whether two texts are the same.
pub fn str_eq(a: &str, b: &str) -> (same: bool)
    ensures
        same == (a@ == b@),
{
    let n = a.unicode_len();
    if n != b.unicode_len() {
        return false;
    }
    let mut i: usize = 0;
    while i < n
        invariant
            n == a@.len(),
            n == b@.len(),
            i <= n,
            forall|k: int| 0 <= k < i ==> a@[k] == b@[k],
        decreases n - i,
    {
        if a.get_char(i) != b.get_char(i) {
            return false;
        }
        i += 1;
    }
    assert(a@ =~= b@);
    true
}

/// The character for a digit.
pub open spec fn digit_char(digit: nat) -> char {
    if digit == 0 {
        '0'
    } else if digit == 1 {
        '1'
    } else if digit == 2 {
        '2'
    } else if digit == 3 {
        '3'
    } else if digit == 4 {
        '4'
    } else if digit == 5 {
        '5'
    } else if digit == 6 {
        '6'
    } else if digit == 7 {
        '7'
    } else if digit == 8 {
        '8'
    } else {
        '9'
    }
}

/// A number written in decimal digits, without a sign or leading zeros.
pub open spec fn decimal(n: nat) -> Seq<char>
    decreases n,
{
    if n < 10 {
        seq![digit_char(n)]
    } else {
        decimal(n / 10).push(digit_char(n % 10))
    }
}

/// The text of a digit.
fn digit_text(digit: u32) -> (text: &'static str)
    requires
        digit < 10,
    ensures
        text@ == seq![digit_char(digit as nat)],
{
    proof {
        reveal_strlit("0");
        reveal_strlit("1");
        reveal_strlit("2");
        reveal_strlit("3");
        reveal_strlit("4");
        reveal_strlit("5");
        reveal_strlit("6");
        reveal_strlit("7");
        reveal_strlit("8");
        reveal_strlit("9");
    }
    let text = if digit == 0 {
        "0"
    } else if digit == 1 {
        "1"
    } else if digit == 2 {
        "2"
    } else if digit == 3 {
        "3"
    } else if digit == 4 {
        "4"
    } else if digit == 5 {
        "5"
    } else if digit == 6 {
        "6"
    } else if digit == 7 {
        "7"
    } else if digit == 8 {
        "8"
    } else {
        "9"
    };
    assert(text@ =~= seq![digit_char(digit as nat)]);
    text
}

/// Writes a number in decimal digits.
pub fn decimal_text(n: u32) -> (text: String)
    ensures
        text@ == decimal(n as nat),
    decreases n,
{
    if n < 10 {
        String::from_str(digit_text(n))
    } else {
        let mut text = decimal_text(n / 10);
        text.append(digit_text(n % 10));
        assert(text@ =~= decimal(n as nat));
        text
    }
}

/// The views of a list of texts, in order.
pub open spec fn text_views(list: Seq<String>) -> Seq<Seq<char>> {
    list.map_values(|text: String| text@)
}

/// The pieces into which `text` falls at its line feeds, in order. A text
/// without a line feed is one piece, and a line feed at the end leaves an
/// empty piece behind it.
pub open spec fn split_lines(text: Seq<char>) -> Seq<Seq<char>>
    decreases text.len(),
{
    if text.len() == 0 {
        seq![Seq::empty()]
    } else {
        let before = split_lines(text.drop_last());
        if text.last() == '\n' {
            before.push(Seq::empty())
        } else {
            before.update(before.len() - 1, before.last().push(text.last()))
        }
    }
}

/// Splits a text at its line feeds.
pub fn lines_of(text: &str) -> (lines: Vec<String>)
    ensures
        text_views(lines@) == split_lines(text@),
{
    let n = text.unicode_len();
    let mut lines: Vec<String> = Vec::new();
    let mut start: usize = 0;
    let mut i: usize = 0;
    proof {
        assert(text@.take(0) =~= Seq::<char>::empty());
        assert(text_views(lines@).push(text@.subrange(0, 0)) =~= seq![Seq::<char>::empty()]);
    }
    while i < n
        invariant
            n == text@.len(),
            start <= i <= n,
            split_lines(text@.take(i as int)) == text_views(lines@).push(
                text@.subrange(start as int, i as int),
            ),
        decreases n - i,
    {
        let ghost seen = text@.take(i as int);
        let ghost next = text@.take(i + 1);
        let ghost done = text_views(lines@);
        let ghost piece = text@.subrange(start as int, i as int);
        proof {
            assert(next.drop_last() =~= seen);
            assert(next.last() == text@[i as int]);
        }
        if text.get_char(i) == '\n' {
            lines.push(String::from_str(text.substring_char(start, i)));
            start = i + 1;
            proof {
                assert(text_views(lines@) =~= done.push(piece));
                assert(text@.subrange(start as int, i + 1) =~= Seq::<char>::empty());
            }
        } else {
            proof {
                assert(piece.push(text@[i as int]) =~= text@.subrange(start as int, i + 1));
                assert(done.push(piece).update(
                    done.push(piece).len() - 1,
                    done.push(piece).last().push(text@[i as int]),
                ) =~= done.push(text@.subrange(start as int, i + 1)));
            }
        }
        i += 1;
    }
    let ghost done_lines = lines@;
    lines.push(String::from_str(text.substring_char(start, n)));
    proof {
        assert(text@.take(n as int) =~= text@);
        assert(text_views(lines@) =~= text_views(lines@.drop_last()).push(
            text@.subrange(start as int, n as int),
        ));
        assert(lines@.drop_last() =~= done_lines);
    }
    lines
}

/// Whether a character is one of the ten decimal digits.
pub open spec fn is_digit(c: char) -> bool {
    '0' <= c <= '9'
}

/// Whether every character of a text is a decimal digit.
pub open spec fn all_digits(text: Seq<char>) -> bool {
    forall|i: int| 0 <= i < text.len() ==> is_digit(#[trigger] text[i])
}

/// A text without the plus sign that it begins with, if it begins with one.
pub open spec fn without_sign(text: Seq<char>) -> Seq<char> {
    if text.len() > 0 && text[0] == '+' {
        text.skip(1)
    } else {
        text
    }
}

/// The value of a run of decimal digits; the empty run has the value zero.
pub open spec fn digits_value(digits: Seq<char>) -> nat
    decreases digits.len(),
{
    if digits.len() == 0 {
        0
    } else {
        (digits_value(digits.drop_last()) * 10 + (digits.last() as nat - '0' as nat)) as nat
    }
}

/// The number that `text` is read as: the value of its decimal digits, of
/// which there has to be one at least and before which a plus sign may
/// stand, if the text is made up so and the value is no more than the
/// largest number of 32 bits. Any other text is no number.
pub open spec fn parsed_u32(text: Seq<char>) -> Option<u32> {
    let digits = without_sign(text);
    if digits.len() > 0 && all_digits(digits) && digits_value(digits) <= u32::MAX {
        Some(digits_value(digits) as u32)
    } else {
        None
    }
}

/// Calls `str::parse::<u32>`, which reads an optional plus sign followed by
/// decimal digits and refuses anything else, a number that does not fit
/// included. For a text that is no number the reason is handed out as
/// text.
#[verifier::external_body]
pub(crate) fn parse_u32(text: &str) -> (number: Result<u32, String>)
    ensures
        number is Ok == parsed_u32(text@) is Some,
        number is Ok ==> number->Ok_0 == parsed_u32(text@)->0,
{
    match text.parse::<u32>() {
        Ok(number) => Ok(number),
        Err(error) => Err(error.to_string()),
    }
}

/// The numbers among `lines`, in order: each line that reads as a number
/// gives one, and the others are passed over.
pub open spec fn numbers_in(lines: Seq<Seq<char>>) -> Seq<u32>
    decreases lines.len(),
{
    if lines.len() == 0 {
        Seq::empty()
    } else if parsed_u32(lines.last()) is Some {
        numbers_in(lines.drop_last()).push(parsed_u32(lines.last())->0)
    } else {
        numbers_in(lines.drop_last())
    }
}

/// The numbers that stand on lines of their own in `text`.
pub fn numbers_of(text: &str) -> (numbers: Vec<u32>)
    ensures
        numbers@ == numbers_in(split_lines(text@)),
{
    let lines = lines_of(text);
    let mut numbers: Vec<u32> = Vec::new();
    let mut i: usize = 0;
    proof {
        assert(text_views(lines@).take(0) =~= Seq::<Seq<char>>::empty());
    }
    while i < lines.len()
        invariant
            i <= lines@.len(),
            numbers@ == numbers_in(text_views(lines@).take(i as int)),
        decreases lines@.len() - i,
    {
        proof {
            let next = text_views(lines@).take(i + 1);
            assert(next.drop_last() =~= text_views(lines@).take(i as int));
            assert(next.last() == lines@[i as int]@);
        }
        match parse_u32(lines[i].as_str()) {
            Ok(number) => {
                numbers.push(number);
            },
            Err(_) => {},
        }
        i += 1;
    }
    proof {
        assert(text_views(lines@).take(lines@.len() as int) =~= text_views(lines@));
    }
    numbers
}

/// The text that `String::from_utf8_lossy` reads out of `bytes`: the text
/// that the bytes encode, with a replacement character for each run that is
/// not valid UTF-8.
pub uninterp spec fn lossy_text(bytes: Seq<u8>) -> Seq<char>;

/// Calls `String::from_utf8_lossy` and owns the result. The text is a
/// function of the bytes alone.
#[verifier::external_body]
pub(crate) fn text_of(bytes: &[u8]) -> (text: String)
    ensures
        text@ == lossy_text(bytes@),
{
    String::from_utf8_lossy(bytes).into_owned()
}

/// The text that `str::replace` makes of `text`: every match of `from`,
/// found from the left and without overlap, gives way to `to`.
pub uninterp spec fn replaced(text: Seq<char>, from: Seq<char>, to: Seq<char>) -> Seq<char>;

/// Calls `str::replace`. The result is a function of the three texts alone.
#[verifier::external_body]
pub(crate) fn replace_text(text: &str, from: &str, to: &str) -> (changed: String)
    ensures
        changed@ == replaced(text@, from@, to@),
{
    text.replace(from, to)
}

/// Calls `chrono::Local::now` and writes the time out with its `to_string`.
/// The text differs from call to call, so nothing is claimed of it.
#[verifier::external_body]
pub(crate) fn timestamp() -> String {
    chrono::Local::now().to_string()
}

} // verus!
