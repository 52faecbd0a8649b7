//! Numbers as text: reading a decimal number and writing one.

use vstd::prelude::*;

verus! {

/// Whether `c` is one of the ten decimal digits.
pub open spec fn is_digit(c: char) -> bool {
    '0' <= c <= '9'
}

/// The value of a decimal digit.
pub open spec fn digit_value(c: char) -> nat
    recommends
        is_digit(c),
{
    (c as nat - '0' as nat) as nat
}

/// The digit that stands for a value below ten.
pub open spec fn digit_char(value: nat) -> char
    recommends
        value < 10,
{
    (value + '0' as nat) as char
}

/// Whether a text is made of decimal digits only.
pub open spec fn all_digits(text: Seq<char>) -> bool {
    forall|i: int| 0 <= i < text.len() ==> is_digit(#[trigger] text[i])
}

/// The number that a text of decimal digits stands for.
pub open spec fn digits_value(digits: Seq<char>) -> nat
    decreases digits.len(),
{
    if digits.len() == 0 {
        0
    } else {
        10 * digits_value(digits.drop_last()) + digit_value(digits.last())
    }
}

/// The number that a text stands for: decimal digits, at least one, after an
/// optional `+`, with a value that 16 bits hold. Any other text stands for none.
pub open spec fn parsed_number(text: Seq<char>) -> Option<u16> {
    let digits = if text.len() > 0 && text[0] == '+' {
        text.skip(1)
    } else {
        text
    };
    if digits.len() > 0 && all_digits(digits) && digits_value(digits) <= u16::MAX {
        Some(digits_value(digits) as u16)
    } else {
        None
    }
}

/// A number in decimal digits, without leading zeros.
pub open spec fn decimal(number: nat) -> Seq<char>
    decreases number,
{
    if number < 10 {
        seq![digit_char(number)]
    } else {
        decimal(number / 10).push(digit_char(number % 10))
    }
}

/// A number in decimal digits, with a leading zero where it has one digit only.
pub open spec fn two_digits(number: nat) -> Seq<char> {
    if number < 10 {
        seq!['0'].add(decimal(number))
    } else {
        decimal(number)
    }
}

/// `String::push` of std: the character is added at the end of the text.
#[verifier::external_body]
pub(crate) fn push_char(text: &mut String, c: char)
    ensures
        final(text)@ == old(text)@.push(c),
{
    text.push(c)
}

/// `str::eq` of std: two texts are equal where they hold the same characters.
#[verifier::external_body]
pub(crate) fn same_text(left: &str, right: &str) -> (same: bool)
    ensures
        same == (left@ == right@),
{
    left == right
}

/// A longer text of digits stands for ten times the value of the text before its
/// last digit, and that digit.
proof fn lemma_digits_value_push(digits: Seq<char>, c: char)
    ensures
        digits_value(digits.push(c)) == 10 * digits_value(digits) + digit_value(c),
{
    assert(digits.push(c).drop_last() =~= digits);
}

/// Reads a decimal number of at most 16 bits.
pub fn parse_number(text: &str) -> (number: Option<u16>)
    ensures
        number == parsed_number(text@),
{
    let mut at_start = true;
    let mut signed = false;
    let mut any = false;
    let mut valid = true;
    let mut overflow = false;
    let mut value: u32 = 0;
    for c in it: text.chars()
        invariant
            it.seq() == text@,
            at_start <==> it.index() == 0,
            signed <==> it.index() > 0 && text@[0] == '+',
            value <= u16::MAX,
            ({
                let start: int = if signed {
                    1
                } else {
                    0
                };
                let digits = text@.subrange(start, it.index() as int);
                &&& any <==> digits.len() > 0
                &&& valid <==> all_digits(digits)
                &&& valid ==> (overflow <==> digits_value(digits) > u16::MAX)
                &&& valid && !overflow ==> value == digits_value(digits)
            }),
    {
        let ghost index = it.index() as int;
        if at_start && c == '+' {
            signed = true;
            assert(text@.subrange(1, 1) =~= Seq::<char>::empty());
        } else {
            let ghost start: int = if signed {
                1
            } else {
                0
            };
            let ghost before = text@.subrange(start, index);
            let ghost after = text@.subrange(start, index + 1);
            proof {
                assert(after =~= before.push(c));
                lemma_digits_value_push(before, c);
                if all_digits(after) {
                    assert forall|i: int| 0 <= i < before.len() implies is_digit(
                        #[trigger] before[i],
                    ) by {
                        assert(before[i] == after[i]);
                    }
                    assert(is_digit(after[before.len() as int]));
                }
            }
            any = true;
            if '0' <= c && c <= '9' {
                if !overflow {
                    value = value * 10 + (c as u32 - '0' as u32);
                    if value > 65535 {
                        overflow = true;
                        value = 0;
                    }
                }
            } else {
                valid = false;
            }
        }
        at_start = false;
    }
    proof {
        let start: int = if signed {
            1
        } else {
            0
        };
        assert(text@.subrange(start, text@.len() as int) =~= if text@.len() > 0 && text@[0]
            == '+' {
            text@.skip(1)
        } else {
            text@
        });
    }
    if any && valid && !overflow {
        Some(value as u16)
    } else {
        None
    }
}

/// The digit for a value below ten.
fn digit(value: u16) -> (c: char)
    requires
        value < 10,
    ensures
        c == digit_char(value as nat),
{
    (value as u8 + 48) as char
}

/// Writes `number` in decimal digits at the end of `text`.
pub(crate) fn push_decimal(text: &mut String, number: u16)
    ensures
        final(text)@ == old(text)@ + decimal(number as nat),
    decreases number,
{
    if number >= 10 {
        push_decimal(text, number / 10);
    }
    push_char(text, digit(number % 10));
    proof {
        assert(final(text)@ =~= old(text)@ + decimal(number as nat));
    }
}

/// Writes `number` at the end of `text` with two digits at least.
pub(crate) fn push_two_digits(text: &mut String, number: u16)
    ensures
        final(text)@ == old(text)@ + two_digits(number as nat),
{
    if number < 10 {
        push_char(text, '0');
    }
    push_decimal(text, number);
    proof {
        assert(final(text)@ =~= old(text)@ + two_digits(number as nat));
    }
}

/// A number in decimal digits.
pub fn number_to_string(number: u16) -> (text: String)
    ensures
        text@ == decimal(number as nat),
{
    let mut text = String::new();
    push_decimal(&mut text, number);
    proof {
        assert(text@ =~= decimal(number as nat));
    }
    text
}

/// Whether a character is white space.
pub uninterp spec fn is_whitespace(c: char) -> bool;

/// `char::is_whitespace` of std: whether the character is white space.
#[verifier::external_body]
fn is_whitespace_char(c: char) -> (whitespace: bool)
    ensures
        whitespace == is_whitespace(c),
{
    c.is_whitespace()
}

/// What parts a text into pieces.
#[derive(Debug, Clone, Copy, PartialEq, Eq)]
pub enum Separator {
    /// The given character.
    Char(char),
    /// Any character that is white space.
    Whitespace,
}

impl Separator {
    /// Whether `c` stands between two pieces.
    pub open spec fn separates(self, c: char) -> bool {
        match self {
            Separator::Char(separator) => c == separator,
            Separator::Whitespace => is_whitespace(c),
        }
    }

    fn is_separator(&self, c: char) -> (separates: bool)
        ensures
            separates == self.separates(c),
    {
        match self {
            Separator::Char(separator) => c == *separator,
            Separator::Whitespace => is_whitespace_char(c),
        }
    }
}

/// The piece at the end of a text: what follows the last separator, or the whole
/// text where it holds no separator.
pub open spec fn last_piece(text: Seq<char>, separator: Separator) -> Seq<char>
    decreases text.len(),
{
    if text.len() == 0 || separator.separates(text.last()) {
        Seq::empty()
    } else {
        last_piece(text.drop_last(), separator).push(text.last())
    }
}

/// The pieces of a text that end at a separator, in their order. An empty piece
/// is left out unless empty pieces are kept.
pub open spec fn closed_pieces(text: Seq<char>, separator: Separator, keep_empty: bool) -> Seq<
    Seq<char>,
>
    decreases text.len(),
{
    if text.len() == 0 {
        Seq::empty()
    } else if separator.separates(text.last()) {
        let before = closed_pieces(text.drop_last(), separator, keep_empty);
        let piece = last_piece(text.drop_last(), separator);
        if keep_empty || piece.len() > 0 {
            before.push(piece)
        } else {
            before
        }
    } else {
        closed_pieces(text.drop_last(), separator, keep_empty)
    }
}

/// The pieces that the separators part a text into, in their order. An empty
/// piece is left out unless empty pieces are kept.
pub open spec fn pieces(text: Seq<char>, separator: Separator, keep_empty: bool) -> Seq<Seq<char>> {
    let closed = closed_pieces(text, separator, keep_empty);
    let piece = last_piece(text, separator);
    if keep_empty || piece.len() > 0 {
        closed.push(piece)
    } else {
        closed
    }
}

/// The pieces of a text between the occurrences of a character. A text without
/// the character is one piece, and two occurrences in a row have an empty piece
/// between them.
pub open spec fn split(text: Seq<char>, separator: char) -> Seq<Seq<char>> {
    pieces(text, Separator::Char(separator), true)
}

/// The words of a text: its longest runs of characters that are not white space.
pub open spec fn words(text: Seq<char>) -> Seq<Seq<char>> {
    pieces(text, Separator::Whitespace, false)
}

/// The texts of a list of strings.
pub open spec fn texts(list: Seq<String>) -> Seq<Seq<char>> {
    Seq::new(list.len(), |i: int| list[i]@)
}

fn pieces_of(text: &str, separator: Separator, keep_empty: bool) -> (list: Vec<String>)
    ensures
        texts(list@) == pieces(text@, separator, keep_empty),
{
    let mut list: Vec<String> = Vec::new();
    let mut piece = String::new();
    for c in it: text.chars()
        invariant
            it.seq() == text@,
            texts(list@) == closed_pieces(text@.take(it.index() as int), separator, keep_empty),
            piece@ == last_piece(text@.take(it.index() as int), separator),
    {
        let ghost before = text@.take(it.index() as int);
        let ghost after = text@.take(it.index() + 1);
        proof {
            assert(after.drop_last() =~= before);
            assert(after.last() == c);
        }
        if separator.is_separator(c) {
            if keep_empty || !piece.as_str().is_empty() {
                let ghost closed = list@;
                list.push(piece);
                proof {
                    assert(texts(list@) =~= texts(closed).push(last_piece(before, separator)));
                }
            }
            piece = String::new();
        } else {
            push_char(&mut piece, c);
        }
    }
    proof {
        assert(text@.take(text@.len() as int) =~= text@);
    }
    if keep_empty || !piece.as_str().is_empty() {
        let ghost closed = list@;
        list.push(piece);
        proof {
            assert(texts(list@) =~= texts(closed).push(last_piece(text@, separator)));
        }
    }
    list
}

/// The pieces of a text between the occurrences of a character.
pub fn split_text(text: &str, separator: char) -> (list: Vec<String>)
    ensures
        texts(list@) == split(text@, separator),
        list@.len() >= 1,
{
    let list = pieces_of(text, Separator::Char(separator), true);
    proof {
        assert(texts(list@).len() == list@.len());
    }
    list
}

/// The words of a text.
pub fn split_words(text: &str) -> (list: Vec<String>)
    ensures
        texts(list@) == words(text@),
{
    pieces_of(text, Separator::Whitespace, false)
}

/// Whether `name` is one of the texts of a list.
pub open spec fn names_contain(names: Seq<Seq<char>>, name: Seq<char>) -> bool {
    exists|i: int| 0 <= i < names.len() && names[i] == name
}

/// Whether one of the strings of a list, from place `from` up to place `to`, holds
/// the given text.
pub fn contains_text(names: &Vec<String>, from: usize, to: usize, name: &str) -> (found: bool)
    requires
        from <= to <= names@.len(),
    ensures
        found == names_contain(texts(names@).subrange(from as int, to as int), name@),
{
    let mut i: usize = from;
    while i < to
        invariant
            from <= i <= to <= names@.len(),
            !names_contain(texts(names@).subrange(from as int, i as int), name@),
        decreases to - i,
    {
        if same_text(names[i].as_str(), name) {
            proof {
                assert(texts(names@).subrange(from as int, to as int)[i - from] == name@);
            }
            return true;
        }
        proof {
            let before = texts(names@).subrange(from as int, i as int);
            let after = texts(names@).subrange(from as int, i + 1);
            assert forall|j: int| 0 <= j < after.len() implies after[j] != name@ by {
                if j < i - from {
                    assert(before[j] == after[j]);
                }
            }
        }
        i = i + 1;
    }
    false
}

} // verus!
