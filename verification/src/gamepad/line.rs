//! The status line: formatted writes into a string of fixed capacity.
use vstd::prelude::*;
use vstd::string::StringExecFns;

use crate::text::decimal;
use crate::text::digit;
use crate::text::law_decimal_digits_stand_for_their_number;
use crate::text::number;

verus! {

/// `heapless::String`, a string with a fixed capacity in bytes.
#[verifier::external_type_specification]
#[verifier::external_body]
pub struct ExHeaplessString<const N: usize>(heapless::String<N>);

/// The characters that a status line holds.
pub uninterp spec fn text_of(line: heapless::String<128>) -> Seq<char>;

/// How many bytes a status line can hold.
pub const STATUS_CAPACITY: usize = 128;

/// Whether `piece` can still be added to `text`.
pub open spec fn fits(text: Seq<char>, piece: Seq<char>) -> bool {
    vstd::utf8::encode_utf8(text).len() + vstd::utf8::encode_utf8(piece).len() <= STATUS_CAPACITY
}

/// `heapless::String::new`: the contract claims that the new string is empty.
#[verifier::external_body]
pub(crate) fn new_line() -> (line: heapless::String<128>)
    ensures
        text_of(line) == Seq::<char>::empty(),
{
    heapless::String::new()
}

/// `heapless::String::push_str`: the contract claims that it adds the whole piece where its
/// bytes still fit the capacity, and otherwise fails and adds nothing.
#[verifier::external_body]
pub(crate) fn push_str(line: &mut heapless::String<128>, piece: &str) -> (pushed: bool)
    ensures
        pushed == fits(text_of(*old(line)), piece@),
        text_of(*final(line)) == (if pushed {
            text_of(*old(line)) + piece@
        } else {
            text_of(*old(line))
        }),
{
    line.push_str(piece).is_ok()
}

/// `heapless::String::as_str`: the contract claims that it gives the characters of the string.
#[verifier::external_body]
pub(crate) fn as_str(line: &heapless::String<128>) -> (text: &str)
    ensures
        text@ == text_of(*line),
{
    line.as_str()
}

/// `heapless::String::pop`: the contract claims that it takes the last character away, and
/// changes nothing where there is none.
#[verifier::external_body]
pub(crate) fn pop(line: &mut heapless::String<128>) -> (last: Option<char>)
    ensures
        text_of(*old(line)).len() == 0 ==> last is None && text_of(*final(line)) == text_of(
            *old(line),
        ),
        text_of(*old(line)).len() > 0 ==> last == Some(text_of(*old(line)).last()) && text_of(
            *final(line),
        ) == text_of(*old(line)).drop_last(),
{
    line.pop()
}

/// A formatted write in progress: the line so far, and whether every piece has fitted. The
/// first piece that does not fit ends the write; what was written before it stays.
pub struct Writing {
    pub text: Seq<char>,
    pub ok: bool,
}

impl Writing {
    /// Starts a write at the end of `text`.
    pub open spec fn start(text: Seq<char>) -> Writing {
        Writing { text, ok: true }
    }

    /// Writes one piece.
    pub open spec fn put(self, piece: Seq<char>) -> Writing {
        if self.ok && fits(self.text, piece) {
            Writing { text: self.text + piece, ok: true }
        } else {
            Writing { text: self.text, ok: false }
        }
    }

    /// Writes a number: the sign of a negative one is a piece of its own.
    pub open spec fn put_int(self, value: i32) -> Writing {
        if value < 0 {
            self.put("-"@).put(decimal((-value) as nat))
        } else {
            self.put(decimal(value as nat))
        }
    }
}

/// Continues a write of which `ok` says whether it has gone well so far.
pub(crate) fn put(line: &mut heapless::String<128>, ok: bool, piece: &str) -> (now_ok: bool)
    ensures
        (Writing { text: text_of(*final(line)), ok: now_ok }) == (Writing {
            text: text_of(*old(line)),
            ok,
        }).put(piece@),
{
    ok && push_str(line, piece)
}

fn digit_str(value: u32) -> (s: &'static str)
    requires
        value < 10,
    ensures
        s@ == seq![digit(value as nat)],
{
    proof {
        reveal_strlit("0");
        reveal_strlit("1");
        reveal_strlit("2");
        reveal_strlit("3");
        reveal_strlit("4");
        reveal_strlit("5");
        reveal_strlit("6");
        reveal_strlit("7");
        reveal_strlit("8");
        reveal_strlit("9");
    }
    match value {
        0 => "0",
        1 => "1",
        2 => "2",
        3 => "3",
        4 => "4",
        5 => "5",
        6 => "6",
        7 => "7",
        8 => "8",
        _ => "9",
    }
}

fn push_decimal(out: &mut String, value: u32)
    ensures
        final(out)@ == old(out)@ + decimal(value as nat),
    decreases value,
{
    if value >= 10 {
        push_decimal(out, value / 10);
    }
    out.append(digit_str(value % 10));
    assert(out@ =~= old(out)@ + decimal(value as nat));
}

pub(crate) fn put_int(line: &mut heapless::String<128>, ok: bool, value: i32) -> (now_ok: bool)
    ensures
        (Writing { text: text_of(*final(line)), ok: now_ok }) == (Writing {
            text: text_of(*old(line)),
            ok,
        }).put_int(value),
{
    let signed: bool = if value < 0 {
        put(line, ok, "-")
    } else {
        ok
    };
    let magnitude: u32 = if value < 0 {
        (-(value as i64)) as u32
    } else {
        value as u32
    };
    let mut digits = String::new();
    push_decimal(&mut digits, magnitude);
    assert(digits@ =~= decimal(magnitude as nat));
    put(line, signed, digits.as_str())
}

/// The characters of a number.
pub open spec fn int_text(value: i32) -> Seq<char> {
    if value < 0 {
        "-"@ + decimal((-value) as nat)
    } else {
        decimal(value as nat)
    }
}

proof fn lemma_decimal_is_ascii(value: nat)
    ensures
        vstd::utf8::is_ascii_chars(decimal(value)),
    decreases value,
{
    if value >= 10 {
        lemma_decimal_is_ascii(value / 10);
    }
}

pub(crate) proof fn lemma_int_is_ascii(value: i32)
    ensures
        vstd::utf8::is_ascii_chars(int_text(value)),
{
    reveal_strlit("-");
    lemma_decimal_is_ascii(if value < 0 {
        (-value) as nat
    } else {
        value as nat
    });
}

/// A piece of ASCII characters is written whole where it does not exceed the capacity.
pub(crate) proof fn lemma_put_that_fits(text: Seq<char>, piece: Seq<char>)
    requires
        vstd::utf8::is_ascii_chars(text),
        vstd::utf8::is_ascii_chars(piece),
        text.len() + piece.len() <= STATUS_CAPACITY,
    ensures
        Writing::start(text).put(piece) == Writing::start(text + piece),
        vstd::utf8::is_ascii_chars(text + piece),
{
    vstd::utf8::is_ascii_chars_encode_utf8(text);
    vstd::utf8::is_ascii_chars_encode_utf8(piece);
}

/// A number is written whole where it does not exceed the capacity.
pub(crate) proof fn lemma_put_int_that_fits(text: Seq<char>, value: i32)
    requires
        vstd::utf8::is_ascii_chars(text),
        text.len() + int_text(value).len() <= STATUS_CAPACITY,
    ensures
        Writing::start(text).put_int(value) == Writing::start(text + int_text(value)),
        vstd::utf8::is_ascii_chars(text + int_text(value)),
{
    reveal_strlit("-");
    lemma_int_is_ascii(value);
    if value < 0 {
        let digits = decimal((-value) as nat);
        lemma_decimal_is_ascii((-value) as nat);
        lemma_put_that_fits(text, "-"@);
        lemma_put_that_fits(text + "-"@, digits);
        assert((text + "-"@) + digits =~= text + ("-"@ + digits));
    } else {
        lemma_put_that_fits(text, decimal(value as nat));
    }
}

/// Ten to the power of `exponent`.
spec fn ten_to(exponent: nat) -> nat
    decreases exponent,
{
    if exponent == 0 {
        1
    } else {
        10 * ten_to((exponent - 1) as nat)
    }
}

proof fn lemma_decimal_length(value: nat, length: nat)
    requires
        length >= 1,
        value < ten_to(length),
    ensures
        decimal(value).len() <= length,
    decreases length,
{
    reveal_with_fuel(ten_to, 2);
    if value >= 10 {
        lemma_decimal_length(value / 10, (length - 1) as nat);
    }
}

/// No number takes more than eleven characters.
pub(crate) proof fn lemma_int_length(value: i32)
    ensures
        int_text(value).len() <= 11,
{
    reveal_strlit("-");
    reveal_with_fuel(ten_to, 11);
    lemma_decimal_length(
        if value < 0 {
            (-value) as nat
        } else {
            value as nat
        },
        10,
    );
}

/// A write never takes a line of ASCII characters beyond its capacity.
pub(crate) proof fn lemma_put_stays_within(writing: Writing, piece: Seq<char>)
    requires
        vstd::utf8::is_ascii_chars(writing.text),
        vstd::utf8::is_ascii_chars(piece),
        writing.text.len() <= STATUS_CAPACITY,
    ensures
        vstd::utf8::is_ascii_chars(writing.put(piece).text),
        writing.put(piece).text.len() <= STATUS_CAPACITY,
{
    vstd::utf8::is_ascii_chars_encode_utf8(writing.text);
    vstd::utf8::is_ascii_chars_encode_utf8(piece);
}

pub(crate) proof fn lemma_put_int_stays_within(writing: Writing, value: i32)
    requires
        vstd::utf8::is_ascii_chars(writing.text),
        writing.text.len() <= STATUS_CAPACITY,
    ensures
        vstd::utf8::is_ascii_chars(writing.put_int(value).text),
        writing.put_int(value).text.len() <= STATUS_CAPACITY,
{
    reveal_strlit("-");
    if value < 0 {
        lemma_decimal_is_ascii((-value) as nat);
        lemma_put_stays_within(writing, "-"@);
        lemma_put_stays_within(writing.put("-"@), decimal((-value) as nat));
    } else {
        lemma_decimal_is_ascii(value as nat);
        lemma_put_stays_within(writing, decimal(value as nat));
    }
}

/// A number is written as its sign, where it is negative, and the digits of its magnitude.
pub proof fn law_a_number_is_written_with_its_sign(value: i32)
    ensures
        value >= 0 ==> number(int_text(value)) == value && '0' <= int_text(value)[0] <= '9',
        value < 0 ==> int_text(value)[0] == '-' && number(int_text(value).skip(1)) == -value
            && '0' <= int_text(value)[1] <= '9',
        int_text(value).len() <= 11,
{
    reveal_strlit("-");
    lemma_int_length(value);
    if value < 0 {
        law_decimal_digits_stand_for_their_number((-value) as nat);
        assert(int_text(value).skip(1) =~= decimal((-value) as nat));
        assert(int_text(value)[1] == decimal((-value) as nat)[0]);
    } else {
        law_decimal_digits_stand_for_their_number(value as nat);
    }
}

/// Whether a write has the beginning of `whole`: all of it, or as much of it as fits but for
/// less than eleven characters.
pub(crate) open spec fn is_cut_of(writing: Writing, whole: Seq<char>) -> bool {
    &&& writing.ok ==> writing.text == whole
    &&& writing.text.len() <= whole.len()
    &&& writing.text == whole.take(writing.text.len() as int)
    &&& !writing.ok ==> writing.text.len() + 10 > STATUS_CAPACITY && whole.len() > STATUS_CAPACITY
}

pub(crate) proof fn lemma_put_cuts(writing: Writing, whole: Seq<char>, piece: Seq<char>)
    requires
        is_cut_of(writing, whole),
        vstd::utf8::is_ascii_chars(whole),
        vstd::utf8::is_ascii_chars(piece),
        piece.len() <= 10,
    ensures
        is_cut_of(writing.put(piece), whole + piece),
        vstd::utf8::is_ascii_chars(whole + piece),
{
    assert(writing.ok ==> writing.text =~= whole);
    vstd::utf8::is_ascii_chars_encode_utf8(whole);
    vstd::utf8::is_ascii_chars_encode_utf8(piece);
    let length = writing.text.len() as int;
    assert((whole + piece).take(length) =~= whole.take(length));
    assert((whole + piece).take((whole + piece).len() as int) =~= whole + piece);
}

pub(crate) proof fn lemma_put_int_cuts(writing: Writing, whole: Seq<char>, value: i32)
    requires
        is_cut_of(writing, whole),
        vstd::utf8::is_ascii_chars(whole),
    ensures
        is_cut_of(writing.put_int(value), whole + int_text(value)),
        vstd::utf8::is_ascii_chars(whole + int_text(value)),
{
    reveal_strlit("-");
    lemma_int_length(value);
    if value < 0 {
        let digits = decimal((-value) as nat);
        lemma_decimal_is_ascii((-value) as nat);
        assert(int_text(value).len() == 1 + digits.len());
        lemma_put_cuts(writing, whole, "-"@);
        lemma_put_cuts(writing.put("-"@), whole + "-"@, digits);
        assert((whole + "-"@) + digits =~= whole + int_text(value));
    } else {
        lemma_decimal_is_ascii(value as nat);
        reveal_with_fuel(ten_to, 11);
        lemma_decimal_length(value as nat, 10);
        lemma_put_cuts(writing, whole, decimal(value as nat));
    }
}

} // verus!
