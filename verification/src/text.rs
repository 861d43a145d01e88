//! Numbers and suffixes in text.
use vstd::prelude::*;
use vstd::string::StrSliceExecFns;

verus! {

/// The character of a decimal digit.
pub open spec fn digit(value: nat) -> char {
    (48 + value) as char
}

/// The decimal digits of a number, without leading zeros.
pub open spec fn decimal(value: nat) -> Seq<char>
    decreases value,
{
    if value < 10 {
        seq![digit(value)]
    } else {
        decimal(value / 10).push(digit(value % 10))
    }
}

/// The number that decimal digits stand for.
pub open spec fn number(digits: Seq<char>) -> int
    decreases digits.len(),
{
    if digits.len() == 0 {
        0
    } else {
        10 * number(digits.drop_last()) + (digits.last() as int - 48)
    }
}

/// Whether a text ends with another.
pub open spec fn is_suffix(suffix: Seq<char>, text: Seq<char>) -> bool {
    suffix.len() <= text.len() && text.skip(text.len() - suffix.len()) == suffix
}

/// Whether two texts are the same.
pub fn same_text(text: &str, other: &str) -> (same: bool)
    ensures
        same == (text@ == other@),
{
    proof {
        assert(text@.skip(0) =~= text@);
    }
    text.unicode_len() == other.unicode_len() && ends_with(text, other)
}

/// Whether a text ends with another.
pub fn ends_with(text: &str, suffix: &str) -> (ends: bool)
    ensures
        ends == is_suffix(suffix@, text@),
{
    let len: usize = text.unicode_len();
    let suffix_len: usize = suffix.unicode_len();
    if suffix_len > len {
        return false;
    }
    let start: usize = len - suffix_len;
    let mut i: usize = 0;
    while i < suffix_len
        invariant
            i <= suffix_len,
            suffix_len == suffix@.len(),
            len == text@.len(),
            start + suffix_len == len,
            forall|k: int| 0 <= k < i ==> text@[start + k] == #[trigger] suffix@[k],
        decreases suffix_len - i,
    {
        if text.get_char(start + i) != suffix.get_char(i) {
            assert(text@.skip(start as int)[i as int] != suffix@[i as int]);
            return false;
        }
        i += 1;
    }
    assert(text@.skip(start as int) =~= suffix@);
    true
}

// ---------------------------------------------------------------------------
// Laws
// ---------------------------------------------------------------------------

/// The decimal digits of a number stand for that number. They are digits, at least one, and
/// the first one is no zero but in the number zero.
pub proof fn law_decimal_digits_stand_for_their_number(value: nat)
    ensures
        number(decimal(value)) == value,
        decimal(value).len() > 0,
        forall|i: int| 0 <= i < decimal(value).len() ==> '0' <= #[trigger] decimal(value)[i] <= '9',
        value > 0 ==> decimal(value)[0] != '0',
        value < 10 ==> decimal(value).len() == 1,
    decreases value,
{
    reveal_with_fuel(number, 2);
    if value < 10 {
        assert(decimal(value).drop_last() =~= Seq::empty());
    } else {
        law_decimal_digits_stand_for_their_number(value / 10);
        assert(decimal(value).drop_last() =~= decimal(value / 10));
    }
}

/// A text ends with its own end, whatever stands before it, and with nothing else of that
/// length.
pub proof fn law_a_text_ends_with_its_end(stem: Seq<char>, suffix: Seq<char>, other: Seq<char>)
    ensures
        is_suffix(suffix, stem + suffix),
        other.len() == suffix.len() && is_suffix(other, stem + suffix) ==> other == suffix,
        other.len() > stem.len() + suffix.len() ==> !is_suffix(other, stem + suffix),
{
    assert((stem + suffix).skip(stem.len() as int) =~= suffix);
}

} // verus!
