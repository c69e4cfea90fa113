//! ASCII text as bytes: case folding, comparison and decimal numerals.

use vstd::prelude::*;

verus! {

/// The byte `+`, which may lead a numeral.
pub const PLUS_SIGN: u8 = 43;

/// The byte `0`; the ten digits follow it in order.
pub const DIGIT_ZERO: u8 = 48;

/// True for the bytes `A` to `Z`.
pub open spec fn is_upper(b: u8) -> bool {
    65 <= b <= 90
}

/// The lower-case form of an ASCII letter; any other byte is left as it is.
pub open spec fn to_lower(b: u8) -> u8 {
    if is_upper(b) {
        (b + 32) as u8
    } else {
        b
    }
}

/// The sequence with every ASCII letter in lower case.
pub open spec fn lowered(s: Seq<u8>) -> Seq<u8> {
    Seq::new(s.len(), |i: int| to_lower(s[i]))
}

/// Equality of two byte strings up to the case of ASCII letters.
pub open spec fn same_ignoring_case(a: Seq<u8>, b: Seq<u8>) -> bool {
    lowered(a) == lowered(b)
}

/// True for the bytes `0` to `9`.
pub open spec fn is_digit(b: u8) -> bool {
    DIGIT_ZERO <= b <= DIGIT_ZERO + 9
}

/// True when every byte is a decimal digit.
pub open spec fn all_digits(s: Seq<u8>) -> bool {
    forall|i: int| 0 <= i < s.len() ==> is_digit(#[trigger] s[i])
}

/// The number that a string of decimal digits denotes, most significant digit first.
pub open spec fn decimal_value(s: Seq<u8>) -> nat
    decreases s.len(),
{
    if s.len() == 0 {
        0
    } else {
        decimal_value(s.drop_last()) * 10 + (s.last() - DIGIT_ZERO) as nat
    }
}

/// The digits of a numeral: the text without one leading `+`, if it has one.
pub open spec fn numeral_digits(s: Seq<u8>) -> Seq<u8> {
    if s.len() > 0 && s[0] == PLUS_SIGN {
        s.drop_first()
    } else {
        s
    }
}

/// True when the text is a non-negative decimal numeral: an optional `+`
/// followed by one or more digits.
pub open spec fn is_numeral(s: Seq<u8>) -> bool {
    numeral_digits(s).len() > 0 && all_digits(numeral_digits(s))
}

/// The number that a numeral denotes.
pub open spec fn numeral_value(s: Seq<u8>) -> nat {
    decimal_value(numeral_digits(s))
}

/// What reading a numeral against an upper limit gives.
#[derive(Debug, Clone, Copy, PartialEq, Eq, Structural)]
pub enum Numeral {
    /// The text is no numeral.
    Malformed,
    /// The text is a numeral and denotes a number above the limit.
    AboveLimit,
    /// The text is a numeral and denotes this number, which is within the limit.
    Within(u8),
}

/// The reading of a text as a numeral that may not be above `limit`.
pub open spec fn numeral_within(s: Seq<u8>, limit: u8) -> Numeral {
    if !is_numeral(s) {
        Numeral::Malformed
    } else if numeral_value(s) > limit {
        Numeral::AboveLimit
    } else {
        Numeral::Within(numeral_value(s) as u8)
    }
}

/// Appending one digit multiplies the value by ten and adds the digit.
pub proof fn lemma_decimal_value_step(s: Seq<u8>, n: int)
    requires
        0 <= n < s.len(),
    ensures
        decimal_value(s.subrange(0, n + 1)) == decimal_value(s.subrange(0, n)) * 10 + (s[n]
            - DIGIT_ZERO) as nat,
{
    assert(s.subrange(0, n + 1).drop_last() =~= s.subrange(0, n));
}

/// The place of the first `b` in `s`, or the length of `s` where it holds none.
pub open spec fn first_index(s: Seq<u8>, b: u8) -> int
    decreases s.len(),
{
    if s.len() == 0 || s[0] == b {
        0
    } else {
        1 + first_index(s.drop_first(), b)
    }
}

/// `first_index` is the one place before which no `b` stands and at which
/// either a `b` stands or the sequence ends.
pub proof fn lemma_first_index(s: Seq<u8>, b: u8, i: int)
    requires
        0 <= i <= s.len(),
        forall|j: int| 0 <= j < i ==> s[j] != b,
        i < s.len() ==> s[i] == b,
    ensures
        first_index(s, b) == i,
    decreases s.len(),
{
    if i > 0 {
        lemma_first_index(s.drop_first(), b, i - 1);
    }
}

/// `first_index` lies within the sequence or at its end, no `b` stands before
/// it, and a `b` stands at it unless it is the end.
pub proof fn lemma_first_index_bounds(s: Seq<u8>, b: u8)
    ensures
        0 <= first_index(s, b) <= s.len(),
        forall|j: int| 0 <= j < first_index(s, b) ==> s[j] != b,
        first_index(s, b) < s.len() ==> s[first_index(s, b)] == b,
    decreases s.len(),
{
    if s.len() == 0 || s[0] == b {
    } else {
        let rest = s.drop_first();
        lemma_first_index_bounds(rest, b);
        assert forall|j: int| 0 <= j < first_index(s, b) implies s[j] != b by {
            if j > 0 {
                assert(s[j] == rest[j - 1]);
            }
        }
    }
}

/// Finds the first `b` in `s`.
pub fn find_byte(s: &[u8], b: u8) -> (r: Option<usize>)
    ensures
        match r {
            Some(i) => i < s@.len() && i == first_index(s@, b),
            None => first_index(s@, b) == s@.len(),
        },
{
    let mut i: usize = 0;
    while i < s.len()
        invariant
            0 <= i <= s.len(),
            forall|j: int| 0 <= j < i ==> s@[j] != b,
        decreases s.len() - i,
    {
        if s[i] == b {
            proof {
                lemma_first_index(s@, b, i as int);
            }
            return Some(i);
        }
        i += 1;
    }
    proof {
        lemma_first_index(s@, b, i as int);
    }
    None
}

/// Compares two byte strings for equality.
pub fn bytes_equal(a: &[u8], b: &[u8]) -> (r: bool)
    ensures
        r == (a@ == b@),
{
    if a.len() != b.len() {
        return false;
    }
    let mut i: usize = 0;
    while i < a.len()
        invariant
            a.len() == b.len(),
            0 <= i <= a.len(),
            forall|j: int| 0 <= j < i ==> a@[j] == b@[j],
        decreases a.len() - i,
    {
        if a[i] != b[i] {
            return false;
        }
        i += 1;
    }
    assert(a@ =~= b@);
    true
}

/// Folds one byte to lower case.
pub fn lower(b: u8) -> (r: u8)
    ensures
        r == to_lower(b),
{
    if 65 <= b && b <= 90 {
        b + 32
    } else {
        b
    }
}

/// Compares two byte strings, taking an ASCII letter and its other case as equal.
pub fn equal_ignoring_case(a: &[u8], b: &[u8]) -> (r: bool)
    ensures
        r == same_ignoring_case(a@, b@),
{
    if a.len() != b.len() {
        assert(lowered(a@).len() != lowered(b@).len());
        return false;
    }
    let mut i: usize = 0;
    while i < a.len()
        invariant
            a.len() == b.len(),
            0 <= i <= a.len(),
            forall|j: int| 0 <= j < i ==> to_lower(a@[j]) == to_lower(b@[j]),
        decreases a.len() - i,
    {
        if lower(a[i]) != lower(b[i]) {
            assert(lowered(a@)[i as int] != lowered(b@)[i as int]);
            return false;
        }
        i += 1;
    }
    assert(lowered(a@) =~= lowered(b@));
    true
}

/// Reads a non-negative decimal numeral and holds it against `limit`.
///
/// Leading zeros are accepted, and so is one leading `+`. Digits beyond the
/// range of the machine's integers are no obstacle: such a numeral is above
/// the limit.
pub fn read_numeral(text: &[u8], limit: u8) -> (r: Numeral)
    ensures
        r == numeral_within(text@, limit),
{
    let start: usize = if text.len() > 0 && text[0] == PLUS_SIGN {
        1
    } else {
        0
    };
    if start == text.len() {
        return Numeral::Malformed;
    }
    let ghost digits = numeral_digits(text@);
    let mut value: u8 = 0;
    let mut above: bool = false;
    let mut i: usize = start;
    while i < text.len()
        invariant
            start <= i <= text.len(),
            digits == numeral_digits(text@),
            digits == text@.subrange(start as int, text.len() as int),
            all_digits(digits.subrange(0, i - start)),
            above ==> decimal_value(digits.subrange(0, i - start)) > limit,
            !above ==> decimal_value(digits.subrange(0, i - start)) == value,
            !above ==> value <= limit,
        decreases text.len() - i,
    {
        let b: u8 = text[i];
        if b < DIGIT_ZERO || b > DIGIT_ZERO + 9 {
            assert(digits[i - start] == b);
            return Numeral::Malformed;
        }
        proof {
            lemma_decimal_value_step(digits, i - start);
            assert forall|j: int| 0 <= j < i + 1 - start implies is_digit(
                #[trigger] digits.subrange(0, i + 1 - start)[j],
            ) by {
                if j < i - start {
                    assert(digits.subrange(0, i + 1 - start)[j] == digits.subrange(
                        0,
                        i - start,
                    )[j]);
                }
            }
        }
        if !above {
            let next: u16 = value as u16 * 10 + (b - DIGIT_ZERO) as u16;
            if next > limit as u16 {
                above = true;
            } else {
                value = next as u8;
            }
        } else {
            assert(decimal_value(digits.subrange(0, i + 1 - start)) > limit) by (nonlinear_arith)
                requires
                    decimal_value(digits.subrange(0, i + 1 - start)) == decimal_value(
                        digits.subrange(0, i - start),
                    ) * 10 + (b - DIGIT_ZERO) as nat,
                    decimal_value(digits.subrange(0, i - start)) > limit,
                    b >= DIGIT_ZERO,
            ;
        }
        i += 1;
    }
    assert(digits.subrange(0, text.len() - start) =~= digits);
    if above {
        Numeral::AboveLimit
    } else {
        Numeral::Within(value)
    }
}

} // verus!
