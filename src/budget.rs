//! Reading a budget from a line of input: a non-negative decimal integer,
//! optionally preceded by `+`, that fits in `usize`. Anything else is
//! rejected, never coerced.
use vstd::prelude::*;

verus! {

/// Why a budget text was rejected.
#[derive(Clone, Copy, Debug, PartialEq, Eq, Structural)]
pub enum BudgetError {
    /// Nothing was given.
    Empty,
    /// A character other than a decimal digit (after an optional leading
    /// `+`), or a `+` with no digits after it.
    InvalidDigit,
    /// The digits denote a number larger than `usize::MAX`.
    Overflow,
}

/// Whether a character is one of the ASCII digits `0` to `9`.
pub open spec fn is_decimal_digit(c: char) -> bool {
    '0' <= c && c <= '9'
}

/// The value of a string of decimal digits, most significant first.
pub open spec fn digits_value(s: Seq<char>) -> nat
    decreases s.len(),
{
    if s.len() == 0 {
        0
    } else {
        digits_value(s.drop_last()) * 10 + (s.last() as nat - '0' as nat) as nat
    }
}

/// Where the digits of a budget text start: after a leading `+`, if any.
pub open spec fn digits_start(s: Seq<char>) -> int {
    if s.len() > 0 && s[0] == '+' {
        1
    } else {
        0
    }
}

/// The digits of a budget text: the text without its leading `+`, if any.
pub open spec fn budget_digits(s: Seq<char>) -> Seq<char> {
    s.subrange(digits_start(s), s.len() as int)
}

/// What a budget text denotes.
pub open spec fn budget_of(s: Seq<char>) -> Result<usize, BudgetError> {
    let d = budget_digits(s);
    if s.len() == 0 {
        Err(BudgetError::Empty)
    } else if d.len() == 0 || exists|i: int| 0 <= i < d.len() && !is_decimal_digit(#[trigger] d[i]) {
        Err(BudgetError::InvalidDigit)
    } else if digits_value(d) > usize::MAX {
        Err(BudgetError::Overflow)
    } else {
        Ok(digits_value(d) as usize)
    }
}

/// A text holding a character that is neither a decimal digit nor a
/// leading `+` (such as `-5` or `abc`) is rejected, never read as a budget.
pub proof fn lemma_non_digit_rejected(s: Seq<char>, i: int)
    requires
        0 <= i < s.len(),
        !is_decimal_digit(s[i]),
        !(i == 0 && s[i] == '+'),
    ensures
        budget_of(s) is Err,
{
    let d = budget_digits(s);
    let k = i - digits_start(s);
    assert(0 <= k < d.len());
    assert(d[k] == s[i]);
}

/// The text of a line with leading and trailing white space removed.
pub uninterp spec fn trim_of(s: Seq<char>) -> Seq<char>;

/// Relies on `str::trim`: the result depends on the text alone.
#[verifier::external_body]
fn trim_line(line: &str) -> (r: &str)
    ensures
        r@ == trim_of(line@),
{
    line.trim()
}

/// The value of a prefix of digits never exceeds the value of the whole.
proof fn lemma_prefix_value_le(s: Seq<char>, k: int)
    requires
        0 <= k <= s.len(),
    ensures
        digits_value(s.take(k)) <= digits_value(s),
    decreases s.len(),
{
    if k < s.len() {
        assert(s.drop_last().take(k) =~= s.take(k));
        lemma_prefix_value_le(s.drop_last(), k);
    } else {
        assert(s.take(k) =~= s);
    }
}

/// Reads a budget from a text that holds nothing else (no surrounding
/// white space).
pub fn parse_budget_text(text: &str) -> (r: Result<usize, BudgetError>)
    ensures
        r == budget_of(text@),
{
    let ghost s = text@;
    let n = text.unicode_len();
    if n == 0 {
        return Err(BudgetError::Empty);
    }
    let start: usize = if text.get_char(0) == '+' {
        1
    } else {
        0
    };
    let ghost d = budget_digits(s);
    assert(start as int == digits_start(s));
    if start == n {
        return Err(BudgetError::InvalidDigit);
    }
    let mut i: usize = start;
    while i < n
        invariant
            s == text@,
            n == s.len(),
            d == s.subrange(start as int, n as int),
            d == budget_digits(s),
            start <= i <= n,
            forall|j: int| 0 <= j < i - start ==> is_decimal_digit(#[trigger] d[j]),
        decreases n - i,
    {
        let c = text.get_char(i);
        if !('0' <= c && c <= '9') {
            assert(!is_decimal_digit(d[i - start]));
            return Err(BudgetError::InvalidDigit);
        }
        i = i + 1;
    }
    let mut value: usize = 0;
    let mut i: usize = start;
    while i < n
        invariant
            s == text@,
            n == s.len(),
            d == s.subrange(start as int, n as int),
            d == budget_digits(s),
            start < n,
            start <= i <= n,
            forall|j: int| 0 <= j < d.len() ==> is_decimal_digit(#[trigger] d[j]),
            value as nat == digits_value(d.take(i - start)),
        decreases n - i,
    {
        let c = text.get_char(i);
        let ghost k = i - start;
        assert(d[k] == c);
        let digit = (c as u32 - '0' as u32) as usize;
        assert(d.take(k + 1).drop_last() =~= d.take(k));
        assert(d.take(k + 1).last() == c);
        assert(digits_value(d.take(k + 1)) == value * 10 + digit);
        match value.checked_mul(10) {
            Some(tens) => match tens.checked_add(digit) {
                Some(next) => {
                    value = next;
                },
                None => {
                    proof {
                        lemma_prefix_value_le(d, k + 1);
                    }
                    return Err(BudgetError::Overflow);
                },
            },
            None => {
                proof {
                    lemma_prefix_value_le(d, k + 1);
                }
                return Err(BudgetError::Overflow);
            },
        }
        i = i + 1;
    }
    assert(d.take(n - start) =~= d);
    Ok(value)
}

/// Reads a budget from a line of input: white space around the number is
/// ignored, anything else that is not a budget is an error.
pub fn parse_budget(line: &str) -> (r: Result<usize, BudgetError>)
    ensures
        r == budget_of(trim_of(line@)),
{
    parse_budget_text(trim_line(line))
}

} // verus!
