//! The decimal text of unsigned 64-bit integers: how a number is written, how a
//! text is read back, and the proof that reading undoes writing.

use vstd::prelude::*;
use vstd::std_specs::iter::IteratorSpec;

verus! {

/// Why a text is not the decimal form of an unsigned 64-bit integer.
#[derive(Debug, Clone, Copy, PartialEq, Eq, Structural)]
pub enum ParseAmountError {
    /// The text is empty.
    Empty,
    /// A character that is not one of `0` to `9` stands where a digit is due.
    InvalidDigit,
    /// The digits denote a number above `u64::MAX`.
    PosOverflow,
}

impl ParseAmountError {
    /// The reason in words.
    pub open spec fn description_text(self) -> Seq<char> {
        match self {
            ParseAmountError::Empty => "cannot parse integer from empty string"@,
            ParseAmountError::InvalidDigit => "invalid digit found in string"@,
            ParseAmountError::PosOverflow => "number too large to fit in target type"@,
        }
    }

    /// The reason in words.
    pub fn description(&self) -> (r: &'static str)
        ensures
            r@ == self.description_text(),
    {
        match self {
            ParseAmountError::Empty => "cannot parse integer from empty string",
            ParseAmountError::InvalidDigit => "invalid digit found in string",
            ParseAmountError::PosOverflow => "number too large to fit in target type",
        }
    }
}

/// Whether `c` is one of the ten digits `0` to `9`.
pub open spec fn is_digit(c: char) -> bool {
    '0' <= c && c <= '9'
}

/// The number that the digit `c` stands for.
pub open spec fn digit_value(c: char) -> nat {
    (c as int - '0' as int) as nat
}

/// The digit that stands for `d`, for `d` below ten.
pub open spec fn digit_char(d: nat) -> char {
    if d == 0 {
        '0'
    } else if d == 1 {
        '1'
    } else if d == 2 {
        '2'
    } else if d == 3 {
        '3'
    } else if d == 4 {
        '4'
    } else if d == 5 {
        '5'
    } else if d == 6 {
        '6'
    } else if d == 7 {
        '7'
    } else if d == 8 {
        '8'
    } else {
        '9'
    }
}

/// Whether every character of `s` is a digit.
pub open spec fn all_digits(s: Seq<char>) -> bool {
    forall|i: int| 0 <= i < s.len() ==> is_digit(#[trigger] s[i])
}

/// The number that a run of digits denotes in base ten; leading zeros count
/// for nothing and the empty run denotes zero.
pub open spec fn digits_value(s: Seq<char>) -> nat
    decreases s.len(),
{
    if s.len() == 0 {
        0
    } else {
        digits_value(s.drop_last()) * 10 + digit_value(s.last())
    }
}

/// The length of the longest prefix of `s` that is made of digits.
pub open spec fn digit_run(s: Seq<char>) -> nat
    decreases s.len(),
{
    if s.len() > 0 && is_digit(s[0]) {
        1 + digit_run(s.drop_first())
    } else {
        0
    }
}

/// The decimal text of `n`: its base-ten digits, most significant first,
/// without sign, separators or leading zeros; zero is written `0`.
pub open spec fn decimal_text(n: nat) -> Seq<char>
    decreases n,
{
    if n < 10 {
        seq![digit_char(n)]
    } else {
        decimal_text(n / 10).push(digit_char(n % 10))
    }
}

/// What reading `s` as an unsigned 64-bit decimal integer gives. A text is
/// accepted exactly when it is a non-empty run of digits whose value fits in
/// 64 bits. Otherwise the text is read from the left: the digits that lead it
/// overflow, or else a character that is no digit is met.
pub open spec fn parse_u64_spec(s: Seq<char>) -> Result<u64, ParseAmountError> {
    let run = digit_run(s) as int;
    if s.len() == 0 {
        Err(ParseAmountError::Empty)
    } else if digits_value(s.take(run)) > u64::MAX {
        Err(ParseAmountError::PosOverflow)
    } else if run < s.len() {
        Err(ParseAmountError::InvalidDigit)
    } else {
        Ok(digits_value(s) as u64)
    }
}

/// A prefix of digits that ends at the end of the text or before a character
/// that is no digit is the text's leading run of digits.
pub proof fn lemma_digit_run(s: Seq<char>, k: int)
    requires
        0 <= k <= s.len(),
        all_digits(s.take(k)),
        k == s.len() || !is_digit(s[k]),
    ensures
        digit_run(s) == k,
    decreases k,
{
    if k == 0 {
    } else {
        assert(s.take(k)[0] == s[0]);
        let t = s.drop_first();
        assert forall|i: int| 0 <= i < t.take(k - 1).len() implies is_digit(
            #[trigger] t.take(k - 1)[i],
        ) by {
            assert(t.take(k - 1)[i] == s.take(k)[i + 1]);
        }
        lemma_digit_run(t, k - 1);
    }
}

/// The leading run of digits lies within the text and ends at the end of the
/// text or before a character that is no digit.
pub proof fn lemma_digit_run_digits(s: Seq<char>)
    ensures
        digit_run(s) <= s.len(),
        all_digits(s.take(digit_run(s) as int)),
        digit_run(s) == s.len() || !is_digit(s[digit_run(s) as int]),
    decreases s.len(),
{
    if s.len() > 0 && is_digit(s[0]) {
        let t = s.drop_first();
        lemma_digit_run_digits(t);
        let run = digit_run(s) as int;
        assert forall|i: int| 0 <= i < s.take(run).len() implies is_digit(
            #[trigger] s.take(run)[i],
        ) by {
            if i > 0 {
                assert(s.take(run)[i] == t.take(run - 1)[i - 1]);
            }
        }
        if run < s.len() {
            assert(s[run] == t[run - 1]);
        }
    } else {
        assert(s.take(0) =~= Seq::<char>::empty());
    }
}

/// The value of a run of digits does not shrink when the run is extended.
pub proof fn lemma_digits_value_grows(s: Seq<char>, i: int, j: int)
    requires
        0 <= i <= j <= s.len(),
    ensures
        digits_value(s.take(i)) <= digits_value(s.take(j)),
    decreases j - i,
{
    if i < j {
        lemma_digits_value_grows(s, i, j - 1);
        assert(s.take(j).drop_last() =~= s.take(j - 1));
    }
}

/// The decimal text of a number is a non-empty run of digits that denotes the
/// number, and starts with `0` only where the number is zero.
pub proof fn lemma_decimal_text(n: nat)
    ensures
        decimal_text(n).len() >= 1,
        all_digits(decimal_text(n)),
        digits_value(decimal_text(n)) == n,
        decimal_text(n)[0] == '0' <==> n == 0,
        n == 0 ==> decimal_text(n).len() == 1,
    decreases n,
{
    if n < 10 {
        let s = decimal_text(n);
        assert(s.drop_last() =~= Seq::<char>::empty());
        assert(digits_value(s.drop_last()) == 0);
    } else {
        lemma_decimal_text(n / 10);
        let s = decimal_text(n);
        assert(s.drop_last() =~= decimal_text(n / 10));
        assert(s.last() == digit_char(n % 10));
    }
}

/// Reading the decimal text of an unsigned 64-bit integer gives the integer back.
pub proof fn lemma_parse_decimal_text(n: u64)
    ensures
        parse_u64_spec(decimal_text(n as nat)) == Ok::<u64, ParseAmountError>(n),
{
    let s = decimal_text(n as nat);
    lemma_decimal_text(n as nat);
    assert(s.take(s.len() as int) =~= s);
    lemma_digit_run(s, s.len() as int);
}

/// The one-character text of a digit.
fn digit_text(d: u64) -> (r: &'static str)
    requires
        d < 10,
    ensures
        r@ == seq![digit_char(d as nat)],
{
    proof {
        reveal_strlit("0");
        reveal_strlit("1");
        reveal_strlit("2");
        reveal_strlit("3");
        reveal_strlit("4");
        reveal_strlit("5");
        reveal_strlit("6");
        reveal_strlit("7");
        reveal_strlit("8");
        reveal_strlit("9");
    }
    let r = if d == 0 {
        "0"
    } else if d == 1 {
        "1"
    } else if d == 2 {
        "2"
    } else if d == 3 {
        "3"
    } else if d == 4 {
        "4"
    } else if d == 5 {
        "5"
    } else if d == 6 {
        "6"
    } else if d == 7 {
        "7"
    } else if d == 8 {
        "8"
    } else {
        "9"
    };
    assert(r@ =~= seq![digit_char(d as nat)]);
    r
}

/// Appends the decimal text of `n` to `out`.
fn push_decimal(n: u64, out: &mut String)
    ensures
        final(out)@ == old(out)@ + decimal_text(n as nat),
    decreases n,
{
    if n >= 10 {
        push_decimal(n / 10, out);
    }
    let ghost before = out@;
    out.append(digit_text(n % 10));
    proof {
        if n >= 10 {
            assert(before + seq![digit_char((n % 10) as nat)] =~= old(out)@ + decimal_text(
                (n / 10) as nat,
            ).push(digit_char((n % 10) as nat)));
        }
    }
}

/// Writes `n` in decimal.
pub fn format_u64(n: u64) -> (r: String)
    ensures
        r@ == decimal_text(n as nat),
{
    let mut out = String::new();
    push_decimal(n, &mut out);
    assert(out@ =~= decimal_text(n as nat));
    out
}

/// Reads `s` as an unsigned 64-bit decimal integer.
pub fn parse_u64(s: &str) -> (r: Result<u64, ParseAmountError>)
    ensures
        r == parse_u64_spec(s@),
{
    broadcast use vstd::string::group_string_axioms;

    let mut it = s.chars();
    let ghost mut k: int = 0;
    let mut acc: u64 = 0;
    let mut seen: bool = false;
    assert(s@.skip(0) =~= s@);
    loop
        invariant
            it.obeys_prophetic_iter_laws(),
            0 <= k <= s@.len(),
            it.remaining() == s@.skip(k),
            all_digits(s@.take(k)),
            acc == digits_value(s@.take(k)),
            seen == (k > 0),
        decreases s@.len() - k,
    {
        match it.next() {
            None => {
                proof {
                    assert(s@.take(k) =~= s@);
                    lemma_digit_run(s@, k);
                }
                if seen {
                    return Ok(acc);
                } else {
                    return Err(ParseAmountError::Empty);
                }
            },
            Some(c) => {
                assert(c == s@[k]);
                if !('0' <= c && c <= '9') {
                    proof {
                        lemma_digit_run(s@, k);
                    }
                    return Err(ParseAmountError::InvalidDigit);
                }
                let d: u64 = (c as u64) - ('0' as u64);
                proof {
                    assert(s@.take(k + 1).drop_last() =~= s@.take(k));
                    assert(s@.take(k + 1).last() == c);
                    assert(digits_value(s@.take(k + 1)) == acc * 10 + d);
                    assert(s@.skip(k).drop_first() =~= s@.skip(k + 1));
                }
                let next: Option<u64> = match acc.checked_mul(10) {
                    Some(m) => m.checked_add(d),
                    None => None,
                };
                match next {
                    Some(v) => {
                        acc = v;
                    },
                    None => {
                        proof {
                            let run = digit_run(s@) as int;
                            assert(k + 1 <= run) by {
                                if run <= k {
                                    lemma_digit_run_digits(s@);
                                    assert(s@.take(k + 1)[run] == s@[run]);
                                }
                            }
                            lemma_digit_run_digits(s@);
                            lemma_digits_value_grows(s@, k + 1, run);
                        }
                        return Err(ParseAmountError::PosOverflow);
                    },
                }
                proof {
                    assert forall|i: int| 0 <= i < s@.take(k + 1).len() implies is_digit(
                        #[trigger] s@.take(k + 1)[i],
                    ) by {
                        if i < k {
                            assert(s@.take(k + 1)[i] == s@.take(k)[i]);
                        }
                    }
                    k = k + 1;
                }
                seen = true;
            },
        }
    }
}

} // verus!
