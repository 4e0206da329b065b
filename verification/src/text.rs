//! Decimal rendering of unsigned integers, as bytes and as text.
//!
//! Headers of the image formats and the file names of a dataset both print
//! numbers in base ten; everything here is stated over the digit sequence
//! `decimal_digits`, most significant digit first.
use vstd::prelude::*;

verus! {

/// The value of the ASCII digit for `d` (`d < 10`).
pub open spec fn digit_value(d: nat) -> nat {
    48 + d
}

/// Base-ten digits of `n` as ASCII codes, most significant first, with no
/// leading zero (zero itself is the single digit `0`).
pub open spec fn decimal_digits(n: nat) -> Seq<u8>
    decreases n,
{
    if n < 10 {
        seq![digit_value(n) as u8]
    } else {
        decimal_digits(n / 10).push(digit_value(n % 10) as u8)
    }
}

/// The same digits as characters.
pub open spec fn decimal_text(n: nat) -> Seq<char> {
    decimal_digits(n).map_values(|b: u8| b as char)
}

/// `n` in base ten, padded on the left with `0` to at least `width` digits.
pub open spec fn padded_text(n: nat, width: nat) -> Seq<char> {
    let digits = decimal_text(n);
    if digits.len() >= width {
        digits
    } else {
        Seq::new((width - digits.len()) as nat, |i: int| '0') + digits
    }
}

/// Decimal digits are ASCII digit bytes, and there is at least one.
pub proof fn lemma_decimal_digits_are_digits(n: nat)
    ensures
        decimal_digits(n).len() >= 1,
        forall|i: int| 0 <= i < decimal_digits(n).len() ==> 48 <= #[trigger] decimal_digits(n)[i] <= 57,
    decreases n,
{
    if n >= 10 {
        lemma_decimal_digits_are_digits(n / 10);
        let d = decimal_digits(n / 10);
        assert forall|i: int| 0 <= i < decimal_digits(n).len() implies 48
            <= #[trigger] decimal_digits(n)[i] <= 57 by {
            if i < d.len() {
                assert(decimal_digits(n)[i] == d[i]);
            }
        }
    }
}

/// The number a string of ASCII digits spells in base ten (leading zeros
/// allowed).
pub open spec fn text_value(s: Seq<char>) -> int
    decreases s.len(),
{
    if s.len() == 0 {
        0
    } else {
        text_value(s.drop_last()) * 10 + (s.last() as int - 48)
    }
}

/// Decimal text spells the number it was made from.
pub proof fn lemma_decimal_text_value(n: nat)
    ensures
        text_value(decimal_text(n)) == n,
    decreases n,
{
    let d = n % 10;
    let c = (digit_value(d) as u8) as char;
    assert(c as int == 48 + d);
    if n >= 10 {
        lemma_decimal_text_value(n / 10);
        assert(decimal_text(n).drop_last() =~= decimal_text(n / 10));
        assert(decimal_text(n).last() == c);
        assert(n == (n / 10) * 10 + d);
        assert(text_value(decimal_text(n)) == text_value(decimal_text(n / 10)) * 10 + (c as int - 48));
    } else {
        assert(decimal_text(n).drop_last() =~= Seq::<char>::empty());
        assert(text_value(Seq::<char>::empty()) == 0);
        assert(decimal_text(n).last() == c);
        assert(text_value(decimal_text(n)) == text_value(decimal_text(n).drop_last()) * 10 + (c as int - 48));
    }
}

/// Leading zeros do not change the value of a digit string.
proof fn lemma_leading_zeros_value(zeros: Seq<char>, s: Seq<char>)
    requires
        forall|i: int| 0 <= i < zeros.len() ==> zeros[i] == '0',
    ensures
        text_value(zeros + s) == text_value(s),
    decreases s.len(),
{
    if s.len() == 0 {
        lemma_zeros_value(zeros);
        assert(zeros + s =~= zeros);
    } else {
        lemma_leading_zeros_value(zeros, s.drop_last());
        assert((zeros + s).drop_last() =~= zeros + s.drop_last());
    }
}

proof fn lemma_zeros_value(zeros: Seq<char>)
    requires
        forall|i: int| 0 <= i < zeros.len() ==> zeros[i] == '0',
    ensures
        text_value(zeros) == 0,
    decreases zeros.len(),
{
    if zeros.len() > 0 {
        lemma_zeros_value(zeros.drop_last());
    }
}

/// Padded text still spells the number, so distinct numbers never share a
/// padded text.
pub proof fn lemma_padded_text_value(n: nat, width: nat)
    ensures
        text_value(padded_text(n, width)) == n,
{
    lemma_decimal_text_value(n);
    let digits = decimal_text(n);
    if digits.len() < width {
        lemma_leading_zeros_value(Seq::new((width - digits.len()) as nat, |i: int| '0'), digits);
    }
}

/// Appends the base-ten digits of `n` to `out`.
pub fn push_decimal(out: &mut Vec<u8>, n: u64)
    ensures
        final(out)@ == old(out)@ + decimal_digits(n as nat),
    decreases n,
{
    if n >= 10 {
        push_decimal(out, n / 10);
    }
    let ghost before = out@;
    out.push((48 + n % 10) as u8);
    proof {
        if n >= 10 {
            assert(out@ =~= old(out)@ + decimal_digits(n as nat));
        } else {
            assert(out@ =~= old(out)@ + decimal_digits(n as nat));
        }
    }
}

/// The one-character text of the digit `d`.
fn digit_str(d: u64) -> (s: &'static str)
    requires
        d < 10,
    ensures
        s@ == seq![digit_value(d as nat) as u8 as char],
{
    proof {
        reveal_strlit("0");
        reveal_strlit("1");
        reveal_strlit("2");
        reveal_strlit("3");
        reveal_strlit("4");
        reveal_strlit("5");
        reveal_strlit("6");
        reveal_strlit("7");
        reveal_strlit("8");
        reveal_strlit("9");
    }
    match d {
        0 => "0",
        1 => "1",
        2 => "2",
        3 => "3",
        4 => "4",
        5 => "5",
        6 => "6",
        7 => "7",
        8 => "8",
        _ => "9",
    }
}

/// Appends the base-ten text of `n` to `s`.
pub fn append_decimal(s: &mut String, n: u64)
    ensures
        final(s)@ == old(s)@ + decimal_text(n as nat),
    decreases n,
{
    if n >= 10 {
        append_decimal(s, n / 10);
    }
    s.append(digit_str(n % 10));
    proof {
        let dn = decimal_digits(n as nat);
        if n >= 10 {
            assert(dn == decimal_digits((n / 10) as nat).push(digit_value((n % 10) as nat) as u8));
            assert(decimal_text(n as nat) =~= decimal_text((n / 10) as nat).push(
                digit_value((n % 10) as nat) as u8 as char,
            ));
        } else {
            assert(decimal_text(n as nat) =~= seq![digit_value(n as nat) as u8 as char]);
        }
        assert(s@ =~= old(s)@ + decimal_text(n as nat));
    }
}

/// Appends the base-ten text of `n`, padded with `0` to at least `width`
/// characters.
pub fn append_padded_decimal(s: &mut String, n: u64, width: u64)
    ensures
        final(s)@ == old(s)@ + padded_text(n as nat, width as nat),
{
    let mut digits = Vec::new();
    push_decimal(&mut digits, n);
    assert(digits@ =~= decimal_digits(n as nat));
    let len = digits.len() as u64;
    let mut k: u64 = len;
    while k < width
        invariant
            len == decimal_digits(n as nat).len(),
            len <= k <= width || (k == len && width < len),
            s@ == old(s)@ + Seq::new((k - len) as nat, |i: int| '0'),
        decreases width - k,
    {
        proof {
            reveal_strlit("0");
        }
        s.append("0");
        assert(s@ =~= old(s)@ + Seq::new((k + 1 - len) as nat, |i: int| '0'));
        k = k + 1;
    }
    let ghost zeros = s@;
    append_decimal(s, n);
    proof {
        let digits_text = decimal_text(n as nat);
        if len >= width {
            assert(zeros =~= old(s)@);
            assert(padded_text(n as nat, width as nat) == digits_text);
        } else {
            assert(k == width);
            assert(padded_text(n as nat, width as nat) == Seq::new(
                (width - len) as nat,
                |i: int| '0',
            ) + digits_text);
        }
        assert(s@ =~= old(s)@ + padded_text(n as nat, width as nat));
    }
}

} // verus!
