//! Numbers as text.

use vstd::prelude::*;

verus! {

/// The digits, each at its value.
pub open spec fn digits() -> Seq<char> {
    "0123456789abcdef"@
}

/// `n` written to a base, without leading zeros.
pub open spec fn numeral(n: nat, base: nat) -> Seq<char>
    decreases n,
{
    if n < base || base < 2 {
        seq![digits()[n as int]]
    } else {
        proof {
            vstd::arithmetic::div_mod::lemma_div_decreases(n as int, base as int);
        }
        numeral(n / base, base).push(digits()[(n % base) as int])
    }
}

/// `n` in decimal.
pub open spec fn decimal(n: nat) -> Seq<char> {
    numeral(n, 10)
}

/// `n` in hexadecimal, with its prefix.
pub open spec fn hexadecimal(n: nat) -> Seq<char> {
    "0x"@ + numeral(n, 16)
}

fn digit(d: usize) -> (r: &'static str)
    requires
        d < 16,
    ensures
        r@ == seq![digits()[d as int]],
{
    let all: &'static str = "0123456789abcdef";
    proof {
        reveal_strlit("0123456789abcdef");
    }
    let r: &'static str = all.substring_ascii(d, d + 1);
    assert(r@ =~= seq![digits()[d as int]]);
    r
}

fn write_numeral(n: u64, base: u64) -> (r: String)
    requires
        2 <= base <= 16,
    ensures
        r@ == numeral(n as nat, base as nat),
    decreases n,
{
    if n < base {
        digit(n as usize).to_owned()
    } else {
        assert(n / base < n) by (nonlinear_arith)
            requires
                n >= base,
                base >= 2,
        ;
        assert(n % base < base) by (nonlinear_arith)
            requires
                base >= 2,
        ;
        let mut r: String = write_numeral(n / base, base);
        r.append(digit((n % base) as usize));
        assert(r@ =~= numeral(n as nat, base as nat));
        r
    }
}

/// Appends `n` in decimal.
pub(crate) fn append_decimal(s: &mut String, n: usize)
    ensures
        final(s)@ == old(s)@ + decimal(n as nat),
{
    let digits: String = write_numeral(n as u64, 10);
    s.append(digits.as_str());
}

/// Appends `n` in hexadecimal, with its prefix.
pub(crate) fn append_hexadecimal(s: &mut String, n: u64)
    ensures
        final(s)@ == old(s)@ + hexadecimal(n as nat),
{
    let digits: String = write_numeral(n, 16);
    s.append("0x");
    s.append(digits.as_str());
    assert(s@ =~= old(s)@ + hexadecimal(n as nat));
}

/// The value of a digit, if it is one.
pub open spec fn digit_value(c: char) -> int {
    if '0' <= c <= '9' {
        c as int - '0' as int
    } else if 'a' <= c <= 'f' {
        c as int - 'a' as int + 10
    } else {
        -1
    }
}

/// The number that a row of digits stands for.
pub open spec fn value(text: Seq<char>, base: nat) -> int
    decreases text.len(),
{
    if text.len() == 0 {
        0
    } else {
        value(text.drop_last(), base) * base + digit_value(text.last())
    }
}

/// A number is written in digits of its base that stand for it, without a leading zero.
pub proof fn numeral_stands_for_its_number(n: nat, base: nat)
    requires
        2 <= base <= 16,
    ensures
        value(numeral(n, base), base) == n,
        numeral(n, base).len() >= 1,
        numeral(n, base).len() > 1 ==> digit_value(numeral(n, base)[0]) != 0,
        n > 0 ==> digit_value(numeral(n, base)[0]) != 0,
        forall|i: int|
            0 <= i < numeral(n, base).len() ==> 0 <= digit_value(#[trigger] numeral(n, base)[i])
                < base,
    decreases n,
{
    reveal_strlit("0123456789abcdef");
    let text = numeral(n, base);
    if n < base {
        assert(text.drop_last() =~= Seq::empty());
        assert(value(text.drop_last(), base) == 0);
        assert(0 * base == 0) by (nonlinear_arith);
        assert(digit_value(digits()[n as int]) == n);
    } else {
        vstd::arithmetic::div_mod::lemma_div_decreases(n as int, base as int);
        vstd::arithmetic::div_mod::lemma_fundamental_div_mod(n as int, base as int);
        assert(0 < n / base && n % base < base) by (nonlinear_arith)
            requires
                n >= base,
                base >= 2,
        ;
        numeral_stands_for_its_number(n / base, base);
        let front = numeral(n / base, base);
        assert(text.drop_last() =~= front);
        assert(digit_value(digits()[(n % base) as int]) == n % base);
        assert((n / base) * base == base * (n / base)) by (nonlinear_arith);
        assert forall|i: int| 0 <= i < text.len() implies 0 <= digit_value(#[trigger] text[i])
            < base by {
            if i < front.len() {
                assert(text[i] == front[i]);
            }
        }
        assert(text[0] == front[0]);
    }
}

/// Numbers are told in decimal, and in hexadecimal behind the prefix 0x.
pub proof fn numbers_are_told_by_their_digits(n: nat)
    ensures
        value(decimal(n), 10) == n,
        hexadecimal(n).len() > 2,
        hexadecimal(n)[0] == '0',
        hexadecimal(n)[1] == 'x',
        value(hexadecimal(n).skip(2), 16) == n,
{
    reveal_strlit("0x");
    numeral_stands_for_its_number(n, 10);
    numeral_stands_for_its_number(n, 16);
    assert(hexadecimal(n).skip(2) =~= numeral(n, 16));
}

} // verus!
