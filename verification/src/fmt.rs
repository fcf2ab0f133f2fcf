//! Verified decimal digit formatting.
//!
//! The table rows print numbers in fixed layouts: zero-padded keys, two-digit
//! money fractions, calendar fields.  This module builds those digit strings
//! and proves the result is exactly the decimal numeral of the value, padded
//! to the requested width.

use vstd::prelude::*;
use vstd::string::StringExecFns;

verus! {

/// The character for decimal digit `d`.
pub open spec fn digit_char(d: nat) -> char {
    if d == 0 {
        '0'
    } else if d == 1 {
        '1'
    } else if d == 2 {
        '2'
    } else if d == 3 {
        '3'
    } else if d == 4 {
        '4'
    } else if d == 5 {
        '5'
    } else if d == 6 {
        '6'
    } else if d == 7 {
        '7'
    } else if d == 8 {
        '8'
    } else {
        '9'
    }
}

/// The decimal numeral of `v`, most significant digit first.
pub open spec fn spec_digits(v: nat) -> Seq<char>
    decreases v,
{
    if v < 10 {
        seq![digit_char(v)]
    } else {
        spec_digits(v / 10).push(digit_char(v % 10))
    }
}

/// The numeral of `v`, zero-padded on the left to at least `width` characters.
pub open spec fn spec_padded(v: nat, width: nat) -> Seq<char> {
    if spec_digits(v).len() >= width {
        spec_digits(v)
    } else {
        Seq::new((width - spec_digits(v).len()) as nat, |i: int| '0') + spec_digits(v)
    }
}

/// The one-character string for decimal digit `d`.
fn digit_str(d: u64) -> (r: &'static str)
    requires
        d < 10,
    ensures
        r@ =~= seq![digit_char(d as nat)],
{
    proof {
        reveal_strlit("0");
        reveal_strlit("1");
        reveal_strlit("2");
        reveal_strlit("3");
        reveal_strlit("4");
        reveal_strlit("5");
        reveal_strlit("6");
        reveal_strlit("7");
        reveal_strlit("8");
        reveal_strlit("9");
    }
    if d == 0 {
        "0"
    } else if d == 1 {
        "1"
    } else if d == 2 {
        "2"
    } else if d == 3 {
        "3"
    } else if d == 4 {
        "4"
    } else if d == 5 {
        "5"
    } else if d == 6 {
        "6"
    } else if d == 7 {
        "7"
    } else if d == 8 {
        "8"
    } else {
        "9"
    }
}

/// Appends the decimal numeral of `v` to `out`.
pub fn push_digits(out: &mut String, v: u64)
    ensures
        final(out)@ == old(out)@ + spec_digits(v as nat),
    decreases v,
{
    if v >= 10 {
        push_digits(out, v / 10);
        out.append(digit_str(v % 10));
        proof {
            assert(out@ =~= old(out)@ + spec_digits(v as nat));
        }
    } else {
        out.append(digit_str(v));
        proof {
            assert(out@ =~= old(out)@ + spec_digits(v as nat));
        }
    }
}

/// The number of digits in the numeral of `v`.
pub fn count_digits(v: u64) -> (r: u64)
    ensures
        r == spec_digits(v as nat).len(),
        1 <= r <= 20,
{
    proof {
        lemma_digits_len_le(v as nat, 20);
    }
    let mut x = v;
    let mut d: u64 = 1;
    while x >= 10
        invariant
            d + spec_digits(x as nat).len() == 1 + spec_digits(v as nat).len(),
            spec_digits(v as nat).len() <= 20,
            d >= 1,
        decreases x,
    {
        proof {
            lemma_digits_len(x as nat);
            lemma_digits_len((x / 10) as nat);
        }
        x = x / 10;
        d = d + 1;
    }
    proof {
        lemma_digits_len(v as nat);
    }
    d
}

/// A numeral has at least one digit, and one more than its quotient by ten.
pub proof fn lemma_digits_len(v: nat)
    ensures
        1 <= spec_digits(v).len(),
        v >= 10 ==> spec_digits(v).len() == 1 + spec_digits(v / 10).len(),
    decreases v,
{
    if v >= 10 {
        lemma_digits_len(v / 10);
    }
}

/// Powers of ten.
pub open spec fn pow10(k: nat) -> nat
    decreases k,
{
    if k == 0 {
        1
    } else {
        10 * pow10((k - 1) as nat)
    }
}

/// A value below the `k`-th power of ten has at most `k` digits.
pub proof fn lemma_digits_below_pow10(v: nat, k: nat)
    requires
        k >= 1,
        v < pow10(k),
    ensures
        spec_digits(v).len() <= k,
    decreases k,
{
    if v >= 10 {
        assert(pow10(k) == 10 * pow10((k - 1) as nat));
        vstd::arithmetic::div_mod::lemma_multiply_divide_lt(
            v as int,
            pow10((k - 1) as nat) as int,
            10,
        );
        lemma_digits_below_pow10(v / 10, (k - 1) as nat);
    }
}

/// A 64-bit value has at most twenty digits.
pub proof fn lemma_digits_len_le(v: nat, k: nat)
    requires
        v < 0x1_0000_0000_0000_0000,
        k == 20,
    ensures
        spec_digits(v).len() <= k,
{
    reveal_with_fuel(pow10, 21);
    assert(pow10(20) == 100000000000000000000);
    lemma_digits_below_pow10(v, 20);
}

/// Appends the numeral of `v`, zero-padded on the left to at least `width`
/// characters.
pub fn push_padded(out: &mut String, v: u64, width: u64)
    requires
        width <= 100,
    ensures
        final(out)@ == old(out)@ + spec_padded(v as nat, width as nat),
{
    let nd = count_digits(v);
    let mut p = nd;
    proof {
        reveal_strlit("0");
        assert(out@ =~= old(out)@ + Seq::new(0, |i: int| '0'));
    }
    while p < width
        invariant
            nd == spec_digits(v as nat).len(),
            nd <= p,
            p <= width || p == nd,
            out@ == old(out)@ + Seq::new((p - nd) as nat, |i: int| '0'),
        decreases width - p,
    {
        out.append("0");
        p = p + 1;
        proof {
            reveal_strlit("0");
            assert(out@ =~= old(out)@ + Seq::new((p - nd) as nat, |i: int| '0'));
        }
    }
    push_digits(out, v);
    proof {
        if spec_digits(v as nat).len() >= width {
            assert(out@ =~= old(out)@ + spec_padded(v as nat, width as nat));
        } else {
            assert(out@ =~= old(out)@ + spec_padded(v as nat, width as nat));
        }
    }
}

} // verus!
