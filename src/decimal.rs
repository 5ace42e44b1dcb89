//! Decimal spelling of unsigned integers, as used in slot names and ids.
use vstd::prelude::*;

verus! {

/// The ten decimal digit characters, in order of value.
pub open spec fn digit_char(d: nat) -> char {
    "0123456789"@[d as int]
}

/// The base-ten spelling of `n`, most significant digit first, with no
/// leading zeros (zero itself is spelled "0").
pub open spec fn dec(n: nat) -> Seq<char>
    decreases n,
{
    if n < 10 {
        seq![digit_char(n)]
    } else {
        dec(n / 10).push(digit_char(n % 10))
    }
}

/// Every spelling has at least one character; numbers of two or more digits
/// have at least two.
pub proof fn lemma_dec_len(n: nat)
    ensures
        dec(n).len() >= 1,
        n >= 10 ==> dec(n).len() >= 2,
    decreases n,
{
    if n >= 10 {
        lemma_dec_len(n / 10);
    }
}

/// Distinct numbers are spelled differently.
pub proof fn lemma_dec_injective(a: nat, b: nat)
    requires
        a != b,
    ensures
        dec(a) != dec(b),
    decreases a + b,
{
    reveal_strlit("0123456789");
    lemma_dec_len(a);
    lemma_dec_len(b);
    if a >= 10 && b >= 10 {
        if a % 10 != b % 10 {
            assert(dec(a).last() != dec(b).last());
        } else {
            assert(a / 10 != b / 10);
            lemma_dec_injective(a / 10, b / 10);
            if dec(a) == dec(b) {
                assert(dec(a / 10) == dec(a).drop_last());
                assert(dec(b / 10) == dec(b).drop_last());
            }
        }
    } else if a < 10 && b < 10 {
        assert(dec(a)[0] != dec(b)[0]);
    }
}

/// Appends the decimal spelling of `n` to `s`.
pub fn push_decimal(s: &mut String, n: usize)
    ensures
        final(s)@ == old(s)@ + dec(n as nat),
    decreases n,
{
    if n >= 10 {
        push_decimal(s, n / 10);
    }
    let d: usize = n % 10;
    let digits = "0123456789";
    proof {
        reveal_strlit("0123456789");
    }
    let one = digits.substring_char(d, d + 1);
    assert(one@ =~= seq![digit_char(d as nat)]);
    s.append(one);
    assert(s@ =~= old(s)@ + dec(n as nat));
}

} // verus!
