//! Alignment arithmetic shared by the strategies: rounding an address down or
//! up to an alignment boundary, and divisibility facts about powers of two.

use vstd::prelude::*;

verus! {

use vstd::arithmetic::div_mod::{
    lemma_fundamental_div_mod,
    lemma_fundamental_div_mod_converse,
    lemma_mod_bound,
    lemma_mod_multiples_basic,
};
use vstd::arithmetic::power::{lemma_pow_adds, lemma_pow_positive, lemma_pow_strictly_increases, pow};
use vstd::arithmetic::power2::{is_pow2, is_pow2_equiv};

/// Largest multiple of `align` that is at most `x`.
pub open spec fn round_down(x: int, align: int) -> int {
    x - x % align
}

/// Smallest multiple of `align` that is at least `x`.
pub open spec fn round_up(x: int, align: int) -> int {
    round_down(x + align - 1, align)
}

pub proof fn lemma_round_down(x: int, align: int)
    requires
        x >= 0,
        align >= 1,
    ensures
        0 <= round_down(x, align) <= x,
        x < round_down(x, align) + align,
        round_down(x, align) % align == 0,
{
    lemma_mod_bound(x, align);
    lemma_fundamental_div_mod(x, align);
    assert(x - x % align == align * (x / align));
    let q = x / align;
    assert(align * q == q * align) by (nonlinear_arith);
    lemma_mod_multiples_basic(q, align);
}

pub proof fn lemma_round_up(x: int, align: int)
    requires
        x >= 0,
        align >= 1,
    ensures
        x <= round_up(x, align) < x + align,
        round_up(x, align) % align == 0,
        round_up(x, align) == x + (if x % align == 0 {
            0int
        } else {
            align - x % align
        }),
{
    lemma_mod_bound(x, align);
    lemma_fundamental_div_mod(x, align);
    let q = x / align;
    let s = x % align;
    if s == 0 {
        // x + align - 1 sits just below the next boundary
        assert(x + align - 1 == q * align + (align - 1)) by (nonlinear_arith)
            requires
                x == align * q + s,
                s == 0,
        ;
        lemma_fundamental_div_mod_converse(x + align - 1, align, q, align - 1);
    } else {
        assert(x + align - 1 == (q + 1) * align + (s - 1)) by (nonlinear_arith)
            requires
                x == align * q + s,
        ;
        lemma_fundamental_div_mod_converse(x + align - 1, align, q + 1, s - 1);
    }
    lemma_round_down(x + align - 1, align);
}

/// Among powers of two, the smaller always divides the larger.
pub proof fn lemma_pow2_divides(a: int, b: int)
    requires
        is_pow2(a),
        is_pow2(b),
        a <= b,
    ensures
        b % a == 0,
{
    is_pow2_equiv(a);
    is_pow2_equiv(b);
    let i = choose|i: nat| pow(2, i) == a;
    let j = choose|j: nat| pow(2, j) == b;
    lemma_pow_positive(2, i);
    lemma_pow_positive(2, j);
    if j < i {
        lemma_pow_strictly_increases(2, j, i);
        assert(false);
    }
    lemma_pow_adds(2, i, (j - i) as nat);
    assert(b == a * pow(2, (j - i) as nat));
    lemma_pow_positive(2, (j - i) as nat);
    assert(a * pow(2, (j - i) as nat) == pow(2, (j - i) as nat) * a) by (nonlinear_arith);
    lemma_mod_multiples_basic(pow(2, (j - i) as nat), a);
}

/// Divisibility is transitive: if `b` divides `x` and `a` divides `b`,
/// then `a` divides `x`.
pub proof fn lemma_divides_trans(x: int, b: int, a: int)
    requires
        a >= 1,
        b >= 1,
        x % b == 0,
        b % a == 0,
    ensures
        x % a == 0,
{
    lemma_fundamental_div_mod(x, b);
    lemma_fundamental_div_mod(b, a);
    let k = (b / a) * (x / b);
    assert(x == k * a) by (nonlinear_arith)
        requires
            x == b * (x / b) + x % b,
            b == a * (b / a) + b % a,
            x % b == 0,
            b % a == 0,
            k == (b / a) * (x / b),
    ;
    lemma_mod_multiples_basic(k, a);
}

} // verus!
