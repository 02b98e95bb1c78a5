use vstd::prelude::*;

verus! {

/// Largest exponent `e` for which `10^e` fits in a `u128`.
pub const MAX_POW10_EXPONENT_U128: u8 = 38;

/// `10^n`.
pub open spec fn pow10(n: nat) -> nat
    decreases n,
{
    if n == 0 {
        1
    } else {
        10 * pow10((n - 1) as nat)
    }
}

pub proof fn lemma_pow10_positive(n: nat)
    ensures
        pow10(n) >= 1,
    decreases n,
{
    if n > 0 {
        lemma_pow10_positive((n - 1) as nat);
    }
}

pub proof fn lemma_pow10_monotone(a: nat, b: nat)
    requires
        a <= b,
    ensures
        pow10(a) <= pow10(b),
    decreases b,
{
    if a < b {
        lemma_pow10_monotone(a, (b - 1) as nat);
        lemma_pow10_positive((b - 1) as nat);
    }
}

pub proof fn lemma_pow10_38_fits()
    ensures
        pow10(38) <= u128::MAX,
{
    reveal_with_fuel(pow10, 39);
    assert(pow10(38) == 100_000_000_000_000_000_000_000_000_000_000_000_000);
}

/// The product of two 64-bit values fits in 128 bits.
pub proof fn lemma_mul_u64_fits(a: u64, b: u64)
    ensures
        0 <= a * b <= u64::MAX * u64::MAX,
        u64::MAX * u64::MAX <= u128::MAX,
{
    assert(0 <= a * b <= u64::MAX * u64::MAX) by (nonlinear_arith)
        requires
            a <= u64::MAX,
            b <= u64::MAX,
    ;
}

/// `10^exponent` as a `u128`, which holds it up to
/// exponent 38.
pub fn pow10_u128(exponent: u8) -> (p: u128)
    requires
        exponent <= MAX_POW10_EXPONENT_U128,
    ensures
        p == pow10(exponent as nat),
{
    let mut p: u128 = 1;
    let mut i: u8 = 0;
    while i < exponent
        invariant
            i <= exponent <= 38,
            p == pow10(i as nat),
        decreases exponent - i,
    {
        proof {
            lemma_pow10_monotone((i + 1) as nat, 38);
            lemma_pow10_38_fits();
        }
        p = p * 10;
        i = i + 1;
    }
    p
}

/// `x - y`, held within the range of `i64`.
pub open spec fn saturating_diff_i64(x: i64, y: i64) -> i64 {
    let d = x - y;
    if d > i64::MAX {
        i64::MAX
    } else if d < i64::MIN {
        i64::MIN
    } else {
        d as i64
    }
}

/// `x - y`, held within the range of `i64`, as `i64::saturating_sub` does.
pub fn saturating_sub_i64(x: i64, y: i64) -> (d: i64)
    ensures
        d == saturating_diff_i64(x, y),
{
    let wide: i128 = (x as i128) - (y as i128);
    if wide > (i64::MAX as i128) {
        i64::MAX
    } else if wide < (i64::MIN as i128) {
        i64::MIN
    } else {
        wide as i64
    }
}

} // verus!
