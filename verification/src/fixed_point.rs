//! Exact integer arithmetic behind the closed-form trade sizes.

use vstd::prelude::*;

verus! {

/// The number that stands for a price of one, or for a fee rate of 100%.
pub const SCALE: u64 = 1_000_000_000;

/// Two to the power 64, as a mathematical integer.
pub open spec fn limb() -> int {
    0x1_0000_0000_0000_0000
}

/// A non-negative integer below two to the power 192, held as a high part
/// and one low 64-bit limb.
#[derive(Clone, Copy, Debug)]
pub struct Wide {
    pub hi: u128,
    pub lo: u64,
}

impl Wide {
    /// The integer that `self` stands for.
    pub open spec fn value(self) -> int {
        self.hi * limb() + self.lo
    }

    /// The full product of a 128-bit and a 64-bit number.
    pub fn product(a: u128, b: u64) -> (r: Wide)
        ensures
            r.value() == a * b,
    {
        let w: u128 = 0x1_0000_0000_0000_0000;
        let a1: u128 = a / w;
        let a0: u128 = a % w;
        let bb: u128 = b as u128;
        assert(a0 * bb <= 0xffff_ffff_ffff_ffff * 0xffff_ffff_ffff_ffff) by (nonlinear_arith)
            requires
                0 <= a0 <= 0xffff_ffff_ffff_ffff,
                0 <= bb <= 0xffff_ffff_ffff_ffff,
        ;
        assert(a1 * bb <= 0xffff_ffff_ffff_ffff * 0xffff_ffff_ffff_ffff) by (nonlinear_arith)
            requires
                0 <= a1 <= 0xffff_ffff_ffff_ffff,
                0 <= bb <= 0xffff_ffff_ffff_ffff,
        ;
        let low: u128 = a0 * bb;
        let c1: u128 = low / w;
        let c0: u128 = low % w;
        let high: u128 = a1 * bb + c1;
        assert(high * limb() + c0 == a * b) by (nonlinear_arith)
            requires
                a == a1 * limb() + a0,
                low == a0 * bb,
                low == c1 * limb() + c0,
                high == a1 * bb + c1,
                bb == b,
        ;
        Wide { hi: high, lo: c0 as u64 }
    }

    /// Whether `self` is at most `other`, as integers.
    pub fn at_most(&self, other: &Wide) -> (r: bool)
        ensures
            r == (self.value() <= other.value()),
    {
        self.hi < other.hi || (self.hi == other.hi && self.lo <= other.lo)
    }
}

/// Whether a reserve level `n` is affordable: its square times the price
/// does not exceed the fee-adjusted invariant `k`.
pub open spec fn reserve_fits(n: int, k: int, price: int) -> bool {
    n * n * price <= k
}

/// Whether `n` is the largest representable reserve level that is
/// affordable for the fee-adjusted invariant `k` at `price`.
pub open spec fn is_reserve_target(n: int, k: int, price: int) -> bool {
    &&& 0 <= n <= u64::MAX
    &&& reserve_fits(n, k, price)
    &&& n < u64::MAX ==> !reserve_fits(n + 1, k, price)
}

/// The largest reserve level up to `u64::MAX` whose square times `price`
/// does not exceed `k`: the integer part of `sqrt(k / price)`, capped at
/// the largest representable amount (which it is for a price of zero).
pub open spec fn reserve_target(k: int, price: int) -> int {
    choose|n: int| is_reserve_target(n, k, price)
}

/// A larger reserve level is never more affordable than a smaller one.
pub proof fn lemma_reserve_fits_monotone(n: int, m: int, k: int, price: int)
    by (nonlinear_arith)
    requires
        0 <= n <= m,
        0 <= price,
        reserve_fits(m, k, price),
    ensures
        reserve_fits(n, k, price),
{
    assert(n * n <= m * m);
    assert(n * n * price <= m * m * price);
}

/// Searching downwards from `bound`, a target is found: zero is always
/// affordable.
proof fn lemma_reserve_target_below(bound: int, k: int, price: int)
    requires
        0 <= k,
        0 <= price,
        0 <= bound <= u64::MAX,
        bound < u64::MAX ==> !reserve_fits(bound + 1, k, price),
    ensures
        exists|n: int| is_reserve_target(n, k, price),
    decreases bound,
{
    if reserve_fits(bound, k, price) {
        assert(is_reserve_target(bound, k, price));
    } else if bound == 0 {
        assert(reserve_fits(0, k, price)) by (nonlinear_arith)
            requires
                0 <= k,
        ;
    } else {
        lemma_reserve_target_below(bound - 1, k, price);
    }
}

/// The target is the boundary of what is affordable: a reserve level up to
/// `u64::MAX` is affordable if and only if it is at most `reserve_target`.
/// On that side of it the AMM's marginal price, fee included, is still at
/// or above the fair price; beyond it the fair price is higher.
pub proof fn lemma_reserve_target_is_the_boundary(n: int, k: int, price: int)
    requires
        0 <= k,
        0 <= price,
        0 <= n <= u64::MAX,
    ensures
        is_reserve_target(reserve_target(k, price), k, price),
        reserve_fits(n, k, price) <==> n <= reserve_target(k, price),
{
    lemma_reserve_target_below(u64::MAX as int, k, price);
    let target = reserve_target(k, price);
    if n <= target {
        lemma_reserve_fits_monotone(n, target, k, price);
    } else if reserve_fits(n, k, price) {
        lemma_reserve_fits_monotone(target + 1, n, k, price);
    }
}

/// At most one reserve level is the target, so whichever one is found is
/// `reserve_target`.
pub proof fn lemma_reserve_target_unique(n: int, k: int, price: int)
    requires
        0 <= price,
        is_reserve_target(n, k, price),
    ensures
        reserve_target(k, price) == n,
{
    let m = reserve_target(k, price);
    assert(is_reserve_target(m, k, price));
    if m < n {
        lemma_reserve_fits_monotone(m + 1, n, k, price);
    } else if n < m {
        lemma_reserve_fits_monotone(n + 1, m, k, price);
    }
}

/// Decides `reserve_fits` for a fee-adjusted invariant held as a `Wide`.
fn fits(n: u64, adjusted: &Wide, price: u64) -> (r: bool)
    ensures
        r == reserve_fits(n as int, adjusted.value(), price as int),
{
    assert(n * n <= 0xffff_ffff_ffff_ffff * 0xffff_ffff_ffff_ffff) by (nonlinear_arith)
        requires
            0 <= n <= 0xffff_ffff_ffff_ffff,
    ;
    let square: u128 = (n as u128) * (n as u128);
    let cost: Wide = Wide::product(square, price);
    cost.at_most(adjusted)
}

/// Finds `reserve_target` for the invariant `rx * ry * multiplier`.
pub fn find_reserve_target(rx: u64, ry: u64, multiplier: u64, price: u64) -> (r: u64)
    ensures
        r == reserve_target(rx * ry * multiplier, price as int),
{
    assert(rx * ry <= 0xffff_ffff_ffff_ffff * 0xffff_ffff_ffff_ffff) by (nonlinear_arith)
        requires
            0 <= rx <= 0xffff_ffff_ffff_ffff,
            0 <= ry <= 0xffff_ffff_ffff_ffff,
    ;
    let k: u128 = (rx as u128) * (ry as u128);
    let adjusted: Wide = Wide::product(k, multiplier);
    assert(adjusted.value() >= 0) by (nonlinear_arith)
        requires
            adjusted.value() == k * multiplier,
            k >= 0,
            multiplier >= 0,
    ;
    assert(reserve_fits(0, adjusted.value(), price as int)) by (nonlinear_arith)
        requires
            adjusted.value() >= 0,
    ;
    let mut lo: u64 = 0;
    let mut hi: u64 = u64::MAX;
    while lo < hi
        invariant
            lo <= hi,
            reserve_fits(lo as int, adjusted.value(), price as int),
            hi < u64::MAX ==> !reserve_fits(hi + 1, adjusted.value(), price as int),
        decreases hi - lo,
    {
        let gap: u64 = hi - lo;
        let mid: u64 = lo + gap / 2 + gap % 2;
        if fits(mid, &adjusted, price) {
            lo = mid;
        } else {
            hi = mid - 1;
        }
    }
    proof {
        lemma_reserve_target_unique(lo as int, adjusted.value(), price as int);
    }
    lo
}

} // verus!
