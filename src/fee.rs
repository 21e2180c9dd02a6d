//! Fee accrual of a locked constant-product stake.
//!
//! The value of one liquidity token, measured in the pool invariant, is
//! `sqrt(k) / S`. The part of the escrowed tokens that still stands for the
//! principal is the least quantity `p` whose value now is at least the value
//! that the principal had at the last snapshot:
//! `p * sqrt(k_now) / S_now >= P * sqrt(k_last) / S_last`, compared in squares
//! (products of up to 384 bits, held in six 64-bit limbs)
//! so that no root is taken. What the escrowed tokens hold beyond `p` is fee.
//! The principal share is rounded up, so the fee is rounded down.
use vstd::prelude::*;
use crate::wide::{limbs_ge, limbs_value, wide_product};

verus! {

/// `p` tokens weighted by `a` reach the need `b`.
pub open spec fn covers(p: int, a: int, b: int) -> bool {
    p * p * a >= b
}

/// `p` is the least quantity that covers `b` under weight `a`.
pub open spec fn is_least_cover(p: int, a: int, b: int) -> bool {
    &&& 0 <= p
    &&& covers(p, a, b)
    &&& (p == 0 || !covers(p - 1, a, b))
}

pub open spec fn least_cover(a: int, b: int) -> int {
    choose|p: int| is_least_cover(p, a, b)
}

/// Every snapshot value is positive, so growth can be measured.
pub open spec fn measurable(s_last: int, k_last: int, s_now: int, k_now: int) -> bool {
    s_last > 0 && k_last > 0 && s_now > 0 && k_now > 0
}

/// Weight of one squared token now: `S_last^2 * k_now`.
pub open spec fn weight(s_last: int, k_now: int) -> int {
    s_last * s_last * k_now
}

/// What the principal needs: `P^2 * S_now^2 * k_last`.
pub open spec fn need(p: int, s_now: int, k_last: int) -> int {
    p * p * s_now * s_now * k_last
}

/// Liquidity tokens that became fee since the snapshot `(s_last, k_last)`,
/// for a principal of `p` tokens. Zero where the pool value per token did
/// not grow or cannot be measured.
pub open spec fn accrued_fee(p: int, s_last: int, k_last: int, s_now: int, k_now: int) -> int {
    let a = weight(s_last, k_now);
    let b = need(p, s_now, k_last);
    if !measurable(s_last, k_last, s_now, k_now) || !covers(p, a, b) {
        0
    } else {
        p - least_cover(a, b)
    }
}

pub proof fn lemma_cover_monotone(p: int, q: int, a: int)
    requires
        0 <= p <= q,
        0 <= a,
    ensures
        p * p * a <= q * q * a,
{
    assert(p * p <= q * q) by (nonlinear_arith)
        requires
            0 <= p <= q,
    ;
    assert(p * p * a <= q * q * a) by (nonlinear_arith)
        requires
            p * p <= q * q,
            0 <= a,
    ;
}

pub proof fn lemma_least_cover_unique(p: int, q: int, a: int, b: int)
    requires
        0 <= a,
        is_least_cover(p, a, b),
        is_least_cover(q, a, b),
    ensures
        p == q,
{
    if p < q {
        lemma_cover_monotone(p, q - 1, a);
    } else if q < p {
        lemma_cover_monotone(q, p - 1, a);
    }
}

pub proof fn lemma_least_cover_is(p: int, a: int, b: int)
    requires
        0 <= a,
        is_least_cover(p, a, b),
    ensures
        least_cover(a, b) == p,
{
    let c = least_cover(a, b);
    assert(is_least_cover(c, a, b));
    lemma_least_cover_unique(c, p, a, b);
}

/// Whether `p * p * s_last^2 * k_now >= b`, in six limbs.
fn covers_wide(p: u64, s_last: u64, k_now: u128, b: &Vec<u64>) -> (r: bool)
    requires
        b@.len() == 6,
    ensures
        r == covers(p as int, weight(s_last as int, k_now as int), limbs_value(b@) as int),
{
    let lhs = wide_product(k_now, s_last, s_last, p, p);
    proof {
        let (pi, si, ki) = (p as int, s_last as int, k_now as int);
        assert(ki * si * si * pi * pi == pi * pi * (si * si * ki)) by (nonlinear_arith);
    }
    limbs_ge(&lhs, b)
}

/// The least `p` in `0..=top` with `p * p * a >= b`, by bisection, where
/// `a` is the weight of `(s_last, k_now)`.
fn least_cover_search(top: u64, s_last: u64, k_now: u128, b: &Vec<u64>) -> (p: u64)
    requires
        b@.len() == 6,
        covers(top as int, weight(s_last as int, k_now as int), limbs_value(b@) as int),
    ensures
        p <= top,
        is_least_cover(p as int, weight(s_last as int, k_now as int), limbs_value(b@) as int),
{
    let ghost a = weight(s_last as int, k_now as int);
    let ghost bv = limbs_value(b@) as int;
    let mut lo: u64 = 0;
    let mut hi: u64 = top;
    while lo < hi
        invariant
            lo <= hi <= top,
            b@.len() == 6,
            a == weight(s_last as int, k_now as int),
            bv == limbs_value(b@) as int,
            covers(hi as int, a, bv),
            lo == 0 || !covers(lo - 1, a, bv),
        decreases hi - lo,
    {
        let mid: u64 = lo + (hi - lo) / 2;
        if covers_wide(mid, s_last, k_now, b) {
            hi = mid;
        } else {
            lo = mid + 1;
        }
    }
    lo
}

/// Liquidity tokens of a principal of `principal` tokens that became fee
/// between the snapshot `(s_last, k_last)` and the pool state `(s_now, k_now)`.
/// Computed in six limbs, so it holds for every supply and invariant.
pub fn accrued_fee_amount(principal: u64, s_last: u64, k_last: u128, s_now: u64, k_now: u128) -> (r: u64)
    ensures
        r == accrued_fee(principal as int, s_last as int, k_last as int, s_now as int, k_now as int),
        r <= principal,
{
    if s_last == 0 || k_last == 0 || s_now == 0 || k_now == 0 {
        return 0;
    }
    let b = wide_product(k_last, s_now, s_now, principal, principal);
    proof {
        let (pi, si, ki) = (principal as int, s_now as int, k_last as int);
        assert(ki * si * si * pi * pi == pi * pi * si * si * ki) by (nonlinear_arith);
    }
    if !covers_wide(principal, s_last, k_now, &b) {
        return 0;
    }
    let least = least_cover_search(principal, s_last, k_now, &b);
    proof {
        assert(weight(s_last as int, k_now as int) >= 0) by (nonlinear_arith)
            requires
                s_last >= 0,
                k_now >= 0,
        ;
        lemma_least_cover_is(least as int, weight(s_last as int, k_now as int), limbs_value(b@) as int);
    }
    principal - least
}

/// Some least cover exists at or below any cover.
pub proof fn lemma_least_cover_exists(top: int, a: int, b: int)
    requires
        0 <= top,
        0 <= a,
        covers(top, a, b),
    ensures
        is_least_cover(least_cover(a, b), a, b),
        least_cover(a, b) <= top,
    decreases top,
{
    if top == 0 || !covers(top - 1, a, b) {
        lemma_least_cover_is(top, a, b);
    } else {
        lemma_least_cover_exists(top - 1, a, b);
    }
}

/// The fee is never negative and never more than the principal.
pub proof fn lemma_accrued_fee_bounds(p: int, s_last: int, k_last: int, s_now: int, k_now: int)
    requires
        0 <= p,
        0 <= s_last,
        0 <= k_now,
    ensures
        0 <= accrued_fee(p, s_last, k_last, s_now, k_now) <= p,
{
    let a = weight(s_last, k_now);
    let b = need(p, s_now, k_last);
    if measurable(s_last, k_last, s_now, k_now) && covers(p, a, b) {
        assert(a >= 0) by (nonlinear_arith)
            requires
                0 <= s_last,
                0 <= k_now,
                a == s_last * s_last * k_now,
        ;
        lemma_least_cover_exists(p, a, b);
    }
}

/// Where neither supply nor invariant moved since the snapshot, nothing
/// accrues.
pub proof fn lemma_no_growth_no_fee(p: int, s: int, k: int)
    requires
        0 <= p,
        0 <= s,
        0 <= k,
    ensures
        accrued_fee(p, s, k, s, k) == 0,
{
    if measurable(s, k, s, k) {
        let a = weight(s, k);
        let b = need(p, s, k);
        assert(b == p * p * a) by (nonlinear_arith)
            requires
                a == s * s * k,
                b == p * p * s * s * k,
        ;
        assert(a > 0) by (nonlinear_arith)
            requires
                s > 0,
                k > 0,
                a == s * s * k,
        ;
        if p > 0 {
            assert((p - 1) * (p - 1) * a < p * p * a) by (nonlinear_arith)
                requires
                    p > 0,
                    a > 0,
            ;
        }
        lemma_least_cover_is(p, a, b);
    }
}

} // verus!
