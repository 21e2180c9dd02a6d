//! Unsigned numbers of several 64-bit limbs, least significant first, for
//! products that do not fit in 128 bits.
use vstd::prelude::*;

verus! {

pub open spec fn limb_base() -> nat {
    0x1_0000_0000_0000_0000nat
}

/// Weight of the limb at position `n`: `2^(64 n)`.
pub open spec fn place(n: nat) -> nat
    decreases n,
{
    if n == 0 {
        1
    } else {
        limb_base() * place((n - 1) as nat)
    }
}

/// The number that the limbs stand for.
pub open spec fn limbs_value(s: Seq<u64>) -> nat
    decreases s.len(),
{
    if s.len() == 0 {
        0
    } else {
        limbs_value(s.drop_last()) + s.last() as nat * place((s.len() - 1) as nat)
    }
}

pub proof fn lemma_place_positive(n: nat)
    ensures
        place(n) >= 1,
    decreases n,
{
    if n > 0 {
        lemma_place_positive((n - 1) as nat);
        assert(limb_base() * place((n - 1) as nat) >= 1) by (nonlinear_arith)
            requires
                place((n - 1) as nat) >= 1,
                limb_base() >= 1,
        ;
    }
}

/// A number of `n` limbs is below `place(n)`.
pub proof fn lemma_limbs_bound(s: Seq<u64>)
    ensures
        limbs_value(s) < place(s.len()),
    decreases s.len(),
{
    if s.len() > 0 {
        let n = (s.len() - 1) as nat;
        lemma_limbs_bound(s.drop_last());
        let v = limbs_value(s.drop_last());
        let l = s.last() as nat;
        let p = place(n);
        assert(v + l * p < limb_base() * p) by (nonlinear_arith)
            requires
                v < p,
                l < limb_base(),
        ;
    }
}

/// Limbs above position `i` that agree leave the difference of the lower
/// parts.
pub proof fn lemma_equal_top(a: Seq<u64>, b: Seq<u64>, i: int, j: int)
    requires
        a.len() == b.len(),
        0 <= i <= j <= a.len(),
        forall|m: int| i <= m < a.len() ==> a[m] == b[m],
    ensures
        limbs_value(a.subrange(0, j)) - limbs_value(b.subrange(0, j)) == limbs_value(a.subrange(0, i))
            - limbs_value(b.subrange(0, i)),
    decreases j - i,
{
    if j > i {
        lemma_equal_top(a, b, i, j - 1);
        assert(a.subrange(0, j).drop_last() =~= a.subrange(0, j - 1));
        assert(b.subrange(0, j).drop_last() =~= b.subrange(0, j - 1));
    }
}

/// The highest limb that differs decides the order.
pub proof fn lemma_top_decides(a: Seq<u64>, b: Seq<u64>, i: int)
    requires
        a.len() == b.len(),
        1 <= i <= a.len(),
        a[i - 1] > b[i - 1],
    ensures
        limbs_value(a.subrange(0, i)) > limbs_value(b.subrange(0, i)),
{
    let n = (i - 1) as nat;
    assert(a.subrange(0, i).drop_last() =~= a.subrange(0, i - 1));
    assert(b.subrange(0, i).drop_last() =~= b.subrange(0, i - 1));
    lemma_limbs_bound(b.subrange(0, i - 1));
    let va = limbs_value(a.subrange(0, i - 1));
    let vb = limbs_value(b.subrange(0, i - 1));
    let la = a[i - 1] as nat;
    let lb = b[i - 1] as nat;
    let p = place(n);
    assert(va + la * p > vb + lb * p) by (nonlinear_arith)
        requires
            vb < p,
            la >= lb + 1,
            va >= 0,
    ;
}

/// `a >= b` for two numbers of the same number of limbs.
pub fn limbs_ge(a: &Vec<u64>, b: &Vec<u64>) -> (r: bool)
    requires
        a@.len() == b@.len(),
    ensures
        r == (limbs_value(a@) >= limbs_value(b@)),
{
    let n = a.len();
    let mut i: usize = n;
    assert(a@.subrange(0, n as int) =~= a@);
    assert(b@.subrange(0, n as int) =~= b@);
    while i > 0
        invariant
            n == a@.len() == b@.len(),
            i <= n,
            a@.subrange(0, n as int) == a@,
            b@.subrange(0, n as int) == b@,
            forall|m: int| i <= m < n ==> a@[m] == b@[m],
        decreases i,
    {
        if a[i - 1] != b[i - 1] {
            proof {
                lemma_equal_top(a@, b@, i as int, n as int);
                if a@[i - 1] > b@[i - 1] {
                    lemma_top_decides(a@, b@, i as int);
                } else {
                    lemma_top_decides(b@, a@, i as int);
                }
            }
            return a[i - 1] > b[i - 1];
        }
        i = i - 1;
    }
    proof {
        lemma_equal_top(a@, b@, 0, n as int);
        assert(a@.subrange(0, 0) =~= Seq::<u64>::empty());
        assert(b@.subrange(0, 0) =~= Seq::<u64>::empty());
    }
    true
}

/// `a * m`, one limb longer than `a`.
pub fn limbs_mul(a: &Vec<u64>, m: u64) -> (r: Vec<u64>)
    ensures
        r@.len() == a@.len() + 1,
        limbs_value(r@) == limbs_value(a@) * m,
{
    let n = a.len();
    let mut r: Vec<u64> = Vec::new();
    let mut carry: u64 = 0;
    let mut i: usize = 0;
    proof {
        assert(a@.subrange(0, 0) =~= Seq::<u64>::empty());
        assert(r@ =~= Seq::<u64>::empty());
        assert(limbs_value(Seq::<u64>::empty()) == 0);
        assert(place(0) == 1);
    }
    while i < n
        invariant
            n == a@.len(),
            i <= n,
            r@.len() == i,
            limbs_value(r@) + carry * place(i as nat) == limbs_value(a@.subrange(0, i as int)) * m,
        decreases n - i,
    {
        let ai: u64 = a[i];
        proof {
            assert(ai as int * m as int + carry as int <= (u64::MAX as int) * (u64::MAX as int) + u64::MAX as int)
                by (nonlinear_arith)
                requires
                    ai <= u64::MAX,
                    m <= u64::MAX,
                    carry <= u64::MAX,
            ;
        }
        let x: u128 = (ai as u128) * (m as u128) + (carry as u128);
        let d: u64 = (x % 0x1_0000_0000_0000_0000u128) as u64;
        let c: u64 = (x / 0x1_0000_0000_0000_0000u128) as u64;
        let ghost old_r = r@;
        let ghost pi = place(i as nat);
        r.push(d);
        proof {
            assert(r@.drop_last() =~= old_r);
            assert(a@.subrange(0, i + 1).drop_last() =~= a@.subrange(0, i as int));
            assert(d as int + c as int * limb_base() == x);
            let va = limbs_value(a@.subrange(0, i as int));
            let vr = limbs_value(old_r);
            assert(vr + d * pi + c * (limb_base() * pi) == (va + ai * pi) * m) by (nonlinear_arith)
                requires
                    vr + carry * pi == va * m,
                    d + c * limb_base() == ai * m + carry,
            ;
        }
        carry = c;
        i = i + 1;
    }
    let ghost old_r = r@;
    r.push(carry);
    proof {
        assert(r@.drop_last() =~= old_r);
        assert(a@.subrange(0, n as int) =~= a@);
    }
    r
}

/// The two limbs of a 128-bit number.
pub fn limbs_of(k: u128) -> (r: Vec<u64>)
    ensures
        r@.len() == 2,
        limbs_value(r@) == k,
{
    let lo: u64 = (k % 0x1_0000_0000_0000_0000u128) as u64;
    let hi: u64 = (k / 0x1_0000_0000_0000_0000u128) as u64;
    let mut r: Vec<u64> = Vec::new();
    r.push(lo);
    r.push(hi);
    proof {
        assert(r@.drop_last() =~= seq![lo]);
        assert(seq![lo].drop_last() =~= Seq::<u64>::empty());
        assert(limbs_value(Seq::<u64>::empty()) == 0);
        assert(place(0) == 1);
        assert(limbs_value(seq![lo]) == lo as nat * place(0));
        assert(place(1) == limb_base() * place(0));
        assert(lo as nat + hi as nat * limb_base() == k);
    }
    r
}

/// `k * f1 * f2 * f3 * f4` in six limbs.
pub fn wide_product(k: u128, f1: u64, f2: u64, f3: u64, f4: u64) -> (r: Vec<u64>)
    ensures
        r@.len() == 6,
        limbs_value(r@) == k * f1 * f2 * f3 * f4,
{
    let a = limbs_of(k);
    let a = limbs_mul(&a, f1);
    let a = limbs_mul(&a, f2);
    let a = limbs_mul(&a, f3);
    limbs_mul(&a, f4)
}

} // verus!
