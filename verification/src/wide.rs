//! A small fixed-width unsigned integer, six 64-bit limbs wide, just large
//! enough to hold the products the pool-price formulas form from two 256-bit
//! on-chain quantities and a decimal scale factor.
use vstd::arithmetic::div_mod::lemma_fundamental_div_mod_converse_div;
use vstd::arithmetic::mul::lemma_mul_upper_bound;
use vstd::prelude::*;

verus! {

/// 2^64, the limb radix, as an exec constant.
const RADIX: u128 = 0x1_0000_0000_0000_0000;

/// 2^64 as a spec value.
#[verifier::inline]
pub open spec fn p64() -> int {
    0x1_0000_0000_0000_0000
}

/// 2^128 as a spec value.
#[verifier::inline]
pub open spec fn p128() -> int {
    p64() * p64()
}

/// 2^192 as a spec value.
#[verifier::inline]
pub open spec fn p192() -> int {
    (p64() * p64()) * p64()
}

/// 2^256 as a spec value.
#[verifier::inline]
pub open spec fn p256() -> int {
    ((p64() * p64()) * p64()) * p64()
}

/// 2^320 as a spec value.
#[verifier::inline]
pub open spec fn p320() -> int {
    (((p64() * p64()) * p64()) * p64()) * p64()
}

/// 2^384 as a spec value.
#[verifier::inline]
pub open spec fn p384() -> int {
    ((((p64() * p64()) * p64()) * p64()) * p64()) * p64()
}

/// An unsigned integer of six 64-bit limbs, least significant first.
#[derive(Clone, Copy, Debug)]
pub struct Wide {
    pub l0: u64,
    pub l1: u64,
    pub l2: u64,
    pub l3: u64,
    pub l4: u64,
    pub l5: u64,
}

/// The integer a `Wide` denotes, in radix-2^64 Horner form.
pub open spec fn wval(x: Wide) -> int {
    x.l0 + (x.l1 + (x.l2 + (x.l3 + (x.l4 + x.l5 * p64()) * p64()) * p64()) * p64()) * p64()
}

/// Every `Wide` denotes a value below 2^384.
pub proof fn lemma_wval_range(x: Wide)
    ensures
        0 <= wval(x) < p384(),
{
}

/// Distributing a factor over one Horner step: multiplying a limb plus a
/// shifted tail by `c` multiplies both parts.
proof fn lemma_horner_mul_step(a: int, t: int, c: int)
    ensures
        (a + t * p64()) * c == a * c + (t * c) * p64(),
{
    assert((a + t * p64()) * c == a * c + (t * c) * p64()) by (nonlinear_arith);
}

impl Wide {
    /// The value `v`.
    pub fn from_u128(v: u128) -> (r: Wide)
        ensures
            wval(r) == v,
    {
        Wide {
            l0: (v % RADIX) as u64,
            l1: (v / RADIX) as u64,
            l2: 0,
            l3: 0,
            l4: 0,
            l5: 0,
        }
    }

    /// The value `hi * 2^128 + lo`: a 256-bit quantity from its halves.
    pub fn from_u128_pair(hi: u128, lo: u128) -> (r: Wide)
        ensures
            wval(r) == hi * p128() + lo,
    {
        Wide {
            l0: (lo % RADIX) as u64,
            l1: (lo / RADIX) as u64,
            l2: (hi % RADIX) as u64,
            l3: (hi / RADIX) as u64,
            l4: 0,
            l5: 0,
        }
    }

    /// The value `c * 2^192`.
    pub fn from_u64_at_192(c: u64) -> (r: Wide)
        ensures
            wval(r) == c * p192(),
    {
        let r = Wide { l0: 0, l1: 0, l2: 0, l3: c, l4: 0, l5: 0 };
        proof {
            assert(((c * p64()) * p64()) * p64() == c * p192()) by (nonlinear_arith);
        }
        r
    }

    /// Whether the value is zero.
    pub fn is_zero(&self) -> (r: bool)
        ensures
            r == (wval(*self) == 0),
    {
        self.l0 == 0 && self.l1 == 0 && self.l2 == 0 && self.l3 == 0 && self.l4 == 0
            && self.l5 == 0
    }

    /// The value shifted one limb up, i.e. multiplied by 2^64.
    pub fn shift_limb(&self) -> (r: Wide)
        requires
            self.l5 == 0,
        ensures
            wval(r) == wval(*self) * p64(),
    {
        let r = Wide { l0: 0, l1: self.l0, l2: self.l1, l3: self.l2, l4: self.l3, l5: self.l4 };
        proof {
            let t4: int = self.l3 + self.l4 * p64();
            let t3: int = self.l2 + t4 * p64();
            let t2: int = self.l1 + t3 * p64();
            lemma_horner_mul_step(self.l0 as int, t2, p64());
            lemma_horner_mul_step(self.l1 as int, t3, p64());
            lemma_horner_mul_step(self.l2 as int, t4, p64());
            lemma_horner_mul_step(self.l3 as int, self.l4 as int, p64());
        }
        r
    }

    /// The sum of two values, which the caller shows fits the width.
    pub fn add(&self, other: &Wide) -> (r: Wide)
        requires
            wval(*self) + wval(*other) < p384(),
        ensures
            wval(r) == wval(*self) + wval(*other),
    {
        let t0: u128 = self.l0 as u128 + other.l0 as u128;
        let c0: u128 = t0 / RADIX;
        let t1: u128 = self.l1 as u128 + other.l1 as u128 + c0;
        let c1: u128 = t1 / RADIX;
        let t2: u128 = self.l2 as u128 + other.l2 as u128 + c1;
        let c2: u128 = t2 / RADIX;
        let t3: u128 = self.l3 as u128 + other.l3 as u128 + c2;
        let c3: u128 = t3 / RADIX;
        let t4: u128 = self.l4 as u128 + other.l4 as u128 + c3;
        let c4: u128 = t4 / RADIX;
        let t5: u128 = self.l5 as u128 + other.l5 as u128 + c4;
        let c5: u128 = t5 / RADIX;
        let r = Wide {
            l0: (t0 % RADIX) as u64,
            l1: (t1 % RADIX) as u64,
            l2: (t2 % RADIX) as u64,
            l3: (t3 % RADIX) as u64,
            l4: (t4 % RADIX) as u64,
            l5: (t5 % RADIX) as u64,
        };
        proof {
            assert(c5 == 0);
        }
        r
    }

    /// The product with a single limb, or `None` when it does not fit.
    pub fn mul_u64(&self, c: u64) -> (r: Option<Wide>)
        ensures
            match r {
                Some(p) => wval(p) == wval(*self) * c,
                None => wval(*self) * c >= p384(),
            },
    {
        proof {
            lemma_mul_limb_bound(self.l0 as int, c as int);
            lemma_mul_limb_bound(self.l1 as int, c as int);
            lemma_mul_limb_bound(self.l2 as int, c as int);
            lemma_mul_limb_bound(self.l3 as int, c as int);
            lemma_mul_limb_bound(self.l4 as int, c as int);
            lemma_mul_limb_bound(self.l5 as int, c as int);
        }
        let p0: u128 = self.l0 as u128 * c as u128;
        let k0: u128 = p0 / RADIX;
        let p1: u128 = self.l1 as u128 * c as u128 + k0;
        let k1: u128 = p1 / RADIX;
        let p2: u128 = self.l2 as u128 * c as u128 + k1;
        let k2: u128 = p2 / RADIX;
        let p3: u128 = self.l3 as u128 * c as u128 + k2;
        let k3: u128 = p3 / RADIX;
        let p4: u128 = self.l4 as u128 * c as u128 + k3;
        let k4: u128 = p4 / RADIX;
        let p5: u128 = self.l5 as u128 * c as u128 + k4;
        let k5: u128 = p5 / RADIX;
        let r = Wide {
            l0: (p0 % RADIX) as u64,
            l1: (p1 % RADIX) as u64,
            l2: (p2 % RADIX) as u64,
            l3: (p3 % RADIX) as u64,
            l4: (p4 % RADIX) as u64,
            l5: (p5 % RADIX) as u64,
        };
        proof {
            // Peel the Horner tails of `self` and distribute `c` over each.
            let t4: int = self.l4 + self.l5 * p64();
            let t3: int = self.l3 + t4 * p64();
            let t2: int = self.l2 + t3 * p64();
            let t1: int = self.l1 + t2 * p64();
            lemma_horner_mul_step(self.l4 as int, self.l5 as int, c as int);
            lemma_horner_mul_step(self.l3 as int, t4, c as int);
            lemma_horner_mul_step(self.l2 as int, t3, c as int);
            lemma_horner_mul_step(self.l1 as int, t2, c as int);
            lemma_horner_mul_step(self.l0 as int, t1, c as int);
            assert(wval(r) + ((((((k5 * p64()) * p64()) * p64()) * p64()) * p64()) * p64()) == wval(
                *self,
            ) * c);
        }
        if k5 == 0 {
            Some(r)
        } else {
            None
        }
    }

    /// Whether this value is at most the other.
    pub fn le(&self, other: &Wide) -> (r: bool)
        ensures
            r == (wval(*self) <= wval(*other)),
    {
        if self.l5 != other.l5 {
            return self.l5 < other.l5;
        }
        if self.l4 != other.l4 {
            return self.l4 < other.l4;
        }
        if self.l3 != other.l3 {
            return self.l3 < other.l3;
        }
        if self.l2 != other.l2 {
            return self.l2 < other.l2;
        }
        if self.l1 != other.l1 {
            return self.l1 < other.l1;
        }
        self.l0 <= other.l0
    }

    /// Whether this value is strictly below the other.
    pub fn lt(&self, other: &Wide) -> (r: bool)
        ensures
            r == (wval(*self) < wval(*other)),
    {
        !other.le(self)
    }
}

/// The product of two limb-sized values stays below 2^128 - 2^64, leaving
/// room for a carry.
proof fn lemma_mul_limb_bound(a: int, c: int)
    requires
        0 <= a < p64(),
        0 <= c < p64(),
    ensures
        a * c <= (p64() - 1) * (p64() - 1),
{
    lemma_mul_upper_bound(a, p64() - 1, c, p64() - 1);
}

/// The square of a 128-bit value, exactly.
pub fn square_u128(s: u128) -> (r: Wide)
    ensures
        wval(r) == s * s,
{
    let a1: u128 = s / RADIX;
    let a0: u128 = s % RADIX;
    proof {
        lemma_mul_limb_bound(a1 as int, a1 as int);
        lemma_mul_limb_bound(a1 as int, a0 as int);
        lemma_mul_limb_bound(a0 as int, a0 as int);
    }
    let hh: u128 = a1 * a1;
    let hl: u128 = a1 * a0;
    let ll: u128 = a0 * a0;
    proof {
        assert(s * s == ((a1 * a1) * p64()) * p64() + ((a1 * a0) * p64() + (a1 * a0) * p64()) + a0
            * a0) by (nonlinear_arith)
            requires
                s == a1 * p64() + a0,
        ;
    }
    let w_ll = Wide::from_u128(ll);
    let w_hl = Wide::from_u128(hl).shift_limb();
    let w_hh = Wide::from_u128(hh).shift_limb().shift_limb();
    w_ll.add(&w_hl).add(&w_hl).add(&w_hh)
}

/// The floor of `n / d`, found by binary search below a caller-supplied
/// bound on the quotient.
pub fn div_floor_bounded(n: &Wide, d: &Wide, bound: u64) -> (q: u64)
    requires
        wval(*d) > 0,
        wval(*n) < bound * wval(*d),
    ensures
        q == wval(*n) / wval(*d),
        q < bound,
{
    broadcast use vstd::arithmetic::mul::lemma_mul_is_commutative;

    let mut lo: u64 = 0;
    let mut hi: u64 = bound;
    proof {
        if bound == 0 {
            assert(wval(*n) < 0);
        }
        lemma_wval_range(*n);
    }
    while hi - lo > 1
        invariant
            lo < hi,
            hi <= bound,
            wval(*d) > 0,
            wval(*n) < p384(),
            lo * wval(*d) <= wval(*n),
            wval(*n) < hi * wval(*d),
        decreases hi - lo,
    {
        let mid = lo + (hi - lo) / 2;
        proof {
            vstd::arithmetic::mul::lemma_mul_is_commutative(mid as int, wval(*d));
        }
        match d.mul_u64(mid) {
            Some(p) => {
                if p.le(n) {
                    lo = mid;
                } else {
                    hi = mid;
                }
            },
            None => {
                hi = mid;
            },
        }
    }
    proof {
        assert(wval(*n) < (lo + 1) * wval(*d));
        assert((lo + 1) * wval(*d) == lo * wval(*d) + wval(*d)) by (nonlinear_arith);
        lemma_fundamental_div_mod_converse_div(
            wval(*n),
            wval(*d),
            lo as int,
            wval(*n) - lo * wval(*d),
        );
    }
    lo
}

/// Multiplying the lesser side of a strict inequality by a positive factor
/// keeps it strict: from `a < k * b`, conclude `m * a < (m * k) * b`.
pub proof fn lemma_scale_strict(a: int, b: int, k: int, m: int)
    requires
        a < k * b,
        m > 0,
    ensures
        m * a < (m * k) * b,
{
    assert(m * a < (m * k) * b) by (nonlinear_arith)
        requires
            a < k * b,
            m > 0,
    ;
}

} // verus!
