//! Exact arithmetic on naturals below 2^384, held as six 64-bit limbs.
//!
//! The derived quantities of this crate are quotients of products of up to
//! five stored magnitudes. Such a product does not fit a machine word, so it
//! is formed here limb by limb and divided exactly; only the final quotient
//! is narrowed again.

use vstd::prelude::*;
use vstd::arithmetic::div_mod::lemma_fundamental_div_mod;
use vstd::arithmetic::div_mod::lemma_fundamental_div_mod_converse;

verus! {

/// The limb base, 2^64.
pub open spec fn base() -> int {
    0x1_0000_0000_0000_0000
}

/// The first value that six limbs cannot hold, 2^384.
pub open spec fn capacity() -> int {
    base() * base() * base() * base() * base() * base()
}

/// A natural number below 2^384, least significant limb first.
#[derive(Clone, Copy, Debug)]
pub struct Wide {
    pub l0: u64,
    pub l1: u64,
    pub l2: u64,
    pub l3: u64,
    pub l4: u64,
    pub l5: u64,
}

/// The number that six limbs denote.
pub open spec fn limbs_value(l0: int, l1: int, l2: int, l3: int, l4: int, l5: int) -> int {
    l0 + base() * (l1 + base() * (l2 + base() * (l3 + base() * (l4 + base() * l5))))
}

impl View for Wide {
    type V = int;

    open spec fn view(&self) -> int {
        limbs_value(
            self.l0 as int,
            self.l1 as int,
            self.l2 as int,
            self.l3 as int,
            self.l4 as int,
            self.l5 as int,
        )
    }
}

/// `x * y` stays below 2^128 for 64-bit `x` and `y`, with room for a carry.
proof fn lemma_limb_product(x: u64, y: u64)
    ensures
        0 <= (x as int) * (y as int) <= 0xFFFF_FFFF_FFFF_FFFE_0000_0000_0000_0001,
{
    assert(0 <= (x as int) * (y as int) <= 0xFFFF_FFFF_FFFF_FFFF * 0xFFFF_FFFF_FFFF_FFFF)
        by (nonlinear_arith)
        requires
            0 <= x <= 0xFFFF_FFFF_FFFF_FFFF,
            0 <= y <= 0xFFFF_FFFF_FFFF_FFFF,
    ;
}

/// One more limb below a bounded tail: `limb + 2^64 * tail` is bounded by
/// `2^64 * bound`.
proof fn lemma_tail_bound(limb: int, tail: int, bound: int)
    by (nonlinear_arith)
    requires
        0 <= limb < base(),
        0 <= tail < bound,
    ensures
        0 <= limb + base() * tail < base() * bound,
{
}

/// A number whose tail above the lowest limb is not zero is at least 2^64
/// times that tail.
proof fn lemma_tail_weight(limb: int, tail: int, floor: int)
    by (nonlinear_arith)
    requires
        0 <= limb,
        0 <= floor <= tail,
    ensures
        limb + base() * tail >= base() * floor,
{
}

/// Multiplying limb by limb keeps `result == value * m + carry_in`, one limb
/// further down.
proof fn lemma_product_step(
    high_r: int,
    high: int,
    carry: int,
    r: int,
    limb: int,
    carry_in: int,
    m: int,
)
    by (nonlinear_arith)
    requires
        high_r == high * m + carry,
        limb * m + carry_in == r + base() * carry,
    ensures
        r + base() * high_r == (limb + base() * high) * m + carry_in,
{
}

/// Long division keeps `dividend == d * quotient + remainder` when one more
/// limb is brought down.
proof fn lemma_division_step(high: int, high_q: int, high_r: int, limb: int, q: int, r: int, d: int)
    by (nonlinear_arith)
    requires
        high == d * high_q + high_r,
        high_r * base() + limb == d * q + r,
    ensures
        limb + base() * high == d * (q + base() * high_q) + r,
{
}

/// One step of long division: the partial dividend `n = rem * 2^64 + limb`
/// with `rem < d` has a quotient that fits a limb.
proof fn lemma_quotient_limb(n: int, d: int, q: int, r: int)
    by (nonlinear_arith)
    requires
        0 < d < base(),
        0 <= n < d * base(),
        n == d * q + r,
        0 <= r < d,
    ensures
        0 <= q < base(),
{
}

impl Wide {
    /// Every `Wide` denotes a natural number below the capacity.
    pub proof fn lemma_bounds(self)
        ensures
            0 <= self@ < capacity(),
    {
        let b = base();
        let t4 = self.l4 + b * self.l5;
        let t3 = self.l3 + b * t4;
        let t2 = self.l2 + b * t3;
        let t1 = self.l1 + b * t2;
        lemma_tail_bound(self.l4 as int, self.l5 as int, b);
        lemma_tail_bound(self.l3 as int, t4, b * b);
        lemma_tail_bound(self.l2 as int, t3, b * (b * b));
        lemma_tail_bound(self.l1 as int, t2, b * (b * (b * b)));
        lemma_tail_bound(self.l0 as int, t1, b * (b * (b * (b * b))));
        assert(b * (b * (b * (b * (b * b)))) == capacity());
    }

    /// A value below 2^320 has an empty top limb.
    pub proof fn lemma_top_limb_empty(self)
        requires
            self@ < base() * base() * base() * base() * base(),
        ensures
            self.l5 == 0,
    {
        let b = base();
        if self.l5 > 0 {
            let t4 = self.l4 + b * self.l5;
            let t3 = self.l3 + b * t4;
            let t2 = self.l2 + b * t3;
            let t1 = self.l1 + b * t2;
            lemma_tail_weight(self.l4 as int, self.l5 as int, 1);
            lemma_tail_weight(self.l3 as int, t4, b);
            lemma_tail_weight(self.l2 as int, t3, b * b);
            lemma_tail_weight(self.l1 as int, t2, b * (b * b));
            lemma_tail_weight(self.l0 as int, t1, b * (b * (b * b)));
            assert(b * (b * (b * (b * b))) == b * b * b * b * b);
        }
    }

    /// The number `x`.
    pub fn from_u64(x: u64) -> (r: Wide)
        ensures
            r@ == x,
    {
        Wide { l0: x, l1: 0, l2: 0, l3: 0, l4: 0, l5: 0 }
    }

    /// The number `x`.
    pub fn from_u128(x: u128) -> (r: Wide)
        ensures
            r@ == x,
    {
        let b: u128 = 0x1_0000_0000_0000_0000;
        Wide { l0: (x % b) as u64, l1: (x / b) as u64, l2: 0, l3: 0, l4: 0, l5: 0 }
    }

    /// The product `self * m`, which the caller shows to fit.
    pub fn mul_small(self, m: u64) -> (r: Wide)
        requires
            self@ * m < capacity(),
        ensures
            r@ == self@ * m,
    {
        let b: u128 = 0x1_0000_0000_0000_0000;
        proof {
            lemma_limb_product(self.l0, m);
            lemma_limb_product(self.l1, m);
            lemma_limb_product(self.l2, m);
            lemma_limb_product(self.l3, m);
            lemma_limb_product(self.l4, m);
            lemma_limb_product(self.l5, m);
        }
        let t0: u128 = (self.l0 as u128) * (m as u128);
        let t1: u128 = (self.l1 as u128) * (m as u128) + t0 / b;
        let t2: u128 = (self.l2 as u128) * (m as u128) + t1 / b;
        let t3: u128 = (self.l3 as u128) * (m as u128) + t2 / b;
        let t4: u128 = (self.l4 as u128) * (m as u128) + t3 / b;
        let t5: u128 = (self.l5 as u128) * (m as u128) + t4 / b;
        let r = Wide {
            l0: (t0 % b) as u64,
            l1: (t1 % b) as u64,
            l2: (t2 % b) as u64,
            l3: (t3 % b) as u64,
            l4: (t4 % b) as u64,
            l5: (t5 % b) as u64,
        };
        proof {
            let bi = base();
            let mi = m as int;
            let c0 = (t0 / b) as int;
            let c1 = (t1 / b) as int;
            let c2 = (t2 / b) as int;
            let c3 = (t3 / b) as int;
            let c4 = (t4 / b) as int;
            let c5 = (t5 / b) as int;
            // the limbs of `self` and of the result, from the top down
            let a5 = self.l5 as int;
            let a4 = self.l4 + bi * a5;
            let a3 = self.l3 + bi * a4;
            let a2 = self.l2 + bi * a3;
            let a1 = self.l1 + bi * a2;
            let x5 = r.l5 + bi * c5;
            let x4 = r.l4 + bi * x5;
            let x3 = r.l3 + bi * x4;
            let x2 = r.l2 + bi * x3;
            let x1 = r.l1 + bi * x2;
            let x0 = r.l0 + bi * x1;
            assert(x5 == a5 * mi + c4);
            lemma_product_step(x5, a5, c4, r.l4 as int, self.l4 as int, c3, mi);
            lemma_product_step(x4, a4, c3, r.l3 as int, self.l3 as int, c2, mi);
            lemma_product_step(x3, a3, c2, r.l2 as int, self.l2 as int, c1, mi);
            lemma_product_step(x2, a2, c1, r.l1 as int, self.l1 as int, c0, mi);
            lemma_product_step(x1, a1, c0, r.l0 as int, self.l0 as int, 0, mi);
            assert(x0 == self@ * mi);
            if c5 > 0 {
                lemma_tail_weight(r.l5 as int, c5, 1);
                lemma_tail_weight(r.l4 as int, x5, bi);
                lemma_tail_weight(r.l3 as int, x4, bi * bi);
                lemma_tail_weight(r.l2 as int, x3, bi * (bi * bi));
                lemma_tail_weight(r.l1 as int, x2, bi * (bi * (bi * bi)));
                lemma_tail_weight(r.l0 as int, x1, bi * (bi * (bi * (bi * bi))));
                assert(bi * (bi * (bi * (bi * (bi * bi)))) == capacity());
                assert(false);
            }
            assert(x5 == r.l5);
        }
        r
    }

    /// The sum `self + other`, which the caller shows to fit.
    pub fn add(self, other: Wide) -> (r: Wide)
        requires
            self@ + other@ < capacity(),
        ensures
            r@ == self@ + other@,
    {
        let b: u128 = 0x1_0000_0000_0000_0000;
        let t0: u128 = self.l0 as u128 + other.l0 as u128;
        let t1: u128 = self.l1 as u128 + other.l1 as u128 + t0 / b;
        let t2: u128 = self.l2 as u128 + other.l2 as u128 + t1 / b;
        let t3: u128 = self.l3 as u128 + other.l3 as u128 + t2 / b;
        let t4: u128 = self.l4 as u128 + other.l4 as u128 + t3 / b;
        let t5: u128 = self.l5 as u128 + other.l5 as u128 + t4 / b;
        let r = Wide {
            l0: (t0 % b) as u64,
            l1: (t1 % b) as u64,
            l2: (t2 % b) as u64,
            l3: (t3 % b) as u64,
            l4: (t4 % b) as u64,
            l5: (t5 % b) as u64,
        };
        proof {
            let bi = base();
            let c5 = (t5 / b) as int;
            let x5 = r.l5 + bi * c5;
            let x4 = r.l4 + bi * x5;
            let x3 = r.l3 + bi * x4;
            let x2 = r.l2 + bi * x3;
            let x1 = r.l1 + bi * x2;
            let x0 = r.l0 + bi * x1;
            assert(x0 == self@ + other@);
            if c5 > 0 {
                lemma_tail_weight(r.l5 as int, c5, 1);
                lemma_tail_weight(r.l4 as int, x5, bi);
                lemma_tail_weight(r.l3 as int, x4, bi * bi);
                lemma_tail_weight(r.l2 as int, x3, bi * (bi * bi));
                lemma_tail_weight(r.l1 as int, x2, bi * (bi * (bi * bi)));
                lemma_tail_weight(r.l0 as int, x1, bi * (bi * (bi * (bi * bi))));
                assert(bi * (bi * (bi * (bi * (bi * bi)))) == capacity());
                assert(false);
            }
        }
        r
    }

    /// The product `self * 2^64`, for a value whose top limb is empty.
    pub fn shift_limb(self) -> (r: Wide)
        requires
            self.l5 == 0,
        ensures
            r@ == self@ * base(),
    {
        Wide { l0: 0, l1: self.l0, l2: self.l1, l3: self.l2, l4: self.l3, l5: self.l4 }
    }

    /// The product `self * m` for a factor of up to 128 bits, which the
    /// caller shows to fit.
    pub fn mul(self, m: u128) -> (r: Wide)
        requires
            self@ * m < capacity(),
        ensures
            r@ == self@ * m,
    {
        let b: u128 = 0x1_0000_0000_0000_0000;
        let low: u64 = (m % b) as u64;
        let high: u64 = (m / b) as u64;
        proof {
            let bi = base();
            self.lemma_bounds();
            assert(self@ * m == self@ * low + (self@ * high) * bi && 0 <= self@ * low && 0
                <= self@ * high && (self@ * high) * bi == bi * (self@ * high)) by (nonlinear_arith)
                requires
                    m == low + bi * high,
                    0 <= self@,
                    0 <= low,
                    0 <= high,
            ;
            assert(self@ * high < bi * bi * bi * bi * bi) by (nonlinear_arith)
                requires
                    bi * (self@ * high) < bi * bi * bi * bi * bi * bi,
                    bi > 0,
            ;
            assert(bi * bi * bi * bi * bi < capacity());
        }
        let part_low = self.mul_small(low);
        let part_high = self.mul_small(high);
        proof {
            part_high.lemma_top_limb_empty();
        }
        part_low.add(part_high.shift_limb())
    }

    /// The quotient `self / d`, rounded down.
    pub fn div_small(self, d: u64) -> (r: Wide)
        requires
            d > 0,
        ensures
            r@ == self@ / (d as int),
    {
        let b: u128 = 0x1_0000_0000_0000_0000;
        let dd: u128 = d as u128;
        let n5: u128 = self.l5 as u128;
        let q5: u128 = n5 / dd;
        let r5: u128 = n5 % dd;
        let n4: u128 = r5 * b + self.l4 as u128;
        let q4: u128 = n4 / dd;
        let r4: u128 = n4 % dd;
        let n3: u128 = r4 * b + self.l3 as u128;
        let q3: u128 = n3 / dd;
        let r3: u128 = n3 % dd;
        let n2: u128 = r3 * b + self.l2 as u128;
        let q2: u128 = n2 / dd;
        let r2: u128 = n2 % dd;
        let n1: u128 = r2 * b + self.l1 as u128;
        let q1: u128 = n1 / dd;
        let r1: u128 = n1 % dd;
        let n0: u128 = r1 * b + self.l0 as u128;
        let q0: u128 = n0 / dd;
        let r0: u128 = n0 % dd;
        proof {
            let di = d as int;
            lemma_fundamental_div_mod(n5 as int, di);
            lemma_fundamental_div_mod(n4 as int, di);
            lemma_fundamental_div_mod(n3 as int, di);
            lemma_fundamental_div_mod(n2 as int, di);
            lemma_fundamental_div_mod(n1 as int, di);
            lemma_fundamental_div_mod(n0 as int, di);
            lemma_quotient_limb(n5 as int, di, q5 as int, r5 as int);
            lemma_quotient_limb(n4 as int, di, q4 as int, r4 as int);
            lemma_quotient_limb(n3 as int, di, q3 as int, r3 as int);
            lemma_quotient_limb(n2 as int, di, q2 as int, r2 as int);
            lemma_quotient_limb(n1 as int, di, q1 as int, r1 as int);
            lemma_quotient_limb(n0 as int, di, q0 as int, r0 as int);
        }
        let r = Wide {
            l0: q0 as u64,
            l1: q1 as u64,
            l2: q2 as u64,
            l3: q3 as u64,
            l4: q4 as u64,
            l5: q5 as u64,
        };
        proof {
            let bi = base();
            let di = d as int;
            let a5 = self.l5 as int;
            let a4 = self.l4 + bi * a5;
            let a3 = self.l3 + bi * a4;
            let a2 = self.l2 + bi * a3;
            let a1 = self.l1 + bi * a2;
            let k5 = q5 as int;
            let k4 = q4 + bi * k5;
            let k3 = q3 + bi * k4;
            let k2 = q2 + bi * k3;
            let k1 = q1 + bi * k2;
            lemma_division_step(a5, k5, r5 as int, self.l4 as int, q4 as int, r4 as int, di);
            lemma_division_step(a4, k4, r4 as int, self.l3 as int, q3 as int, r3 as int, di);
            lemma_division_step(a3, k3, r3 as int, self.l2 as int, q2 as int, r2 as int, di);
            lemma_division_step(a2, k2, r2 as int, self.l1 as int, q1 as int, r1 as int, di);
            lemma_division_step(a1, k1, r1 as int, self.l0 as int, q0 as int, r0 as int, di);
            assert(self@ == di * r@ + r0);
            assert(di * r@ == r@ * di) by (nonlinear_arith);
            lemma_fundamental_div_mod_converse(self@, di, r@, r0 as int);
        }
        r
    }

    /// The value as a machine word, where it fits one.
    pub fn to_u128(self) -> (r: Option<u128>)
        ensures
            r is Some <==> self@ <= u128::MAX,
            r matches Some(v) ==> v == self@,
    {
        if self.l2 == 0 && self.l3 == 0 && self.l4 == 0 && self.l5 == 0 {
            Some((self.l1 as u128) * 0x1_0000_0000_0000_0000 + self.l0 as u128)
        } else {
            proof {
                let bi = base();
                let t4 = self.l4 + bi * self.l5;
                let t3 = self.l3 + bi * t4;
                let t2 = self.l2 + bi * t3;
                let t1 = self.l1 + bi * t2;
                assert(t2 >= 1) by (nonlinear_arith)
                    requires
                        t2 == self.l2 + bi * (self.l3 + bi * (self.l4 + bi * self.l5)),
                        self.l2 > 0 || self.l3 > 0 || self.l4 > 0 || self.l5 > 0,
                        bi == 0x1_0000_0000_0000_0000,
                        0 <= self.l2,
                        0 <= self.l3,
                        0 <= self.l4,
                        0 <= self.l5,
                ;
                lemma_tail_weight(self.l1 as int, t2, 1);
                lemma_tail_weight(self.l0 as int, t1, bi);
            }
            None
        }
    }
}

} // verus!
