//! Fixed-point magnitudes and the closed forms computed from them.
//!
//! A [`Quantity`] counts quintillionths (10^-18) of whatever unit its field
//! is measured in. Sums and differences are exact. A product or quotient is
//! formed exactly and rounded down once, to the next quintillionth, so each
//! derived value is the floor of its closed form: for a value of a
//! millionth of a unit or more, that is within one part in 10^12.

use vstd::prelude::*;
use vstd::arithmetic::div_mod::lemma_div_denominator;
use vstd::arithmetic::div_mod::lemma_div_is_ordered;
use vstd::arithmetic::div_mod::lemma_fundamental_div_mod;
use vstd::arithmetic::div_mod::lemma_fundamental_div_mod_converse;
use crate::wide::Wide;
use crate::error::GeometryError;

verus! {

/// Quintillionths per unit, 10^18.
pub const SCALE: i128 = 1_000_000_000_000_000_000;

/// The largest dimension the model accepts: ten thousand units.
pub const MAX_DIMENSION: i128 = 10_000_000_000_000_000_000_000;

/// The largest density the model accepts: a hundred million units.
pub const MAX_DENSITY: i128 = 100_000_000_000_000_000_000_000_000;

/// Numerator of the value used for pi, 3.141592653589793.
pub const PI_NUMERATOR: u64 = 3_141_592_653_589_793;

/// Denominator of the value used for pi.
pub const PI_DENOMINATOR: u64 = 1_000_000_000_000_000;

/// A magnitude in quintillionths of its unit.
#[derive(Clone, Copy, Debug, PartialEq, Eq, Structural)]
pub struct Quantity {
    pub attos: i128,
}

impl View for Quantity {
    type V = int;

    open spec fn view(&self) -> int {
        self.attos as int
    }
}

/// A length, diameter or thickness the model accepts.
pub open spec fn is_dimension(q: int) -> bool {
    0 < q <= MAX_DIMENSION
}

/// Why `q` is no dimension, if it is none.
pub open spec fn dimension_fault(q: int) -> Option<GeometryError> {
    if q <= 0 {
        Some(GeometryError::NonPositive)
    } else if q > MAX_DIMENSION {
        Some(GeometryError::TooLarge)
    } else {
        None
    }
}

/// The fault of an optional dimension; an absent one has none.
pub open spec fn optional_dimension_fault(q: Option<Quantity>) -> Option<GeometryError> {
    match q {
        Some(v) => dimension_fault(v@),
        None => None,
    }
}

/// The first fault of two checks.
pub open spec fn first_fault(a: Option<GeometryError>, b: Option<GeometryError>) -> Option<
    GeometryError,
> {
    if a is Some {
        a
    } else {
        b
    }
}

/// The divisor that takes `pi_numerator * d * d` to an area.
pub open spec fn area_divisor() -> int {
    4 * PI_DENOMINATOR * SCALE
}

/// The divisor that takes `density * pi_numerator * d * d * length` to a
/// mass.
pub open spec fn mass_divisor() -> int {
    4 * PI_DENOMINATOR * SCALE * SCALE * SCALE
}

/// Area of a circle of diameter `d`, pi d^2 / 4, rounded down.
pub open spec fn circle_area(d: int) -> int {
    (PI_NUMERATOR * d * d) / area_divisor()
}

/// Mass of a solid cylinder, density pi (d/2)^2 length, rounded down.
pub open spec fn cylinder_mass(density: int, d: int, length: int) -> int {
    (density * PI_NUMERATOR * d * d * length) / mass_divisor()
}

impl Quantity {
    /// The quantity of `attos` quintillionths.
    pub fn from_attos(attos: i128) -> (q: Quantity)
        ensures
            q@ == attos,
    {
        Quantity { attos }
    }

    /// The quantity of `millionths` millionths of a unit.
    pub fn from_millionths(millionths: i64) -> (q: Quantity)
        ensures
            q@ == millionths * 1_000_000_000_000,
    {
        Quantity { attos: (millionths as i128) * 1_000_000_000_000 }
    }

    /// The quantity of `units` whole units.
    pub fn from_units(units: i64) -> (q: Quantity)
        ensures
            q@ == units * SCALE,
    {
        Quantity { attos: (units as i128) * SCALE }
    }

    /// The number of quintillionths.
    pub fn attos(&self) -> (a: i128)
        ensures
            a == self@,
    {
        self.attos
    }

    /// Whether this is an acceptable dimension.
    pub fn is_dimension(&self) -> (b: bool)
        ensures
            b == is_dimension(self@),
    {
        0 < self.attos && self.attos <= MAX_DIMENSION
    }

    /// Checks this as a dimension.
    pub fn check_dimension(&self) -> (r: Result<(), GeometryError>)
        ensures
            r is Ok <==> is_dimension(self@),
            r matches Err(e) ==> dimension_fault(self@) == Some(e),
            r is Ok ==> dimension_fault(self@) is None,
    {
        if self.attos <= 0 {
            Err(GeometryError::NonPositive)
        } else if self.attos > MAX_DIMENSION {
            Err(GeometryError::TooLarge)
        } else {
            Ok(())
        }
    }

    /// The area of the circle whose diameter this is.
    pub fn circle_area(&self) -> (a: Quantity)
        requires
            is_dimension(self@),
        ensures
            a@ == circle_area(self@),
    {
        let d: u128 = self.attos as u128;
        let ghost dim = MAX_DIMENSION as int;
        let ghost p = 3_141_592_653_589_793int;
        proof {
            lemma_product_fits(PI_NUMERATOR as int, d as int, p, dim);
            lemma_product_fits(PI_NUMERATOR * d, d as int, p * dim, dim);
            assert(p * dim * dim < crate::wide::capacity());
        }
        let n = Wide::from_u64(PI_NUMERATOR).mul(d).mul(d);
        let q = n.div_small(4 * PI_DENOMINATOR).div_small(1_000_000_000_000_000_000);
        proof {
            lemma_div_denominator(n@, 4 * PI_DENOMINATOR as int, SCALE as int);
            lemma_div_is_ordered(n@, p * dim * dim, area_divisor());
        }
        match q.to_u128() {
            Some(v) => Quantity { attos: v as i128 },
            None => Quantity { attos: 0 },
        }
    }

    /// The mass of a solid cylinder of this density, with diameter `d` and
    /// the given length.
    pub fn cylinder_mass(&self, d: &Quantity, length: &Quantity) -> (m: Quantity)
        requires
            0 < self@ <= MAX_DENSITY,
            is_dimension(d@),
            is_dimension(length@),
        ensures
            m@ == cylinder_mass(self@, d@, length@),
    {
        let rho: u128 = self.attos as u128;
        let dd: u128 = d.attos as u128;
        let ll: u128 = length.attos as u128;
        let ghost dim = MAX_DIMENSION as int;
        let ghost b1 = MAX_DENSITY as int * 3_141_592_653_589_793int;
        proof {
            lemma_product_fits(rho as int, PI_NUMERATOR as int, MAX_DENSITY as int, 3_141_592_653_589_793);
            lemma_product_fits(rho * PI_NUMERATOR, dd as int, b1, dim);
            lemma_product_fits(rho * PI_NUMERATOR * dd, dd as int, b1 * dim, dim);
            lemma_product_fits(rho * PI_NUMERATOR * dd * dd, ll as int, b1 * dim * dim, dim);
            assert(b1 * dim * dim * dim < crate::wide::capacity());
        }
        let n = Wide::from_u128(rho).mul_small(PI_NUMERATOR).mul(dd).mul(dd).mul(ll);
        let q1 = n.div_small(4 * PI_DENOMINATOR);
        let q2 = q1.div_small(1_000_000_000_000_000_000);
        let q3 = q2.div_small(1_000_000_000_000_000_000);
        let q = q3.div_small(1_000_000_000_000_000_000);
        proof {
            let s = SCALE as int;
            let k = 4 * PI_DENOMINATOR as int;
            lemma_div_denominator(n@, k, s);
            lemma_div_denominator(n@, k * s, s);
            lemma_div_denominator(n@, k * s * s, s);
            assert(k * s * s * s == mass_divisor());
            lemma_div_is_ordered(n@, b1 * dim * dim * dim, mass_divisor());
        }
        match q.to_u128() {
            Some(v) => Quantity { attos: v as i128 },
            None => Quantity { attos: 0 },
        }
    }
}

/// A product of bounded naturals is bounded by the product of the bounds.
proof fn lemma_product_fits(x: int, y: int, x_max: int, y_max: int)
    by (nonlinear_arith)
    requires
        0 <= x <= x_max,
        0 <= y <= y_max,
    ensures
        0 <= x * y <= x_max * y_max,
{
}

/// A floor quotient `q = n / k` brackets the exact one, and from `q >=
/// 10^12` on lies within one part in 10^12 of it.
proof fn lemma_floor_is_close(n: int, k: int)
    requires
        k > 0,
    ensures
        (n / k) * k <= n < (n / k + 1) * k,
        n / k >= 1_000_000_000_000 ==> (n - (n / k) * k) * 1_000_000_000_000 < (n / k) * k,
{
    let q = n / k;
    lemma_fundamental_div_mod(n, k);
    assert(k * q == q * k && (q + 1) * k == q * k + k) by (nonlinear_arith);
    if q >= 1_000_000_000_000 {
        assert((n - q * k) * 1_000_000_000_000 < q * k) by (nonlinear_arith)
            requires
                0 <= n - q * k < k,
                q >= 1_000_000_000_000,
                k > 0,
        ;
    }
}

/// The stored area is the exact one, `pi d^2 / 4`, rounded down to the next
/// quintillionth. An area of a millionth of a square unit or more is
/// therefore within one part in 10^12 of the exact one.
pub proof fn law_circle_area_rounds_down(d: int)
    ensures
        circle_area(d) * area_divisor() <= PI_NUMERATOR * d * d < (circle_area(d) + 1)
            * area_divisor(),
        circle_area(d) >= 1_000_000_000_000 ==> (PI_NUMERATOR * d * d - circle_area(d)
            * area_divisor()) * 1_000_000_000_000 < circle_area(d) * area_divisor(),
{
    lemma_floor_is_close(PI_NUMERATOR * d * d, area_divisor());
}

/// The stored mass is the exact one, `density pi (d/2)^2 length`, rounded
/// down to the next quintillionth. A mass of a millionth of a unit or more
/// is therefore within one part in 10^12 of the exact one.
pub proof fn law_cylinder_mass_rounds_down(density: int, d: int, length: int)
    ensures
        cylinder_mass(density, d, length) * mass_divisor() <= density * PI_NUMERATOR * d * d
            * length < (cylinder_mass(density, d, length) + 1) * mass_divisor(),
        cylinder_mass(density, d, length) >= 1_000_000_000_000 ==> (density * PI_NUMERATOR * d * d
            * length - cylinder_mass(density, d, length) * mass_divisor()) * 1_000_000_000_000
            < cylinder_mass(density, d, length) * mass_divisor(),
{
    lemma_floor_is_close(density * PI_NUMERATOR * d * d * length, mass_divisor());
}

/// The area of a circle does not shrink as its diameter grows. From a
/// diameter of 0.63662 units on, where one quintillionth more of diameter
/// adds more than a quintillionth of area, it grows strictly.
pub proof fn law_circle_area_monotone(d1: int, d2: int)
    requires
        0 <= d1 <= d2,
    ensures
        0 <= circle_area(d1) <= circle_area(d2),
        636_619_772_367_581_391 <= d1 < d2 ==> circle_area(d1) < circle_area(d2),
{
    let p = PI_NUMERATOR as int;
    let k = area_divisor();
    let n1 = p * d1 * d1;
    let n2 = p * d2 * d2;
    assert(0 <= n1 <= n2) by (nonlinear_arith)
        requires
            0 <= d1 <= d2,
            p > 0,
            n1 == p * d1 * d1,
            n2 == p * d2 * d2,
    ;
    lemma_div_is_ordered(n1, n2, k);
    lemma_div_is_ordered(0, n1, k);
    if 636_619_772_367_581_391 <= d1 < d2 {
        assert(n2 >= n1 + p * 1_273_239_544_735_162_783) by (nonlinear_arith)
            requires
                636_619_772_367_581_391 <= d1,
                d1 + 1 <= d2,
                p > 0,
                n1 == p * d1 * d1,
                n2 == p * d2 * d2,
        ;
        assert(n1 + k <= n2);
        lemma_div_is_ordered(n1 + k, n2, k);
        lemma_fundamental_div_mod(n1, k);
        assert((n1 / k + 1) * k == k * (n1 / k) + k) by (nonlinear_arith);
        lemma_fundamental_div_mod_converse(n1 + k, k, n1 / k + 1, n1 % k);
    }
}

/// The area is quadratic in the diameter: twice the diameter gives four
/// times the area, but for what each area lost when it was rounded down,
/// which is less than four quintillionths.
pub proof fn law_circle_area_quadruples(d: int)
    ensures
        4 * circle_area(d) <= circle_area(2 * d) <= 4 * circle_area(d) + 3,
{
    let k = area_divisor();
    let n = PI_NUMERATOR * d * d;
    assert(PI_NUMERATOR * (2 * d) * (2 * d) == 4 * n) by (nonlinear_arith)
        requires
            n == PI_NUMERATOR * d * d,
    ;
    lemma_fundamental_div_mod(n, k);
    lemma_fundamental_div_mod(4 * n, k);
    let q = n / k;
    let q4 = (4 * n) / k;
    assert(4 * q <= q4 <= 4 * q + 3) by (nonlinear_arith)
        requires
            n == k * q + n % k,
            4 * n == k * q4 + (4 * n) % k,
            0 <= n % k < k,
            0 <= (4 * n) % k < k,
            k > 0,
    ;
}

} // verus!
