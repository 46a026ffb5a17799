use bolted_joint::error::GeometryError;
use bolted_joint::quantity::{Quantity, MAX_DENSITY, MAX_DIMENSION, SCALE};
use bolted_joint::wide::Wide;

fn value_of(q: Quantity) -> f64 {
    q.attos() as f64 / 1e18
}

#[test]
fn quantities_count_quintillionths() {
    assert_eq!(Quantity::from_units(60).attos(), 60_000_000_000_000_000_000);
    assert_eq!(Quantity::from_units(-3).attos(), -3_000_000_000_000_000_000);
    assert_eq!(Quantity::from_millionths(1_750_000).attos(), 1_750_000_000_000_000_000);
    assert_eq!(Quantity::from_millionths(-1).attos(), -1_000_000_000_000);
    assert_eq!(Quantity::from_attos(17).attos(), 17);
    assert_eq!(Quantity::from_units(1).attos(), SCALE);
    assert_eq!(Quantity::from_attos(5), Quantity { attos: 5 });
    assert_eq!(Quantity::from_units(i64::MAX).attos(), i64::MAX as i128 * SCALE);
}

#[test]
fn dimensions_are_positive_and_bounded() {
    assert!(Quantity::from_attos(1).is_dimension());
    assert!(Quantity::from_attos(MAX_DIMENSION).is_dimension());
    assert!(Quantity::from_units(10_000).is_dimension());
    assert!(!Quantity::from_attos(0).is_dimension());
    assert!(!Quantity::from_attos(-1).is_dimension());
    assert!(!Quantity::from_attos(MAX_DIMENSION + 1).is_dimension());
    assert_eq!(Quantity::from_attos(7).check_dimension(), Ok(()));
    assert_eq!(Quantity::from_attos(0).check_dimension(), Err(GeometryError::NonPositive));
    assert_eq!(
        Quantity::from_attos(MAX_DIMENSION + 1).check_dimension(),
        Err(GeometryError::TooLarge)
    );
}

#[test]
fn circle_area_is_pi_d_squared_over_four() {
    let a = Quantity::from_millionths(8_160_000).circle_area();
    assert_eq!(a.attos(), 52_296_207_948_717_130_195);
    let exact = std::f64::consts::PI * 8.16 * 8.16 / 4.0;
    assert!((value_of(a) - exact).abs() <= 1e-12 * exact);
    assert_eq!(Quantity::from_units(2).circle_area().attos(), 3_141_592_653_589_793_000);
    assert_eq!(Quantity::from_attos(1).circle_area().attos(), 0);
}

#[test]
fn twice_the_diameter_gives_four_times_the_area() {
    let a = Quantity::from_millionths(8_160_000).circle_area();
    let b = Quantity::from_millionths(16_320_000).circle_area();
    assert_eq!(b.attos(), 209_184_831_794_868_520_780);
    assert!(b.attos() >= 4 * a.attos() && b.attos() <= 4 * a.attos() + 3);
    assert!((value_of(b) - 4.0 * value_of(a)).abs() <= 1e-12 * value_of(b));
    for d in [1i128, 3, 999, 123_456_789_012_345_678, 4_999_999_999_999_999_999_999] {
        let a = Quantity::from_attos(d).circle_area().attos();
        let b = Quantity::from_attos(2 * d).circle_area().attos();
        assert!(b >= 4 * a && b <= 4 * a + 3);
    }
}

#[test]
fn circle_area_of_the_largest_dimension() {
    let a = Quantity::from_attos(MAX_DIMENSION).circle_area();
    assert_eq!(a.attos(), 78_539_816_339_744_825_000_000_000);
}

#[test]
fn cylinder_mass_is_density_times_volume() {
    let rho = Quantity::from_units(7850);
    let m = rho.cylinder_mass(&Quantity::from_millionths(10_000), &Quantity::from_millionths(50_000));
    assert_eq!(m.attos(), 30_826_877_913_349_843);
    let exact = 7850.0 * std::f64::consts::PI * 0.005 * 0.005 * 0.05;
    assert!((value_of(m) - exact).abs() <= 1e-12 * exact);
    let m = rho.cylinder_mass(&Quantity::from_units(10), &Quantity::from_units(50));
    assert_eq!(m.attos(), 30_826_877_913_349_843_812_500_000);
    let one = Quantity::from_units(1);
    assert_eq!(one.cylinder_mass(&Quantity::from_units(2), &one).attos(), 3_141_592_653_589_793_000);
}

#[test]
fn cylinder_mass_at_the_limits() {
    let m = Quantity::from_attos(MAX_DENSITY)
        .cylinder_mass(&Quantity::from_attos(MAX_DIMENSION), &Quantity::from_attos(MAX_DIMENSION));
    assert_eq!(m.attos(), 78_539_816_339_744_825_000_000_000_000_000_000_000);
    let least = Quantity::from_attos(1)
        .cylinder_mass(&Quantity::from_attos(1), &Quantity::from_attos(1));
    assert_eq!(least.attos(), 0);
}

#[test]
fn wide_products_and_quotients_are_exact() {
    let max = u64::MAX;
    let w = Wide::from_u64(max).mul_small(max).mul_small(max).mul_small(max);
    assert_eq!(w.to_u128(), None);
    let back = w.div_small(max).div_small(max);
    assert_eq!(back.to_u128(), Some(max as u128 * max as u128));
    let q = Wide::from_u64(1_000_000_007).mul_small(998_244_353).div_small(10);
    assert_eq!(q.to_u128(), Some(1_000_000_007u128 * 998_244_353 / 10));
    assert_eq!(Wide::from_u64(7).div_small(8).to_u128(), Some(0));
    let big = Wide::from_u64(max).mul_small(max).mul_small(9).div_small(7);
    assert_eq!(big.to_u128(), None);
    assert_eq!(big.div_small(max).to_u128(), Some((max as u128 * 9) / 7));
}

#[test]
fn wide_limbs_are_least_significant_first() {
    let w = Wide::from_u64(u64::MAX).mul_small(2);
    assert_eq!((w.l0, w.l1, w.l2, w.l3, w.l4, w.l5), (u64::MAX - 1, 1, 0, 0, 0, 0));
    assert_eq!(w.to_u128(), Some(u64::MAX as u128 * 2));
    let v = Wide::from_u128(u128::MAX);
    assert_eq!((v.l0, v.l1, v.l2, v.l3, v.l4, v.l5), (u64::MAX, u64::MAX, 0, 0, 0, 0));
    assert_eq!(v.to_u128(), Some(u128::MAX));
    let s = Wide::from_u64(5).shift_limb();
    assert_eq!((s.l0, s.l1, s.l2), (0, 5, 0));
    assert_eq!(s.to_u128(), Some(5u128 << 64));
}

#[test]
fn wide_sums_carry_across_limbs() {
    let a = Wide::from_u128(u128::MAX);
    let b = Wide::from_u64(1);
    let s = a.add(b);
    assert_eq!((s.l0, s.l1, s.l2, s.l3), (0, 0, 1, 0));
    assert_eq!(s.to_u128(), None);
    assert_eq!(s.div_small(2).to_u128(), Some(1u128 << 127));
    let t = Wide::from_u128(12_345).add(Wide::from_u128(67_890));
    assert_eq!(t.to_u128(), Some(80_235));
}

#[test]
fn wide_products_by_a_double_word() {
    let m = 10_000_000_000_000_000_000_000u128;
    let p = Wide::from_u64(3).mul(m);
    assert_eq!(p.to_u128(), Some(3 * m));
    let q = Wide::from_u128(m).mul(m).mul(m);
    assert_eq!(q.to_u128(), None);
    let back = q
        .div_small(10_000_000_000_000_000_000)
        .div_small(10_000_000_000_000_000_000)
        .div_small(10_000_000_000_000_000_000);
    assert_eq!(back.to_u128(), Some(1_000_000_000u128));
    let r = Wide::from_u128(u128::MAX).mul(u128::MAX).mul(u128::MAX);
    let half = r.div_small(u64::MAX).div_small(u64::MAX).div_small(u64::MAX);
    assert_eq!(half.to_u128(), None);
    assert_eq!(Wide::from_u64(0).mul(u128::MAX).to_u128(), Some(0));
    assert_eq!(Wide::from_u64(1).mul(u128::MAX).to_u128(), Some(u128::MAX));
}
