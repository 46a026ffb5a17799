use bolted_joint::error::GeometryError;
use bolted_joint::quantity::Quantity;
use bolted_joint::thread::{Thread, ThreadForm, ThreadHand, Unit};

fn mm(value: f64) -> Quantity {
    Quantity::from_millionths((value * 1e6).round() as i64)
}

fn as_units(q: Quantity) -> f64 {
    q.attos() as f64 / 1e18
}

#[test]
fn metric_m12_coarse_has_the_iso_root_diameter() {
    let t = Thread::new_metric(mm(12.0), mm(1.75), None, ThreadHand::Right, Some("6g".to_string()))
        .unwrap();
    assert_eq!(t.minor_diameter.attos(), 9_852_979_250_000_000_000);
    assert!((as_units(t.minor_diameter) - (12.0 - 1.226869 * 1.75)).abs() < 1e-12);
    assert!((as_units(t.minor_diameter) - 9.847).abs() < 1e-2);
    assert_eq!(t.depth().attos(), 1_073_510_375_000_000_000);
    assert!((as_units(t.depth()) - 1.226869 * 1.75 / 2.0).abs() < 1e-12);
    assert!((as_units(t.depth()) - 1.0765).abs() < 1e-2);
    assert_eq!(t.unit, Unit::Metric);
    assert_eq!(t.form, ThreadForm::ISO);
    assert_eq!(t.hand, ThreadHand::Right);
    assert_eq!(t.angle, Quantity::from_units(60));
    assert_eq!(t.threads_per_unit, None);
    assert_eq!(t.length, None);
    assert_eq!(t.tolerance_class.as_deref(), Some("6g"));
    assert_eq!(t.note, None);
    assert!(t.is_valid());
}

#[test]
fn metric_root_lies_below_crest_and_depth_is_half_the_difference() {
    let sizes = [(3.0, 0.5), (6.0, 1.0), (10.0, 1.5), (24.0, 3.0), (64.0, 6.0), (0.3, 0.08)];
    for (major, pitch) in sizes {
        let t = Thread::new_metric(mm(major), mm(pitch), None, ThreadHand::Left, None).unwrap();
        assert!(t.minor_diameter.attos() < t.major_diameter.attos());
        assert!(t.minor_diameter.attos() > 0);
        assert_eq!(
            t.depth().attos(),
            (t.major_diameter.attos() - t.minor_diameter.attos()) / 2
        );
        assert!((as_units(t.depth()) - 1.226869 * pitch / 2.0).abs() < 1e-12);
        assert!(t.depth().attos() > 0);
        assert_eq!(t.hand, ThreadHand::Left);
    }
}

#[test]
fn metric_thread_keeps_its_length_and_pitch() {
    let t = Thread::new_metric(mm(8.0), mm(1.25), Some(mm(30.0)), ThreadHand::Right, None).unwrap();
    assert_eq!(t.length, Some(mm(30.0)));
    assert_eq!(t.get_pitch(), mm(1.25));
    assert_eq!(t.major_diameter, mm(8.0));
}

#[test]
fn imperial_quarter_twenty_has_reciprocal_pitch() {
    let t = Thread::new_imperial(
        mm(0.25),
        Quantity::from_units(20),
        None,
        ThreadHand::Right,
        ThreadForm::UNC,
        Some("2A".to_string()),
    )
    .unwrap();
    assert_eq!(t.pitch.attos(), 50_000_000_000_000_000);
    assert_eq!(t.get_pitch().attos(), 50_000_000_000_000_000);
    assert_eq!(t.threads_per_unit, Some(Quantity::from_units(20)));
    assert_eq!(t.minor_diameter.attos(), 217_525_000_000_000_000);
    assert!((as_units(t.minor_diameter) - (0.25 - 0.6495 / 20.0)).abs() < 1e-12);
    assert_eq!(t.unit, Unit::Imperial);
    assert_eq!(t.form, ThreadForm::UNC);
    assert_eq!(t.angle, Quantity::from_units(60));
    assert_eq!(t.tolerance_class.as_deref(), Some("2A"));
    assert!(t.is_valid());
}

#[test]
fn imperial_pitch_is_the_reciprocal_rounded_down() {
    for tpi in [3i64, 4, 11, 13, 18, 28, 32, 80] {
        let t = Thread::new_imperial(
            mm(1.0),
            Quantity::from_units(tpi),
            None,
            ThreadHand::Right,
            ThreadForm::UNF,
            None,
        )
        .unwrap();
        let p = t.pitch.attos();
        let n = t.threads_per_unit.unwrap().attos();
        let one = 1_000_000_000_000_000_000_000_000_000_000_000_000i128;
        assert!(p * n <= one);
        assert!((p + 1) * n > one);
        let exact = 1.0 / tpi as f64;
        assert!((as_units(t.pitch) - exact).abs() <= 1e-12 * exact);
        assert_eq!(
            t.minor_diameter.attos(),
            (1_000_000_000_000_000_000 * 10_000 - 6_495 * p) / 10_000
        );
        let root = 1.0 - 0.6495 * exact;
        assert!((as_units(t.minor_diameter) - root).abs() <= 1e-12 * root);
    }
}

#[test]
fn thirteen_threads_per_inch_round_down() {
    let t = Thread::new_imperial(
        mm(0.5),
        Quantity::from_units(13),
        None,
        ThreadHand::Right,
        ThreadForm::UNC,
        None,
    )
    .unwrap();
    assert_eq!(t.pitch.attos(), 76_923_076_923_076_923);
    assert_eq!(t.minor_diameter.attos(), 450_038_461_538_461_538);
}

#[test]
fn non_positive_dimensions_are_refused() {
    let right = ThreadHand::Right;
    assert_eq!(
        Thread::new_metric(mm(0.0), mm(1.0), None, right, None).unwrap_err(),
        GeometryError::NonPositive
    );
    assert_eq!(
        Thread::new_metric(mm(-5.0), mm(1.0), None, right, None).unwrap_err(),
        GeometryError::NonPositive
    );
    assert_eq!(
        Thread::new_metric(mm(5.0), mm(0.0), None, right, None).unwrap_err(),
        GeometryError::NonPositive
    );
    assert_eq!(
        Thread::new_metric(mm(5.0), mm(0.8), Some(mm(-1.0)), right, None).unwrap_err(),
        GeometryError::NonPositive
    );
    assert_eq!(
        Thread::new_imperial(mm(0.25), mm(0.0), None, right, ThreadForm::UNC, None).unwrap_err(),
        GeometryError::NonPositive
    );
    assert_eq!(
        Thread::new_imperial(mm(-0.25), mm(20.0), None, right, ThreadForm::UNC, None)
            .unwrap_err(),
        GeometryError::NonPositive
    );
}

#[test]
fn dimensions_out_of_range_are_refused() {
    let right = ThreadHand::Right;
    assert_eq!(
        Thread::new_metric(mm(10_000.5), mm(1.0), None, right, None).unwrap_err(),
        GeometryError::TooLarge
    );
    assert_eq!(
        Thread::new_metric(mm(10.0), mm(2_000_000.0), None, right, None).unwrap_err(),
        GeometryError::TooLarge
    );
    assert_eq!(
        Thread::new_metric(mm(10.0), mm(1.5), Some(mm(3_000_000.0)), right, None).unwrap_err(),
        GeometryError::TooLarge
    );
    assert_eq!(
        Thread::new_imperial(mm(1.0), mm(1_000_001.0), None, right, ThreadForm::UNF, None)
            .unwrap_err(),
        GeometryError::TooLarge
    );
    assert_eq!(
        Thread::new_imperial(mm(1.0), mm(0.00005), None, right, ThreadForm::UNF, None)
            .unwrap_err(),
        GeometryError::TooLarge
    );
    assert!(Thread::new_metric(mm(10_000.0), mm(1.0), None, right, None).is_ok());
}

#[test]
fn the_first_fault_is_reported() {
    let right = ThreadHand::Right;
    assert_eq!(
        Thread::new_metric(mm(2_000_000.0), mm(-1.0), None, right, None).unwrap_err(),
        GeometryError::TooLarge
    );
    assert_eq!(
        Thread::new_metric(mm(-1.0), mm(2_000_000.0), None, right, None).unwrap_err(),
        GeometryError::NonPositive
    );
}

#[test]
fn a_pitch_that_leaves_no_root_is_refused() {
    let right = ThreadHand::Right;
    assert_eq!(
        Thread::new_metric(mm(1.0), mm(1.0), None, right, None).unwrap_err(),
        GeometryError::NoRootDiameter
    );
    assert_eq!(
        Thread::new_imperial(mm(0.25), mm(1.0), None, right, ThreadForm::UNC, None).unwrap_err(),
        GeometryError::NoRootDiameter
    );
    // exactly no root: 1.226869 - 1.226869 * 1
    assert_eq!(
        Thread::new_metric(mm(1.226869), mm(1.0), None, right, None).unwrap_err(),
        GeometryError::NoRootDiameter
    );
    let t = Thread::new_metric(mm(1.226870), mm(1.0), None, right, None).unwrap();
    assert_eq!(t.minor_diameter.attos(), 1_000_000_000_000);
}

#[test]
fn set_note_changes_the_note_only() {
    let mut t = Thread::new_metric(mm(12.0), mm(1.75), None, ThreadHand::Right, None).unwrap();
    let before = t.clone();
    t.set_note("rolled after heat treatment".to_string());
    assert_eq!(t.note.as_deref(), Some("rolled after heat treatment"));
    assert_eq!(t.major_diameter, before.major_diameter);
    assert_eq!(t.minor_diameter, before.minor_diameter);
    assert_eq!(t.pitch, before.pitch);
    assert_eq!(t.tolerance_class, before.tolerance_class);
    t.set_note("second".to_string());
    assert_eq!(t.note.as_deref(), Some("second"));
}

#[test]
fn depth_reads_the_stored_diameters() {
    let mut t = Thread::new_metric(mm(12.0), mm(1.75), None, ThreadHand::Right, None).unwrap();
    t.form = ThreadForm::Custom;
    t.minor_diameter = mm(10.0);
    assert!(t.is_valid());
    assert_eq!(t.depth(), mm(1.0));
}

#[test]
fn an_edited_thread_is_found_invalid() {
    let good = Thread::new_metric(mm(12.0), mm(1.75), None, ThreadHand::Right, None).unwrap();
    let mut t = good.clone();
    t.minor_diameter = mm(12.0);
    assert!(!t.is_valid());
    let mut t = good.clone();
    t.minor_diameter = Quantity::from_attos(t.major_diameter.attos() - 1);
    assert!(!t.is_valid());
    t.minor_diameter = Quantity::from_attos(t.major_diameter.attos() - 2);
    assert!(t.is_valid());
    let mut t = good.clone();
    t.pitch = mm(0.0);
    assert!(!t.is_valid());
    let mut t = good.clone();
    t.length = Some(mm(-3.0));
    assert!(!t.is_valid());
    let mut t = Thread::new_imperial(
        mm(0.25),
        Quantity::from_units(20),
        None,
        ThreadHand::Right,
        ThreadForm::UNC,
        None,
    )
    .unwrap();
    t.pitch = mm(0.06);
    assert!(!t.is_valid());
}

#[test]
fn enum_defaults() {
    assert_eq!(Unit::default(), Unit::Metric);
    assert_eq!(ThreadForm::default(), ThreadForm::ISO);
    assert_eq!(ThreadHand::default(), ThreadHand::Right);
}

#[test]
fn metric_m8_root_follows_the_formula_to_the_last_digit() {
    let t = Thread::new_metric(
        mm(8.0),
        mm(1.25),
        Some(mm(30.0)),
        ThreadHand::Left,
        Some("not a class!".to_string()),
    )
    .unwrap();
    assert_eq!(t.minor_diameter.attos(), 6_466_413_750_000_000_000);
    assert!((as_units(t.minor_diameter) - 6.46641375).abs() <= 1e-9);
    assert_eq!(t.hand, ThreadHand::Left);
    assert_eq!(t.tolerance_class.as_deref(), Some("not a class!"));
    assert_eq!(t.length, Some(mm(30.0)));
    assert_eq!(t.pitch, mm(1.25));
    assert_eq!(t.threads_per_unit, None);
}

#[test]
fn three_threads_per_inch_give_a_third() {
    let t = Thread::new_imperial(
        mm(1.0),
        Quantity::from_units(3),
        None,
        ThreadHand::Right,
        ThreadForm::UNC,
        None,
    )
    .unwrap();
    assert_eq!(t.pitch.attos(), 333_333_333_333_333_333);
    assert!((as_units(t.pitch) - 1.0 / 3.0).abs() <= 1e-12 / 3.0);
}

#[test]
fn quarter_inch_thirteen_has_the_unified_root() {
    let t = Thread::new_imperial(
        mm(0.25),
        Quantity::from_units(13),
        None,
        ThreadHand::Right,
        ThreadForm::UNC,
        None,
    )
    .unwrap();
    assert_eq!(t.minor_diameter.attos(), 200_038_461_538_461_538);
    let root = 0.25 - 0.6495 * as_units(t.pitch);
    assert!((as_units(t.minor_diameter) - root).abs() <= 1e-12 * root);
    assert_eq!(t.major_diameter, mm(0.25));
}

#[test]
fn depth_is_positive_when_the_root_is_just_below_the_crest() {
    let mut t = Thread::new_metric(mm(12.0), mm(1.75), None, ThreadHand::Right, None).unwrap();
    t.form = ThreadForm::Custom;
    t.major_diameter = mm(10.000001);
    t.minor_diameter = mm(10.0);
    assert!(t.is_valid());
    let d = t.depth();
    assert_eq!(d.attos(), 500_000_000_000);
    assert!(d.attos() > 0);
    assert!(2 * d.attos() < t.major_diameter.attos());
    assert_eq!(t.minor_diameter.attos() + 2 * d.attos(), t.major_diameter.attos());
}

#[test]
fn depth_reads_the_diameters_and_nothing_else() {
    let mut t = Thread::new_metric(mm(12.0), mm(1.75), None, ThreadHand::Right, None).unwrap();
    let before = t.depth();
    t.pitch = mm(0.0);
    t.threads_per_unit = Some(mm(-1.0));
    t.length = Some(mm(-5.0));
    assert!(!t.is_valid());
    assert_eq!(t.depth(), before);
    t.minor_diameter = mm(12.000003);
    assert_eq!(t.depth().attos(), -1_500_000_000_000);
    t.minor_diameter = Quantity::from_attos(t.major_diameter.attos() + 3);
    assert_eq!(t.depth().attos(), -2);
}
