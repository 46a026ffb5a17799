//! Screw threads: their geometry, and how the root diameter follows from
//! the crest diameter and the pitch.

use vstd::prelude::*;
use vstd::arithmetic::div_mod::lemma_fundamental_div_mod;
use crate::error::GeometryError;
use crate::quantity::Quantity;
use crate::quantity::SCALE;
use crate::quantity::is_dimension;
use crate::quantity::dimension_fault;
use crate::quantity::optional_dimension_fault;
use crate::quantity::first_fault;

verus! {

/// Unit system of a thread's dimensions.
#[derive(Clone, Copy, Debug, PartialEq, Eq, Structural)]
pub enum Unit {
    /// Millimetres.
    Metric,
    /// Inches.
    Imperial,
}

/// Standard thread profiles.
#[derive(Clone, Copy, Debug, PartialEq, Eq, Structural)]
pub enum ThreadForm {
    /// Metric ISO 68-1.
    ISO,
    /// Unified coarse.
    UNC,
    /// Unified fine.
    UNF,
    /// Acme trapezoidal.
    Acme,
    /// ISO trapezoidal.
    Trapezoidal,
    Custom,
}

/// Direction in which a thread advances.
#[derive(Clone, Copy, Debug, PartialEq, Eq, Structural)]
pub enum ThreadHand {
    Right,
    Left,
}

impl Default for Unit {
    fn default() -> (u: Unit)
        ensures
            u == Unit::Metric,
    {
        Unit::Metric
    }
}

impl Default for ThreadForm {
    fn default() -> (f: ThreadForm)
        ensures
            f == ThreadForm::ISO,
    {
        ThreadForm::ISO
    }
}

impl Default for ThreadHand {
    fn default() -> (h: ThreadHand)
        ensures
            h == ThreadHand::Right,
    {
        ThreadHand::Right
    }
}

/// A complete thread description. Lengths are in the unit that `unit` names.
#[derive(Clone, Debug)]
pub struct Thread {
    pub unit: Unit,
    pub form: ThreadForm,
    /// Crest diameter.
    pub major_diameter: Quantity,
    /// Root diameter.
    pub minor_diameter: Quantity,
    /// Distance from one thread to the next.
    pub pitch: Quantity,
    /// Threads per unit of length, kept for imperial threads.
    pub threads_per_unit: Option<Quantity>,
    /// Threaded length, where it is known.
    pub length: Option<Quantity>,
    pub hand: ThreadHand,
    /// Flank angle in degrees.
    pub angle: Quantity,
    /// Tolerance class as written on the drawing, such as "6g" or "2A".
    pub tolerance_class: Option<String>,
    pub note: Option<String>,
}

/// Root diameter of an ISO 68-1 thread, `major - 1.226869 pitch`, rounded
/// down.
pub open spec fn metric_minor(major: int, pitch: int) -> int {
    (major * 1_000_000 - 1_226_869 * pitch) / 1_000_000
}

/// Pitch of a thread cut `tpi` to the unit, `1 / tpi`, rounded down to the
/// next quintillionth.
pub open spec fn pitch_of(tpi: int) -> int {
    (SCALE * SCALE) / tpi
}

/// Root diameter of a 60 degree unified thread, `major - 0.6495 pitch`,
/// rounded down.
pub open spec fn unified_minor(major: int, pitch: int) -> int {
    (major * 10_000 - 6_495 * pitch) / 10_000
}

/// The fault of a root diameter: there must be some root left.
pub open spec fn root_fault(minor: int) -> Option<GeometryError> {
    if minor <= 0 {
        Some(GeometryError::NoRootDiameter)
    } else {
        None
    }
}

/// Why a metric thread of these dimensions is refused, if it is. The
/// dimensions are judged in the order given, then the root they leave.
pub open spec fn metric_fault(major: int, pitch: int, length: Option<Quantity>) -> Option<
    GeometryError,
> {
    first_fault(
        dimension_fault(major),
        first_fault(
            dimension_fault(pitch),
            first_fault(optional_dimension_fault(length), root_fault(metric_minor(major, pitch))),
        ),
    )
}

/// Why an imperial thread of these dimensions is refused, if it is. The
/// major diameter is judged first, then the thread count, the pitch it
/// gives, the length, and last the root that is left.
pub open spec fn imperial_fault(major: int, tpi: int, length: Option<Quantity>) -> Option<
    GeometryError,
> {
    first_fault(
        dimension_fault(major),
        first_fault(
            dimension_fault(tpi),
            first_fault(
                dimension_fault(pitch_of(tpi)),
                first_fault(
                    optional_dimension_fault(length),
                    root_fault(unified_minor(major, pitch_of(tpi))),
                ),
            ),
        ),
    )
}

/// Sixty degrees, the flank angle of ISO and unified threads.
pub open spec fn sixty_degrees() -> int {
    60 * SCALE
}

impl Thread {
    /// The invariant of a thread: positive dimensions within range, the root
    /// below the crest by enough that half the difference is a positive
    /// depth, and, for an imperial thread that records its threads per unit,
    /// a pitch that is their reciprocal.
    pub open spec fn wf(&self) -> bool {
        &&& is_dimension(self.major_diameter@)
        &&& is_dimension(self.pitch@)
        &&& 0 < self.minor_diameter@
        &&& self.minor_diameter@ + 2 <= self.major_diameter@
        &&& self.length matches Some(l) ==> is_dimension(l@)
        &&& self.threads_per_unit matches Some(t) ==> {
            &&& is_dimension(t@)
            &&& self.unit == Unit::Imperial ==> self.pitch@ == pitch_of(t@)
        }
    }

    /// The metric thread that [`Thread::new_metric`] builds.
    pub open spec fn metric(
        major_diameter: Quantity,
        pitch: Quantity,
        length: Option<Quantity>,
        hand: ThreadHand,
        tolerance_class: Option<String>,
    ) -> Thread {
        Thread {
            unit: Unit::Metric,
            form: ThreadForm::ISO,
            major_diameter,
            minor_diameter: Quantity { attos: metric_minor(major_diameter@, pitch@) as i128 },
            pitch,
            threads_per_unit: None,
            length,
            hand,
            angle: Quantity { attos: sixty_degrees() as i128 },
            tolerance_class,
            note: None,
        }
    }

    /// The imperial thread that [`Thread::new_imperial`] builds.
    pub open spec fn imperial(
        major_diameter: Quantity,
        threads_per_inch: Quantity,
        length: Option<Quantity>,
        hand: ThreadHand,
        form: ThreadForm,
        tolerance_class: Option<String>,
    ) -> Thread {
        Thread {
            unit: Unit::Imperial,
            form,
            major_diameter,
            minor_diameter: Quantity {
                attos: unified_minor(major_diameter@, pitch_of(threads_per_inch@)) as i128,
            },
            pitch: Quantity { attos: pitch_of(threads_per_inch@) as i128 },
            threads_per_unit: Some(threads_per_inch),
            length,
            hand,
            angle: Quantity { attos: sixty_degrees() as i128 },
            tolerance_class,
            note: None,
        }
    }

    /// Half the difference between crest and root diameter, rounded down.
    pub open spec fn depth_spec(&self) -> int {
        (self.major_diameter@ - self.minor_diameter@) / 2
    }

    /// Creates a metric ISO thread from its major diameter and pitch, in
    /// millimetres. The hand and the tolerance class are taken as given.
    pub fn new_metric(
        major_diameter: Quantity,
        pitch: Quantity,
        length: Option<Quantity>,
        hand: ThreadHand,
        tolerance_class: Option<String>,
    ) -> (r: Result<Thread, GeometryError>)
        ensures
            r matches Ok(t) ==> metric_fault(major_diameter@, pitch@, length) is None && t
                == Thread::metric(major_diameter, pitch, length, hand, tolerance_class) && t.wf(),
            r matches Err(e) ==> metric_fault(major_diameter@, pitch@, length) == Some(e),
    {
        match major_diameter.check_dimension() {
            Err(e) => { return Err(e); },
            Ok(()) => {},
        }
        match pitch.check_dimension() {
            Err(e) => { return Err(e); },
            Ok(()) => {},
        }
        match check_optional_dimension(&length) {
            Err(e) => { return Err(e); },
            Ok(()) => {},
        }
        let exact: i128 = major_diameter.attos * 1_000_000 - 1_226_869 * pitch.attos;
        if exact < 1_000_000 {
            return Err(GeometryError::NoRootDiameter);
        }
        let minor_diameter = Quantity { attos: exact / 1_000_000 };
        Ok(
            Thread {
                unit: Unit::Metric,
                form: ThreadForm::ISO,
                major_diameter,
                minor_diameter,
                pitch,
                threads_per_unit: None,
                length,
                hand,
                angle: Quantity { attos: 60_000_000_000_000_000_000 },
                tolerance_class,
                note: None,
            },
        )
    }

    /// Creates an imperial thread from its major diameter, in inches, and
    /// its threads per inch, which are kept beside the pitch they give.
    pub fn new_imperial(
        major_diameter: Quantity,
        threads_per_inch: Quantity,
        length: Option<Quantity>,
        hand: ThreadHand,
        form: ThreadForm,
        tolerance_class: Option<String>,
    ) -> (r: Result<Thread, GeometryError>)
        ensures
            r matches Ok(t) ==> imperial_fault(major_diameter@, threads_per_inch@, length) is None
                && t == Thread::imperial(
                major_diameter,
                threads_per_inch,
                length,
                hand,
                form,
                tolerance_class,
            ) && t.wf(),
            r matches Err(e) ==> imperial_fault(major_diameter@, threads_per_inch@, length) == Some(
                e,
            ),
    {
        match major_diameter.check_dimension() {
            Err(e) => { return Err(e); },
            Ok(()) => {},
        }
        match threads_per_inch.check_dimension() {
            Err(e) => { return Err(e); },
            Ok(()) => {},
        }
        proof {
            lemma_pitch_is_reciprocal(threads_per_inch@);
        }
        let pitch = Quantity {
            attos: 1_000_000_000_000_000_000_000_000_000_000_000_000 / threads_per_inch.attos,
        };
        match pitch.check_dimension() {
            Err(e) => { return Err(e); },
            Ok(()) => {},
        }
        match check_optional_dimension(&length) {
            Err(e) => { return Err(e); },
            Ok(()) => {},
        }
        let exact: i128 = major_diameter.attos * 10_000 - 6_495 * pitch.attos;
        if exact < 10_000 {
            return Err(GeometryError::NoRootDiameter);
        }
        let minor_diameter = Quantity { attos: exact / 10_000 };
        Ok(
            Thread {
                unit: Unit::Imperial,
                form,
                major_diameter,
                minor_diameter,
                pitch,
                threads_per_unit: Some(threads_per_inch),
                length,
                hand,
                angle: Quantity { attos: 60_000_000_000_000_000_000 },
                tolerance_class,
                note: None,
            },
        )
    }

    /// Whether the invariant holds of the stored fields.
    pub fn is_valid(&self) -> (b: bool)
        ensures
            b == self.wf(),
    {
        if !self.major_diameter.is_dimension() {
            return false;
        }
        let dims = self.pitch.is_dimension() && 0 < self.minor_diameter.attos
            && self.minor_diameter.attos <= self.major_diameter.attos - 2;
        let length_ok = match &self.length {
            Some(l) => l.is_dimension(),
            None => true,
        };
        let count_ok = match &self.threads_per_unit {
            Some(t) => t.is_dimension() && (match self.unit {
                Unit::Imperial => self.pitch.attos
                    == 1_000_000_000_000_000_000_000_000_000_000_000_000 / t.attos,
                Unit::Metric => true,
            }),
            None => true,
        };
        dims && length_ok && count_ok
    }

    /// The pitch, in the thread's own unit.
    pub fn get_pitch(&self) -> (p: Quantity)
        ensures
            p == self.pitch,
    {
        self.pitch
    }

    /// The thread depth, from the stored diameters alone. It is positive
    /// for every valid thread.
    pub fn depth(&self) -> (d: Quantity)
        requires
            is_dimension(self.major_diameter@),
            is_dimension(self.minor_diameter@),
        ensures
            d@ == self.depth_spec(),
            2 * d@ <= self.major_diameter@ - self.minor_diameter@ < 2 * d@ + 2,
            self.minor_diameter@ + 2 <= self.major_diameter@ ==> 0 < d@,
            2 * d@ < self.major_diameter@,
    {
        let difference: i128 = self.major_diameter.attos - self.minor_diameter.attos;
        if difference >= 0 {
            Quantity { attos: difference / 2 }
        } else {
            Quantity { attos: -((1 - difference) / 2) }
        }
    }

    /// Attaches a note, replacing any earlier one.
    pub fn set_note(&mut self, note: String)
        ensures
            *final(self) == (Thread { note: Some(note), ..*old(self) }),
            final(self).wf() == old(self).wf(),
    {
        self.note = Some(note);
    }
}

/// Checks a dimension that may be absent.
pub fn check_optional_dimension(q: &Option<Quantity>) -> (r: Result<(), GeometryError>)
    ensures
        r is Ok <==> optional_dimension_fault(*q) is None,
        r matches Err(e) ==> optional_dimension_fault(*q) == Some(e),
{
    match q {
        Some(v) => v.check_dimension(),
        None => Ok(()),
    }
}

/// The pitch of an accepted thread count is the reciprocal of the count,
/// rounded down to the next quintillionth. It is at least 10^-4 units, so
/// the rounding is less than one part in 10^14 of it.
pub proof fn lemma_pitch_is_reciprocal(tpi: int)
    requires
        is_dimension(tpi),
    ensures
        pitch_of(tpi) >= 100_000_000_000_000,
        pitch_of(tpi) * tpi <= SCALE * SCALE < (pitch_of(tpi) + 1) * tpi,
        (SCALE * SCALE - pitch_of(tpi) * tpi) * 100_000_000_000_000 < pitch_of(tpi) * tpi,
{
    let n = 1_000_000_000_000_000_000_000_000_000_000_000_000int;
    let p = n / tpi;
    lemma_fundamental_div_mod(n, tpi);
    assert(p * tpi <= n < (p + 1) * tpi && p >= 100_000_000_000_000) by (nonlinear_arith)
        requires
            n == tpi * p + n % tpi,
            0 <= n % tpi < tpi,
            0 < tpi <= 10_000_000_000_000_000_000_000,
            n == 1_000_000_000_000_000_000_000_000_000_000_000_000,
    ;
    assert((n - p * tpi) * 100_000_000_000_000 < p * tpi) by (nonlinear_arith)
        requires
            0 <= n - p * tpi < tpi,
            p >= 100_000_000_000_000,
            tpi > 0,
    ;
}

/// A metric root diameter lies strictly below the crest for every positive
/// pitch, whatever the major diameter.
pub proof fn law_metric_root_below_crest(major: int, pitch: int)
    requires
        pitch > 0,
    ensures
        metric_minor(major, pitch) < major,
{
}

/// Every metric thread that is accepted satisfies the invariant, has its root
/// strictly below its crest, and a positive depth of half their difference.
/// The root is `major - 1.226869 pitch` to within a quintillionth.
pub proof fn law_metric_thread(
    major_diameter: Quantity,
    pitch: Quantity,
    length: Option<Quantity>,
    hand: ThreadHand,
    tolerance_class: Option<String>,
)
    requires
        metric_fault(major_diameter@, pitch@, length) is None,
    ensures
        ({
            let t = Thread::metric(major_diameter, pitch, length, hand, tolerance_class);
            &&& t.wf()
            &&& t.minor_diameter@ == metric_minor(major_diameter@, pitch@)
            &&& t.minor_diameter@ * 1_000_000 <= major_diameter@ * 1_000_000 - 1_226_869 * pitch@
                < (t.minor_diameter@ + 1) * 1_000_000
            &&& t.minor_diameter@ < t.major_diameter@
            &&& 0 < t.depth_spec()
            &&& t.depth_spec() == (t.major_diameter@ - t.minor_diameter@) / 2
            &&& 2 * t.depth_spec() <= t.major_diameter@ - t.minor_diameter@ < 2 * t.depth_spec()
                + 2
        }),
{
}

/// Every imperial thread that is accepted satisfies the invariant. Its pitch
/// is the reciprocal of its threads per inch, rounded down by less than one
/// part in 10^14; its root diameter is `major - 0.6495 pitch` of that pitch
/// to within a quintillionth; and its depth is positive.
pub proof fn law_imperial_thread(
    major_diameter: Quantity,
    threads_per_inch: Quantity,
    length: Option<Quantity>,
    hand: ThreadHand,
    form: ThreadForm,
    tolerance_class: Option<String>,
)
    requires
        imperial_fault(major_diameter@, threads_per_inch@, length) is None,
    ensures
        ({
            let t = Thread::imperial(
                major_diameter,
                threads_per_inch,
                length,
                hand,
                form,
                tolerance_class,
            );
            &&& t.wf()
            &&& t.threads_per_unit == Some(threads_per_inch)
            &&& t.pitch@ * threads_per_inch@ <= SCALE * SCALE < (t.pitch@ + 1) * threads_per_inch@
            &&& (SCALE * SCALE - t.pitch@ * threads_per_inch@) * 100_000_000_000_000 < t.pitch@
                * threads_per_inch@
            &&& t.minor_diameter@ == unified_minor(t.major_diameter@, t.pitch@)
            &&& t.minor_diameter@ * 10_000 <= t.major_diameter@ * 10_000 - 6_495 * t.pitch@ < (
            t.minor_diameter@ + 1) * 10_000
            &&& t.minor_diameter@ < t.major_diameter@
            &&& 0 < t.depth_spec()
        }),
{
    lemma_pitch_is_reciprocal(threads_per_inch@);
}

} // verus!
