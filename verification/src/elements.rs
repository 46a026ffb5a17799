//! The parts a library stores: bolts, studs, nuts, threaded inserts and
//! clamped members, each with the dimensions by which it bears on a joint.

use vstd::prelude::*;
use crate::error::GeometryError;
use crate::material::Material;
use crate::quantity::Quantity;
use crate::quantity::dimension_fault;
use crate::quantity::optional_dimension_fault;
use crate::quantity::first_fault;
use crate::thread::Thread;
use crate::thread::check_optional_dimension;

verus! {

/// How a nut is driven.
#[derive(Clone, Copy, Debug, PartialEq, Eq, Structural)]
pub enum DriveType {
    Hex,
    BiHex,
}

impl Default for DriveType {
    fn default() -> (d: DriveType)
        ensures
            d == DriveType::Hex,
    {
        DriveType::Hex
    }
}

/// A member clamped between head and nut.
#[derive(Clone, Debug)]
pub struct Clamped {
    /// Inner diameter of the hole.
    pub id: Quantity,
    /// Outer diameter, where the member is a sleeve or washer.
    pub od: Option<Quantity>,
    pub thickness: Quantity,
    pub material: Material,
}

/// A threaded insert or tapped hole.
#[derive(Clone, Debug)]
pub struct Threaded {
    pub thread: Thread,
    pub thread_length: Quantity,
    pub stud_bearing: Option<Quantity>,
}

/// A nut.
#[derive(Clone, Debug)]
pub struct Nut {
    pub thread: Thread,
    /// Inner diameter of the bearing face.
    pub bearing_id: Quantity,
    /// Outer diameter of the bearing face.
    pub bearing_od: Quantity,
    pub thickness: Quantity,
    /// Torque at which the nut was last installed.
    pub prev_trq: Option<Quantity>,
    /// Mass found when it was installed.
    pub mass_on: Option<Quantity>,
    pub drive: DriveType,
}

/// A stud, threaded at both ends.
#[derive(Clone, Debug)]
pub struct Stud {
    pub thread_a: Thread,
    pub thread_length_a: Quantity,
    pub thread_b: Thread,
    pub thread_length_b: Quantity,
    pub shank_diameter: Quantity,
    pub shank_length: Quantity,
    /// Inner diameter of the nipple.
    pub nipple_id: Quantity,
    /// Outer diameter of the nipple.
    pub nipple_od: Quantity,
    /// Nipple angle in degrees.
    pub nipple_angle: Quantity,
}

/// A bolt as the library stores it.
#[derive(Clone, Debug)]
pub struct Bolt {
    pub thread: Thread,
    pub thread_length: Quantity,
    pub head_thickness: Quantity,
    /// Outer diameter of the bearing face under the head.
    pub bearing_od: Quantity,
    /// Radius of the fillet under the head.
    pub root_fillet: Option<Quantity>,
}

impl Clamped {
    /// The first dimension at fault, in the order inner diameter, outer
    /// diameter, thickness.
    pub open spec fn fault(&self) -> Option<GeometryError> {
        first_fault(
            dimension_fault(self.id@),
            first_fault(optional_dimension_fault(self.od), dimension_fault(self.thickness@)),
        )
    }

    /// The invariant: every dimension present is positive and within range,
    /// and the material is valid.
    pub open spec fn wf(&self) -> bool {
        self.fault() is None && self.material.wf()
    }

    /// Finds the first dimension at fault.
    pub fn check(&self) -> (r: Result<(), GeometryError>)
        ensures
            r is Ok <==> self.fault() is None,
            r matches Err(e) ==> self.fault() == Some(e),
    {
        match self.id.check_dimension() {
            Err(e) => { return Err(e); },
            Ok(()) => {},
        }
        match check_optional_dimension(&self.od) {
            Err(e) => { return Err(e); },
            Ok(()) => {},
        }
        self.thickness.check_dimension()
    }

    /// Creates a clamped member, or says which dimension is at fault.
    pub fn new(id: Quantity, od: Option<Quantity>, thickness: Quantity, material: Material) -> (r:
        Result<Clamped, GeometryError>)
        ensures
            r matches Ok(c) ==> c == (Clamped { id, od, thickness, material }) && c.fault() is None,
            r matches Err(e) ==> (Clamped { id, od, thickness, material }).fault() == Some(e),
    {
        let c = Clamped { id, od, thickness, material };
        match c.check() {
            Ok(()) => Ok(c),
            Err(e) => Err(e),
        }
    }

    /// Whether the invariant holds of the stored fields.
    pub fn is_valid(&self) -> (b: bool)
        ensures
            b == self.wf(),
    {
        self.check().is_ok() && self.material.is_valid()
    }
}

impl Threaded {
    /// The first dimension at fault, in the order thread length, stud
    /// bearing.
    pub open spec fn fault(&self) -> Option<GeometryError> {
        first_fault(
            dimension_fault(self.thread_length@),
            optional_dimension_fault(self.stud_bearing),
        )
    }

    /// The invariant: every dimension present is positive and within range,
    /// and the thread is valid.
    pub open spec fn wf(&self) -> bool {
        self.fault() is None && self.thread.wf()
    }

    /// Finds the first dimension at fault.
    pub fn check(&self) -> (r: Result<(), GeometryError>)
        ensures
            r is Ok <==> self.fault() is None,
            r matches Err(e) ==> self.fault() == Some(e),
    {
        match self.thread_length.check_dimension() {
            Err(e) => { return Err(e); },
            Ok(()) => {},
        }
        check_optional_dimension(&self.stud_bearing)
    }

    /// Creates a threaded insert, or says which dimension is at fault.
    pub fn new(thread: Thread, thread_length: Quantity, stud_bearing: Option<Quantity>) -> (r:
        Result<Threaded, GeometryError>)
        ensures
            r matches Ok(t) ==> t == (Threaded { thread, thread_length, stud_bearing })
                && t.fault() is None,
            r matches Err(e) ==> (Threaded { thread, thread_length, stud_bearing }).fault()
                == Some(e),
    {
        let t = Threaded { thread, thread_length, stud_bearing };
        match t.check() {
            Ok(()) => Ok(t),
            Err(e) => Err(e),
        }
    }

    /// Whether the invariant holds of the stored fields.
    pub fn is_valid(&self) -> (b: bool)
        ensures
            b == self.wf(),
    {
        self.check().is_ok() && self.thread.is_valid()
    }
}

impl Nut {
    /// The first dimension at fault, in the order bearing inner diameter,
    /// bearing outer diameter, thickness.
    pub open spec fn fault(&self) -> Option<GeometryError> {
        first_fault(
            dimension_fault(self.bearing_id@),
            first_fault(dimension_fault(self.bearing_od@), dimension_fault(self.thickness@)),
        )
    }

    /// The invariant: every dimension is positive and within range, and the
    /// thread is valid.
    pub open spec fn wf(&self) -> bool {
        self.fault() is None && self.thread.wf()
    }

    /// Finds the first dimension at fault.
    pub fn check(&self) -> (r: Result<(), GeometryError>)
        ensures
            r is Ok <==> self.fault() is None,
            r matches Err(e) ==> self.fault() == Some(e),
    {
        match self.bearing_id.check_dimension() {
            Err(e) => { return Err(e); },
            Ok(()) => {},
        }
        match self.bearing_od.check_dimension() {
            Err(e) => { return Err(e); },
            Ok(()) => {},
        }
        self.thickness.check_dimension()
    }

    /// Creates a nut that was never installed, or says which dimension is at
    /// fault.
    pub fn new(
        thread: Thread,
        bearing_id: Quantity,
        bearing_od: Quantity,
        thickness: Quantity,
        drive: DriveType,
    ) -> (r: Result<Nut, GeometryError>)
        ensures
            r matches Ok(n) ==> n == (Nut {
                thread,
                bearing_id,
                bearing_od,
                thickness,
                prev_trq: None,
                mass_on: None,
                drive,
            }) && n.fault() is None,
            r matches Err(e) ==> (Nut {
                thread,
                bearing_id,
                bearing_od,
                thickness,
                prev_trq: None,
                mass_on: None,
                drive,
            }).fault() == Some(e),
    {
        let n = Nut {
            thread,
            bearing_id,
            bearing_od,
            thickness,
            prev_trq: None,
            mass_on: None,
            drive,
        };
        match n.check() {
            Ok(()) => Ok(n),
            Err(e) => Err(e),
        }
    }

    /// Whether the invariant holds of the stored fields.
    pub fn is_valid(&self) -> (b: bool)
        ensures
            b == self.wf(),
    {
        self.check().is_ok() && self.thread.is_valid()
    }
}

impl Stud {
    /// The first dimension at fault, in the order of the fields: the two
    /// thread lengths, shank diameter and length, nipple inner and outer
    /// diameter.
    pub open spec fn fault(&self) -> Option<GeometryError> {
        first_fault(
            dimension_fault(self.thread_length_a@),
            first_fault(
                dimension_fault(self.thread_length_b@),
                first_fault(
                    dimension_fault(self.shank_diameter@),
                    first_fault(
                        dimension_fault(self.shank_length@),
                        first_fault(
                            dimension_fault(self.nipple_id@),
                            dimension_fault(self.nipple_od@),
                        ),
                    ),
                ),
            ),
        )
    }

    /// The invariant: every dimension is positive and within range, and both
    /// threads are valid.
    pub open spec fn wf(&self) -> bool {
        self.fault() is None && self.thread_a.wf() && self.thread_b.wf()
    }

    /// Finds the first dimension at fault.
    pub fn check(&self) -> (r: Result<(), GeometryError>)
        ensures
            r is Ok <==> self.fault() is None,
            r matches Err(e) ==> self.fault() == Some(e),
    {
        match self.thread_length_a.check_dimension() {
            Err(e) => { return Err(e); },
            Ok(()) => {},
        }
        match self.thread_length_b.check_dimension() {
            Err(e) => { return Err(e); },
            Ok(()) => {},
        }
        match self.shank_diameter.check_dimension() {
            Err(e) => { return Err(e); },
            Ok(()) => {},
        }
        match self.shank_length.check_dimension() {
            Err(e) => { return Err(e); },
            Ok(()) => {},
        }
        match self.nipple_id.check_dimension() {
            Err(e) => { return Err(e); },
            Ok(()) => {},
        }
        self.nipple_od.check_dimension()
    }

    /// Creates a stud, or says which dimension is at fault.
    pub fn new(
        thread_a: Thread,
        thread_length_a: Quantity,
        thread_b: Thread,
        thread_length_b: Quantity,
        shank_diameter: Quantity,
        shank_length: Quantity,
        nipple_id: Quantity,
        nipple_od: Quantity,
        nipple_angle: Quantity,
    ) -> (r: Result<Stud, GeometryError>)
        ensures
            r matches Ok(s) ==> s == (Stud {
                thread_a,
                thread_length_a,
                thread_b,
                thread_length_b,
                shank_diameter,
                shank_length,
                nipple_id,
                nipple_od,
                nipple_angle,
            }) && s.fault() is None,
            r matches Err(e) ==> (Stud {
                thread_a,
                thread_length_a,
                thread_b,
                thread_length_b,
                shank_diameter,
                shank_length,
                nipple_id,
                nipple_od,
                nipple_angle,
            }).fault() == Some(e),
    {
        let s = Stud {
            thread_a,
            thread_length_a,
            thread_b,
            thread_length_b,
            shank_diameter,
            shank_length,
            nipple_id,
            nipple_od,
            nipple_angle,
        };
        match s.check() {
            Ok(()) => Ok(s),
            Err(e) => Err(e),
        }
    }

    /// Whether the invariant holds of the stored fields.
    pub fn is_valid(&self) -> (b: bool)
        ensures
            b == self.wf(),
    {
        self.check().is_ok() && self.thread_a.is_valid() && self.thread_b.is_valid()
    }
}

impl Bolt {
    /// The first dimension at fault, in the order thread length, head
    /// thickness, bearing outer diameter, root fillet.
    pub open spec fn fault(&self) -> Option<GeometryError> {
        first_fault(
            dimension_fault(self.thread_length@),
            first_fault(
                dimension_fault(self.head_thickness@),
                first_fault(
                    dimension_fault(self.bearing_od@),
                    optional_dimension_fault(self.root_fillet),
                ),
            ),
        )
    }

    /// The invariant: every dimension present is positive and within range,
    /// and the thread is valid.
    pub open spec fn wf(&self) -> bool {
        self.fault() is None && self.thread.wf()
    }

    /// Finds the first dimension at fault.
    pub fn check(&self) -> (r: Result<(), GeometryError>)
        ensures
            r is Ok <==> self.fault() is None,
            r matches Err(e) ==> self.fault() == Some(e),
    {
        match self.thread_length.check_dimension() {
            Err(e) => { return Err(e); },
            Ok(()) => {},
        }
        match self.head_thickness.check_dimension() {
            Err(e) => { return Err(e); },
            Ok(()) => {},
        }
        match self.bearing_od.check_dimension() {
            Err(e) => { return Err(e); },
            Ok(()) => {},
        }
        check_optional_dimension(&self.root_fillet)
    }

    /// Creates a bolt, or says which dimension is at fault.
    pub fn new(
        thread: Thread,
        thread_length: Quantity,
        head_thickness: Quantity,
        bearing_od: Quantity,
        root_fillet: Option<Quantity>,
    ) -> (r: Result<Bolt, GeometryError>)
        ensures
            r matches Ok(b) ==> b == (Bolt {
                thread,
                thread_length,
                head_thickness,
                bearing_od,
                root_fillet,
            }) && b.fault() is None,
            r matches Err(e) ==> (Bolt {
                thread,
                thread_length,
                head_thickness,
                bearing_od,
                root_fillet,
            }).fault() == Some(e),
    {
        let b = Bolt { thread, thread_length, head_thickness, bearing_od, root_fillet };
        match b.check() {
            Ok(()) => Ok(b),
            Err(e) => Err(e),
        }
    }

    /// Whether the invariant holds of the stored fields.
    pub fn is_valid(&self) -> (b: bool)
        ensures
            b == self.wf(),
    {
        self.check().is_ok() && self.thread.is_valid()
    }
}

/// A part whose invariant can be tested when the program runs.
pub trait Checked {
    /// The invariant.
    spec fn holds(&self) -> bool;

    /// Tests the invariant.
    fn test(&self) -> (b: bool)
        ensures
            b == self.holds(),
    ;
}

impl Checked for Bolt {
    open spec fn holds(&self) -> bool {
        self.wf()
    }

    fn test(&self) -> (b: bool) {
        self.is_valid()
    }
}

impl Checked for Stud {
    open spec fn holds(&self) -> bool {
        self.wf()
    }

    fn test(&self) -> (b: bool) {
        self.is_valid()
    }
}

impl Checked for Nut {
    open spec fn holds(&self) -> bool {
        self.wf()
    }

    fn test(&self) -> (b: bool) {
        self.is_valid()
    }
}

impl Checked for Threaded {
    open spec fn holds(&self) -> bool {
        self.wf()
    }

    fn test(&self) -> (b: bool) {
        self.is_valid()
    }
}

impl Checked for Clamped {
    open spec fn holds(&self) -> bool {
        self.wf()
    }

    fn test(&self) -> (b: bool) {
        self.is_valid()
    }
}

/// Whether every part of a collection satisfies its invariant.
pub open spec fn all_hold<T: Checked>(items: Seq<T>) -> bool {
    forall|i: int| 0 <= i < items.len() ==> (#[trigger] items[i]).holds()
}

/// Tests every part of a collection.
pub fn all_valid<T: Checked>(items: &Vec<T>) -> (b: bool)
    ensures
        b == all_hold(items@),
{
    let mut i: usize = 0;
    while i < items.len()
        invariant
            i <= items@.len(),
            forall|k: int| 0 <= k < i ==> (#[trigger] items@[k]).holds(),
        decreases items@.len() - i,
    {
        if !items[i].test() {
            return false;
        }
        i += 1;
    }
    true
}

} // verus!
