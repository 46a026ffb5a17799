//! Bolts as they are specified for a joint: thread, material, head and
//! shank, with the strength and mass estimates that follow from them.

use std::rc::Rc;
use vstd::prelude::*;
use crate::error::GeometryError;
use crate::material::Material;
use crate::material::is_density;
use crate::quantity::Quantity;
use crate::quantity::is_dimension;
use crate::quantity::dimension_fault;
use crate::quantity::optional_dimension_fault;
use crate::quantity::first_fault;
use crate::quantity::circle_area;
use crate::quantity::cylinder_mass;
use crate::quantity::law_circle_area_monotone;
use crate::thread::Thread;
use crate::thread::check_optional_dimension;

verus! {

/// Bolt head shapes.
#[derive(Clone, Copy, Debug, PartialEq, Eq, Structural)]
pub enum HeadType {
    Hex,
    HexFlange,
    SocketCap,
    Countersunk,
    Pan,
    Button,
    Other,
}

/// Bolt drive shapes.
#[derive(Clone, Copy, Debug, PartialEq, Eq, Structural)]
pub enum DriveType {
    Hex,
    Allen,
    Torx,
    Slotted,
    Phillips,
    Other,
}

/// Strength class or grade of a bolt.
#[derive(Clone, Copy, Debug, PartialEq, Eq, Structural)]
pub enum BoltGrade {
    /// Property class, such as 88 for 8.8 or 109 for 10.9.
    Metric(u8),
    /// SAE grade, such as 2, 5 or 8.
    Imperial(u8),
    Custom,
}

/// A bolt. Lengths are in the unit of its thread.
#[derive(Clone, Debug)]
pub struct Bolt {
    pub name: String,
    pub thread: Thread,
    /// Shared, so that many fasteners can be cut from one material.
    pub material: Rc<Material>,
    pub grade: Option<BoltGrade>,
    /// Length under the head.
    pub length: Quantity,
    pub head_type: HeadType,
    pub drive_type: DriveType,
    pub head_height: Option<Quantity>,
    pub head_diameter: Option<Quantity>,
    /// Diameter of the unthreaded portion, if there is one.
    pub shank_diameter: Option<Quantity>,
    /// Diameter of the washer face of a flange bolt.
    pub washer_face_diameter: Option<Quantity>,
    pub note: Option<String>,
}

impl Bolt {
    /// The invariant of a bolt: a valid thread and material, and every
    /// dimension that is present positive and within range.
    pub open spec fn wf(&self) -> bool {
        &&& self.thread.wf()
        &&& self.material.wf()
        &&& is_dimension(self.length@)
        &&& self.head_height matches Some(h) ==> is_dimension(h@)
        &&& self.head_diameter matches Some(d) ==> is_dimension(d@)
        &&& self.shank_diameter matches Some(d) ==> is_dimension(d@)
        &&& self.washer_face_diameter matches Some(d) ==> is_dimension(d@)
    }

    /// The bolt that [`Bolt::new`] builds: a hex head with a hex drive, and
    /// nothing else known.
    pub open spec fn plain(name: String, thread: Thread, material: Rc<Material>, length: Quantity)
        -> Bolt {
        Bolt {
            name,
            thread,
            material,
            grade: None,
            length,
            head_type: HeadType::Hex,
            drive_type: DriveType::Hex,
            head_height: None,
            head_diameter: None,
            shank_diameter: None,
            washer_face_diameter: None,
            note: None,
        }
    }

    /// Tensile stress area: the area of the circle of the thread's minor
    /// diameter. This is the usual conservative stand-in for the stress
    /// area of the standards, which take a slightly larger diameter.
    pub open spec fn tensile_area_spec(&self) -> int {
        circle_area(self.thread.minor_diameter@)
    }

    /// Weight where the density is known: that of a solid cylinder of the
    /// major diameter over the whole length. Head, thread relief and drilled
    /// features are left out.
    pub open spec fn weight_spec(&self) -> Option<int> {
        match self.material.density {
            Some(rho) => Some(cylinder_mass(rho@, self.thread.major_diameter@, self.length@)),
            None => None,
        }
    }

    /// Creates a bolt from its thread, material and length.
    pub fn new(name: String, thread: Thread, material: Rc<Material>, length: Quantity) -> (r:
        Result<Bolt, GeometryError>)
        ensures
            r is Ok <==> is_dimension(length@),
            r matches Ok(b) ==> b == Bolt::plain(name, thread, material, length) && (b.wf() <==> (
                thread.wf() && material.wf())),
            r matches Err(e) ==> dimension_fault(length@) == Some(e),
    {
        match length.check_dimension() {
            Err(e) => { return Err(e); },
            Ok(()) => {},
        }
        Ok(
            Bolt {
                name,
                thread,
                material,
                grade: None,
                length,
                head_type: HeadType::Hex,
                drive_type: DriveType::Hex,
                head_height: None,
                head_diameter: None,
                shank_diameter: None,
                washer_face_diameter: None,
                note: None,
            },
        )
    }

    /// Sets the grade.
    pub fn set_grade(&mut self, grade: BoltGrade)
        ensures
            *final(self) == (Bolt { grade: Some(grade), ..*old(self) }),
            final(self).wf() == old(self).wf(),
    {
        self.grade = Some(grade);
    }

    /// Sets head and drive shape with the head's height and diameter. A
    /// height or diameter that is no dimension is refused and leaves the
    /// bolt as it was; the height is judged first.
    pub fn set_head_geometry(
        &mut self,
        head_type: HeadType,
        drive_type: DriveType,
        height: Quantity,
        diameter: Quantity,
    ) -> (r: Result<(), GeometryError>)
        ensures
            r is Ok <==> is_dimension(height@) && is_dimension(diameter@),
            r matches Err(e) ==> first_fault(dimension_fault(height@), dimension_fault(diameter@))
                == Some(e) && *final(self) == *old(self),
            r is Ok ==> *final(self) == (Bolt {
                head_type,
                drive_type,
                head_height: Some(height),
                head_diameter: Some(diameter),
                ..*old(self)
            }),
            old(self).wf() ==> final(self).wf(),
    {
        match height.check_dimension() {
            Err(e) => { return Err(e); },
            Ok(()) => {},
        }
        match diameter.check_dimension() {
            Err(e) => { return Err(e); },
            Ok(()) => {},
        }
        self.head_type = head_type;
        self.drive_type = drive_type;
        self.head_height = Some(height);
        self.head_diameter = Some(diameter);
        Ok(())
    }

    /// Sets the shank diameter and, for a flange bolt, that of the washer
    /// face; an absent washer face clears the stored one. A diameter that is
    /// no dimension is refused and leaves the bolt as it was; the shank is
    /// judged first.
    pub fn set_shank_geometry(
        &mut self,
        shank_diameter: Quantity,
        washer_face_diameter: Option<Quantity>,
    ) -> (r: Result<(), GeometryError>)
        ensures
            r is Ok <==> is_dimension(shank_diameter@) && optional_dimension_fault(
                washer_face_diameter,
            ) is None,
            r matches Err(e) ==> first_fault(
                dimension_fault(shank_diameter@),
                optional_dimension_fault(washer_face_diameter),
            ) == Some(e) && *final(self) == *old(self),
            r is Ok ==> *final(self) == (Bolt {
                shank_diameter: Some(shank_diameter),
                washer_face_diameter,
                ..*old(self)
            }),
            old(self).wf() ==> final(self).wf(),
    {
        match shank_diameter.check_dimension() {
            Err(e) => { return Err(e); },
            Ok(()) => {},
        }
        match check_optional_dimension(&washer_face_diameter) {
            Err(e) => { return Err(e); },
            Ok(()) => {},
        }
        self.shank_diameter = Some(shank_diameter);
        self.washer_face_diameter = washer_face_diameter;
        Ok(())
    }

    /// Attaches a note, replacing any earlier one.
    pub fn set_note(&mut self, note: String)
        ensures
            *final(self) == (Bolt { note: Some(note), ..*old(self) }),
            final(self).wf() == old(self).wf(),
    {
        self.note = Some(note);
    }

    /// Whether the invariant holds of the stored fields.
    pub fn is_valid(&self) -> (b: bool)
        ensures
            b == self.wf(),
    {
        let head_height_ok = match &self.head_height {
            Some(q) => q.is_dimension(),
            None => true,
        };
        let head_diameter_ok = match &self.head_diameter {
            Some(q) => q.is_dimension(),
            None => true,
        };
        let shank_ok = match &self.shank_diameter {
            Some(q) => q.is_dimension(),
            None => true,
        };
        let washer_ok = match &self.washer_face_diameter {
            Some(q) => q.is_dimension(),
            None => true,
        };
        self.thread.is_valid() && self.material.is_valid() && self.length.is_dimension()
            && head_height_ok && head_diameter_ok && shank_ok && washer_ok
    }

    /// The tensile stress area, computed afresh from the thread. Every
    /// bolt with a valid thread has one.
    pub fn tensile_area(&self) -> (a: Quantity)
        requires
            is_dimension(self.thread.minor_diameter@),
        ensures
            a@ == self.tensile_area_spec(),
    {
        self.thread.minor_diameter.circle_area()
    }

    /// The weight, or nothing where the material's density is not known.
    /// Every valid bolt meets what this asks of it.
    pub fn weight(&self) -> (w: Option<Quantity>)
        requires
            is_dimension(self.thread.major_diameter@),
            is_dimension(self.length@),
            self.material.density matches Some(rho) ==> is_density(rho@),
        ensures
            w is None <==> self.material.density is None,
            w matches Some(q) ==> self.weight_spec() == Some(q@),
    {
        match &self.material.density {
            Some(rho) => Some(rho.cylinder_mass(&self.thread.major_diameter, &self.length)),
            None => None,
        }
    }
}

/// Of two bolts with valid threads, the one with the larger minor diameter
/// has at least the tensile stress area of the other, and a larger one
/// where the smaller minor diameter is 0.63662 units or more.
pub proof fn law_tensile_area_monotone(a: Bolt, b: Bolt)
    requires
        a.thread.wf(),
        b.thread.wf(),
        a.thread.minor_diameter@ <= b.thread.minor_diameter@,
    ensures
        a.tensile_area_spec() <= b.tensile_area_spec(),
        636_619_772_367_581_391 <= a.thread.minor_diameter@ < b.thread.minor_diameter@ ==> a.tensile_area_spec()
            < b.tensile_area_spec(),
{
    law_circle_area_monotone(a.thread.minor_diameter@, b.thread.minor_diameter@);
}

/// A bolt has a weight exactly when its material has a density.
pub proof fn law_weight_known_with_density(b: Bolt)
    ensures
        b.weight_spec() is None <==> b.material.density is None,
{
}

} // verus!
