//! A joint names the parts it is made of by their positions in a library.

use vstd::prelude::*;

verus! {

/// A named assembly. Each reference is a position in the library's
/// collection of that kind, or absent; a joint may reference nothing.
#[derive(Clone, Debug)]
pub struct BoltedJoint {
    pub name: String,
    pub description: String,
    pub bolt_id: Option<usize>,
    pub stud_id: Option<usize>,
    pub nut_id: Option<usize>,
    pub threaded_id: Option<usize>,
    pub clamped_ids: Option<usize>,
}

impl BoltedJoint {
    /// Whether the joint references no element at all.
    pub open spec fn is_unattached(&self) -> bool {
        &&& self.bolt_id is None
        &&& self.stud_id is None
        &&& self.nut_id is None
        &&& self.threaded_id is None
        &&& self.clamped_ids is None
    }

    /// Whether the joint references no element at all.
    pub fn unattached(&self) -> (b: bool)
        ensures
            b == self.is_unattached(),
    {
        self.bolt_id.is_none() && self.stud_id.is_none() && self.nut_id.is_none()
            && self.threaded_id.is_none() && self.clamped_ids.is_none()
    }
}

impl Default for BoltedJoint {
    /// A joint without a name that references nothing.
    fn default() -> (j: BoltedJoint)
        ensures
            j.name@.len() == 0,
            j.description@.len() == 0,
            j.is_unattached(),
    {
        BoltedJoint {
            name: String::new(),
            description: String::new(),
            bolt_id: None,
            stud_id: None,
            nut_id: None,
            threaded_id: None,
            clamped_ids: None,
        }
    }
}

} // verus!
