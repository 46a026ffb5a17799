//! The store of every part and joint. Parts are appended and then referred
//! to by position; nothing here removes or reorders them.

use vstd::prelude::*;
use crate::elements::Bolt;
use crate::elements::Clamped;
use crate::elements::Nut;
use crate::elements::Stud;
use crate::elements::Threaded;
use crate::elements::all_hold;
use crate::elements::all_valid;
use crate::error::DanglingReference;
use crate::error::ElementKind;
use crate::joint::BoltedJoint;

verus! {

/// Five collections of parts, and the joints built from them.
#[derive(Clone, Debug)]
pub struct Library {
    pub bolt: Vec<Bolt>,
    pub stud: Vec<Stud>,
    pub nut: Vec<Nut>,
    pub threaded: Vec<Threaded>,
    pub clamped: Vec<Clamped>,
    pub joint: Vec<BoltedJoint>,
}

/// The parts that a joint's references lead to.
#[derive(Clone, Copy, Debug)]
pub struct ResolvedJoint<'a> {
    pub bolt: Option<&'a Bolt>,
    pub stud: Option<&'a Stud>,
    pub nut: Option<&'a Nut>,
    pub threaded: Option<&'a Threaded>,
    pub clamped: Option<&'a Clamped>,
}

/// Whether a reference into a collection of `len` items leads nowhere.
pub open spec fn dangles(id: Option<usize>, len: nat) -> bool {
    id matches Some(i) && i >= len
}

/// The item that a reference leads to, if it references one.
pub open spec fn referenced<'a, T>(items: Seq<T>, id: Option<usize>) -> Option<&'a T> {
    match id {
        Some(i) => Some(&items[i as int]),
        None => None,
    }
}

/// Follows one reference into one collection.
pub fn fetch<'a, T>(items: &'a Vec<T>, id: Option<usize>, kind: ElementKind) -> (r: Result<
    Option<&'a T>,
    DanglingReference,
>)
    ensures
        r is Err <==> dangles(id, items@.len()),
        r matches Ok(found) ==> found == referenced(items@, id),
        r matches Err(e) ==> e.kind == kind && id == Some(e.index),
{
    match id {
        Some(i) => {
            if i < items.len() {
                Ok(Some(&items[i]))
            } else {
                Err(DanglingReference { kind, index: i })
            }
        },
        None => Ok(None),
    }
}

impl<'a> ResolvedJoint<'a> {
    /// Whether no element is attached.
    pub open spec fn is_empty(&self) -> bool {
        &&& self.bolt is None
        &&& self.stud is None
        &&& self.nut is None
        &&& self.threaded is None
        &&& self.clamped is None
    }

    /// Whether no element is attached.
    pub fn nothing_attached(&self) -> (b: bool)
        ensures
            b == self.is_empty(),
    {
        self.bolt.is_none() && self.stud.is_none() && self.nut.is_none()
            && self.threaded.is_none() && self.clamped.is_none()
    }
}

impl Library {
    /// The first reference of `joint` that leads nowhere, looking at bolt,
    /// stud, nut, threaded insert and clamped member in that order.
    pub open spec fn dangling(&self, joint: &BoltedJoint) -> Option<DanglingReference> {
        if dangles(joint.bolt_id, self.bolt@.len()) {
            Some(DanglingReference { kind: ElementKind::Bolt, index: joint.bolt_id->0 })
        } else if dangles(joint.stud_id, self.stud@.len()) {
            Some(DanglingReference { kind: ElementKind::Stud, index: joint.stud_id->0 })
        } else if dangles(joint.nut_id, self.nut@.len()) {
            Some(DanglingReference { kind: ElementKind::Nut, index: joint.nut_id->0 })
        } else if dangles(joint.threaded_id, self.threaded@.len()) {
            Some(DanglingReference { kind: ElementKind::Threaded, index: joint.threaded_id->0 })
        } else if dangles(joint.clamped_ids, self.clamped@.len()) {
            Some(DanglingReference { kind: ElementKind::Clamped, index: joint.clamped_ids->0 })
        } else {
            None
        }
    }

    /// The parts that the references of `joint` lead to.
    pub open spec fn attached(&self, joint: &BoltedJoint) -> ResolvedJoint<'_> {
        ResolvedJoint {
            bolt: referenced(self.bolt@, joint.bolt_id),
            stud: referenced(self.stud@, joint.stud_id),
            nut: referenced(self.nut@, joint.nut_id),
            threaded: referenced(self.threaded@, joint.threaded_id),
            clamped: referenced(self.clamped@, joint.clamped_ids),
        }
    }

    /// Whether every part and every reference of every stored joint is valid.
    pub open spec fn wf(&self) -> bool {
        &&& all_hold(self.bolt@)
        &&& all_hold(self.stud@)
        &&& all_hold(self.nut@)
        &&& all_hold(self.threaded@)
        &&& all_hold(self.clamped@)
        &&& self.joints_resolve()
    }

    /// Whether no reference of any stored joint dangles.
    pub open spec fn joints_resolve(&self) -> bool {
        forall|i: int|
            0 <= i < self.joint@.len() ==> self.dangling(#[trigger] &self.joint@[i]) is None
    }

    /// Tests every part against its invariant and every stored joint
    /// against the collections.
    pub fn is_valid(&self) -> (b: bool)
        ensures
            b == self.wf(),
    {
        if !(all_valid(&self.bolt) && all_valid(&self.stud) && all_valid(&self.nut) && all_valid(
            &self.threaded,
        ) && all_valid(&self.clamped)) {
            return false;
        }
        let mut i: usize = 0;
        while i < self.joint.len()
            invariant
                i <= self.joint@.len(),
                forall|k: int| 0 <= k < i ==> self.dangling(#[trigger] &self.joint@[k]) is None,
            decreases self.joint@.len() - i,
        {
            if self.resolve(&self.joint[i]).is_err() {
                return false;
            }
            i += 1;
        }
        true
    }

    /// An empty library.
    pub fn new() -> (l: Library)
        ensures
            l.bolt@.len() == 0,
            l.stud@.len() == 0,
            l.nut@.len() == 0,
            l.threaded@.len() == 0,
            l.clamped@.len() == 0,
            l.joint@.len() == 0,
            l.wf(),
    {
        Library {
            bolt: Vec::new(),
            stud: Vec::new(),
            nut: Vec::new(),
            threaded: Vec::new(),
            clamped: Vec::new(),
            joint: Vec::new(),
        }
    }

    /// Appends a bolt and returns its position.
    pub fn add_bolt(&mut self, bolt: Bolt) -> (id: usize)
        ensures
            id == old(self).bolt@.len(),
            *final(self) == (Library { bolt: final(self).bolt, ..*old(self) }),
            final(self).bolt@ == old(self).bolt@.push(bolt),
            old(self).wf() && bolt.wf() ==> final(self).wf(),
    {
        let id = self.bolt.len();
        self.bolt.push(bolt);
        id
    }

    /// Appends a stud and returns its position.
    pub fn add_stud(&mut self, stud: Stud) -> (id: usize)
        ensures
            id == old(self).stud@.len(),
            *final(self) == (Library { stud: final(self).stud, ..*old(self) }),
            final(self).stud@ == old(self).stud@.push(stud),
            old(self).wf() && stud.wf() ==> final(self).wf(),
    {
        let id = self.stud.len();
        self.stud.push(stud);
        id
    }

    /// Appends a nut and returns its position.
    pub fn add_nut(&mut self, nut: Nut) -> (id: usize)
        ensures
            id == old(self).nut@.len(),
            *final(self) == (Library { nut: final(self).nut, ..*old(self) }),
            final(self).nut@ == old(self).nut@.push(nut),
            old(self).wf() && nut.wf() ==> final(self).wf(),
    {
        let id = self.nut.len();
        self.nut.push(nut);
        id
    }

    /// Appends a threaded insert and returns its position.
    pub fn add_threaded(&mut self, threaded: Threaded) -> (id: usize)
        ensures
            id == old(self).threaded@.len(),
            *final(self) == (Library { threaded: final(self).threaded, ..*old(self) }),
            final(self).threaded@ == old(self).threaded@.push(threaded),
            old(self).wf() && threaded.wf() ==> final(self).wf(),
    {
        let id = self.threaded.len();
        self.threaded.push(threaded);
        id
    }

    /// Appends a clamped member and returns its position.
    pub fn add_clamped(&mut self, clamped: Clamped) -> (id: usize)
        ensures
            id == old(self).clamped@.len(),
            *final(self) == (Library { clamped: final(self).clamped, ..*old(self) }),
            final(self).clamped@ == old(self).clamped@.push(clamped),
            old(self).wf() && clamped.wf() ==> final(self).wf(),
    {
        let id = self.clamped.len();
        self.clamped.push(clamped);
        id
    }

    /// Appends a joint and returns its position. The joint's references are
    /// taken as they are; [`Library::resolve`] finds those that dangle.
    pub fn add_joint(&mut self, joint: BoltedJoint) -> (id: usize)
        ensures
            id == old(self).joint@.len(),
            *final(self) == (Library { joint: final(self).joint, ..*old(self) }),
            final(self).joint@ == old(self).joint@.push(joint),
            old(self).wf() && old(self).dangling(&joint) is None ==> final(self).wf(),
    {
        let id = self.joint.len();
        self.joint.push(joint);
        id
    }

    /// Follows the references of `joint` into the collections. A reference
    /// past the end of its collection is reported, never read as another
    /// position.
    pub fn resolve<'a>(&'a self, joint: &BoltedJoint) -> (r: Result<
        ResolvedJoint<'a>,
        DanglingReference,
    >)
        ensures
            r is Ok <==> self.dangling(joint) is None,
            r matches Ok(found) ==> found == self.attached(joint),
            r matches Err(e) ==> self.dangling(joint) == Some(e),
    {
        let bolt = match fetch(&self.bolt, joint.bolt_id, ElementKind::Bolt) {
            Ok(found) => found,
            Err(e) => { return Err(e); },
        };
        let stud = match fetch(&self.stud, joint.stud_id, ElementKind::Stud) {
            Ok(found) => found,
            Err(e) => { return Err(e); },
        };
        let nut = match fetch(&self.nut, joint.nut_id, ElementKind::Nut) {
            Ok(found) => found,
            Err(e) => { return Err(e); },
        };
        let threaded = match fetch(&self.threaded, joint.threaded_id, ElementKind::Threaded) {
            Ok(found) => found,
            Err(e) => { return Err(e); },
        };
        let clamped = match fetch(&self.clamped, joint.clamped_ids, ElementKind::Clamped) {
            Ok(found) => found,
            Err(e) => { return Err(e); },
        };
        Ok(ResolvedJoint { bolt, stud, nut, threaded, clamped })
    }
}

impl Default for Library {
    fn default() -> (l: Library)
        ensures
            l.bolt@.len() == 0,
            l.stud@.len() == 0,
            l.nut@.len() == 0,
            l.threaded@.len() == 0,
            l.clamped@.len() == 0,
            l.joint@.len() == 0,
    {
        Library::new()
    }
}

/// A joint that references nothing resolves in every library, and to
/// nothing.
pub proof fn law_unattached_joint_resolves(library: Library, joint: BoltedJoint)
    requires
        joint.is_unattached(),
    ensures
        library.dangling(&joint) is None,
        library.attached(&joint).is_empty(),
{
}

/// A joint resolves exactly when each of its references lies within its
/// collection.
pub proof fn law_resolves_iff_in_range(library: Library, joint: BoltedJoint)
    ensures
        library.dangling(&joint) is None <==> {
            &&& joint.bolt_id matches Some(i) ==> i < library.bolt@.len()
            &&& joint.stud_id matches Some(i) ==> i < library.stud@.len()
            &&& joint.nut_id matches Some(i) ==> i < library.nut@.len()
            &&& joint.threaded_id matches Some(i) ==> i < library.threaded@.len()
            &&& joint.clamped_ids matches Some(i) ==> i < library.clamped@.len()
        },
{
}

/// Appending to one collection leaves every joint that resolved resolving to
/// the same parts.
pub proof fn law_append_keeps_references(before: Library, after: Library, joint: BoltedJoint)
    requires
        before.dangling(&joint) is None,
        before.bolt@.is_prefix_of(after.bolt@),
        before.stud@.is_prefix_of(after.stud@),
        before.nut@.is_prefix_of(after.nut@),
        before.threaded@.is_prefix_of(after.threaded@),
        before.clamped@.is_prefix_of(after.clamped@),
    ensures
        after.dangling(&joint) is None,
        after.attached(&joint) == before.attached(&joint),
{
}

} // verus!
