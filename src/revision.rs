use vstd::prelude::*;

verus! {

/// A logical timestamp. Revisions are totally ordered by their number, and
/// the revision numbered zero stands for "no revision observed yet".
#[derive(Clone, Copy, Debug, PartialEq, Eq, Structural, PartialOrd, Ord, Hash)]
pub struct Revision {
    pub number: u64,
}

impl Revision {
    /// The least revision.
    pub fn zero() -> (r: Revision)
        ensures
            r.number == 0,
    {
        Revision { number: 0 }
    }
}

/// When a fact last changed, and whether it may change again.
#[derive(Clone, Copy, Debug, PartialEq, Eq, Structural)]
pub enum ChangedAt {
    /// Last written with a new value at this revision; it may change again.
    Revision(Revision),
    /// Fixed at this revision; its value never changes again.
    Constant(Revision),
}

impl ChangedAt {
    /// The revision carried by either variant.
    pub open spec fn revision_of(self) -> u64 {
        match self {
            ChangedAt::Revision(r) => r.number,
            ChangedAt::Constant(r) => r.number,
        }
    }

    pub fn revision(&self) -> (r: Revision)
        ensures
            r.number == self.revision_of(),
    {
        match self {
            ChangedAt::Revision(r) => *r,
            ChangedAt::Constant(r) => *r,
        }
    }

    pub fn is_constant(&self) -> (r: bool)
        ensures
            r == (*self is Constant),
    {
        match self {
            ChangedAt::Revision(_) => false,
            ChangedAt::Constant(_) => true,
        }
    }

    /// Whether the fact changed after `revision`; a constant compares by its
    /// revision exactly as a non-constant does.
    pub fn changed_since(&self, revision: Revision) -> (r: bool)
        ensures
            r == (self.revision_of() > revision.number),
    {
        self.revision().number > revision.number
    }

    /// The stamp of a computation that read facts stamped `self` and `other`:
    /// the later of the two revisions, constant only if both are.
    pub open spec fn spec_join(self, other: ChangedAt) -> ChangedAt {
        let n = if self.revision_of() >= other.revision_of() {
            self.revision_of()
        } else {
            other.revision_of()
        };
        if self is Constant && other is Constant {
            ChangedAt::Constant(Revision { number: n })
        } else {
            ChangedAt::Revision(Revision { number: n })
        }
    }

    pub fn join(&self, other: &ChangedAt) -> (r: ChangedAt)
        ensures
            r == self.spec_join(*other),
    {
        let a = self.revision().number;
        let b = other.revision().number;
        let n = if a >= b { a } else { b };
        if self.is_constant() && other.is_constant() {
            ChangedAt::Constant(Revision { number: n })
        } else {
            ChangedAt::Revision(Revision { number: n })
        }
    }
}

/// A value together with its `ChangedAt` stamp: what storage holds per key and
/// what a reader gets back. Whether a write changes anything is decided on
/// `value` alone, never on the stamp.
#[derive(Clone, Copy, Debug)]
pub struct StampedValue {
    pub value: u64,
    pub changed_at: ChangedAt,
}

} // verus!
