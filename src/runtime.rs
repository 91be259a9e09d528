use vstd::prelude::*;
use crate::revision::{ChangedAt, Revision};

verus! {

/// The revision counter shared by every input storage of one database, and
/// the frame of the derived computation now running, which gathers the stamps
/// of the facts that it reads.
pub struct Runtime {
    pub revision: Revision,
    pub active: Option<ChangedAt>,
}

impl Runtime {
    /// A runtime at the least revision with no computation running.
    pub fn new() -> (r: Runtime)
        ensures
            r.revision.number == 0,
            r.active is None,
    {
        Runtime { revision: Revision::zero(), active: None }
    }

    /// The latest minted revision.
    pub fn current_revision(&self) -> (r: Revision)
        ensures
            r == self.revision,
    {
        self.revision
    }

    /// Mints a revision greater than every one minted before it.
    pub fn increment_revision(&mut self) -> (r: Revision)
        requires
            old(self).revision.number < u64::MAX,
        ensures
            r.number == old(self).revision.number + 1,
            final(self).revision == r,
            final(self).active == old(self).active,
    {
        self.revision = Revision { number: self.revision.number + 1 };
        self.revision
    }

    /// Starts a derived computation: it has read nothing yet, so its stamp is
    /// constant at the least revision.
    pub fn begin_query(&mut self)
        ensures
            final(self).revision == old(self).revision,
            final(self).active == Some(ChangedAt::Constant(Revision { number: 0 })),
    {
        self.active = Some(ChangedAt::Constant(Revision::zero()));
    }

    /// Records that the running computation, if any, read a fact stamped
    /// `changed_at`.
    pub fn report_query_read(&mut self, changed_at: ChangedAt)
        ensures
            final(self).revision == old(self).revision,
            final(self).active == (match old(self).active {
                Some(c) => Some(c.spec_join(changed_at)),
                None => None,
            }),
    {
        match self.active {
            Some(c) => {
                self.active = Some(c.join(&changed_at));
            },
            None => {},
        }
    }

    /// Ends the running computation and hands back its stamp: the latest
    /// revision among what it read, constant only if all of it was.
    pub fn end_query(&mut self) -> (r: Option<ChangedAt>)
        ensures
            r == old(self).active,
            final(self).revision == old(self).revision,
            final(self).active is None,
    {
        let r = self.active;
        self.active = None;
        r
    }
}

impl Default for Runtime {
    fn default() -> (r: Runtime)
        ensures
            r.revision.number == 0,
            r.active is None,
    {
        Runtime::new()
    }
}

} // verus!
