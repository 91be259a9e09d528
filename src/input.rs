use vstd::prelude::*;
use crate::revision::{ChangedAt, Revision, StampedValue};
use crate::runtime::Runtime;
use crate::table::{table_entries, table_get, table_insert, table_new, StampTable};

verus! {

/// The error shared with derived storage, whose computations may depend on
/// themselves. Input storage never produces it.
#[derive(Clone, Copy, Debug, PartialEq, Eq, Structural)]
pub struct CycleDetected;

/// A write that would change the value of a key already marked constant.
#[derive(Clone, Copy, Debug, PartialEq, Eq, Structural)]
pub struct ConstantViolation {
    pub key: char,
    pub old_value: u64,
    pub new_value: u64,
}

/// What a key never written reads as: the default value at the least
/// revision, not constant.
pub open spec fn absent_stamp() -> StampedValue {
    StampedValue { value: 0, changed_at: ChangedAt::Revision(Revision { number: 0 }) }
}

/// The stamp that `key` reads as in `m`.
pub open spec fn stamp_of(m: Map<char, StampedValue>, key: char) -> StampedValue {
    if m.contains_key(key) {
        m[key]
    } else {
        absent_stamp()
    }
}

/// Whether `key` already holds `value` in `m`.
pub open spec fn holds_value(m: Map<char, StampedValue>, key: char, value: u64) -> bool {
    m.contains_key(key) && m[key].value == value
}

/// Whether writing `value` to `key` would break the promise of a constant.
pub open spec fn violates_constant(m: Map<char, StampedValue>, key: char, value: u64) -> bool {
    m.contains_key(key) && m[key].changed_at is Constant && m[key].value != value
}

/// Whether a write of `value` to `key` is a real change, which mints a
/// revision.
pub open spec fn is_real_change(m: Map<char, StampedValue>, key: char, value: u64) -> bool {
    !holds_value(m, key, value)
}

/// The table after writing `value` to `key` (as a constant if `constant`)
/// when the latest minted revision is `current`.
pub open spec fn after_write(
    m: Map<char, StampedValue>,
    current: u64,
    key: char,
    value: u64,
    constant: bool,
) -> Map<char, StampedValue> {
    if holds_value(m, key, value) {
        if constant && !(m[key].changed_at is Constant) {
            m.insert(
                key,
                StampedValue {
                    value,
                    changed_at: ChangedAt::Constant(Revision { number: current }),
                },
            )
        } else {
            m
        }
    } else {
        let next = Revision { number: (current + 1) as u64 };
        m.insert(
            key,
            StampedValue {
                value,
                changed_at: if constant {
                    ChangedAt::Constant(next)
                } else {
                    ChangedAt::Revision(next)
                },
            },
        )
    }
}

/// The revision counter after such a write.
pub open spec fn revision_after_write(
    m: Map<char, StampedValue>,
    current: u64,
    key: char,
    value: u64,
) -> u64 {
    if is_real_change(m, key, value) {
        (current + 1) as u64
    } else {
        current
    }
}

/// The facts of one input query: a table from key to stamped value.
pub struct InputStorage {
    map: StampTable,
}

impl View for InputStorage {
    type V = Map<char, StampedValue>;

    closed spec fn view(&self) -> Map<char, StampedValue> {
        table_entries(self.map)
    }
}

impl InputStorage {
    /// No stamp in the table is later than the revision `current`.
    pub open spec fn stamps_within(&self, current: u64) -> bool {
        forall|k: char| #[trigger]
            self@.contains_key(k) ==> self@[k].changed_at.revision_of() <= current
    }

    /// A storage with no facts.
    pub fn new() -> (r: InputStorage)
        ensures
            r@.is_empty(),
    {
        InputStorage { map: table_new() }
    }

    /// The stamp of `key`, or the default value at the least revision if
    /// `key` was never written.
    pub fn read(&self, key: &char) -> (r: StampedValue)
        ensures
            r == stamp_of(self@, *key),
            !self@.contains_key(*key) ==> r == absent_stamp(),
    {
        match table_get(&self.map, *key) {
            Some(stamp) => stamp,
            None => StampedValue {
                value: 0,
                changed_at: ChangedAt::Revision(Revision::zero()),
            },
        }
    }

    /// Reads `key` on behalf of the running computation, reporting the stamp
    /// it saw to `runtime`. Never fails.
    pub fn try_fetch(&self, runtime: &mut Runtime, key: &char) -> (r: Result<u64, CycleDetected>)
        ensures
            r == Ok::<u64, CycleDetected>(stamp_of(self@, *key).value),
            final(runtime).revision == old(runtime).revision,
            final(runtime).active == (match old(runtime).active {
                Some(c) => Some(c.spec_join(stamp_of(self@, *key).changed_at)),
                None => None,
            }),
    {
        let stamp = self.read(key);
        runtime.report_query_read(stamp.changed_at);
        Ok(stamp.value)
    }

    /// Whether `key` changed after `revision`.
    pub fn maybe_changed_since(&self, revision: Revision, key: &char) -> (r: bool)
        ensures
            r == (stamp_of(self@, *key).changed_at.revision_of() > revision.number),
    {
        self.read(key).changed_at.changed_since(revision)
    }

    /// Whether `key` is marked constant; a key never written is not.
    pub fn is_constant(&self, key: &char) -> (r: bool)
        ensures
            r == (self@.contains_key(*key) && self@[*key].changed_at is Constant),
    {
        match table_get(&self.map, *key) {
            Some(stamp) => stamp.changed_at.is_constant(),
            None => false,
        }
    }

    /// Whether writing `value` to `key` is a real change, which mints a
    /// revision: the key is absent or holds another value.
    pub fn mints_revision(&self, key: &char, value: u64) -> (r: bool)
        ensures
            r == is_real_change(self@, *key, value),
    {
        match table_get(&self.map, *key) {
            Some(stamp) => stamp.value != value,
            None => true,
        }
    }

    /// Checks a write of `value` to `key` against the promise of constants.
    pub fn check_write(&self, key: &char, value: u64) -> (r: Result<(), ConstantViolation>)
        ensures
            r is Err <==> violates_constant(self@, *key, value),
            r matches Err(e) ==> e == (ConstantViolation {
                key: *key,
                old_value: self@[*key].value,
                new_value: value,
            }),
    {
        match table_get(&self.map, *key) {
            Some(stamp) => {
                if stamp.changed_at.is_constant() && stamp.value != value {
                    Err(ConstantViolation { key: *key, old_value: stamp.value, new_value: value })
                } else {
                    Ok(())
                }
            },
            None => Ok(()),
        }
    }

    /// Writes `value` to `key`. A write of the value already held changes at
    /// most the constant mark, and mints no revision; any other write mints a
    /// revision, then stores the value stamped with it.
    fn set_common(&mut self, runtime: &mut Runtime, key: &char, value: u64, constant: bool)
        requires
            !violates_constant(old(self)@, *key, value),
            old(runtime).revision.number < u64::MAX,
        ensures
            final(self)@ == after_write(
                old(self)@,
                old(runtime).revision.number,
                *key,
                value,
                constant,
            ),
            final(runtime).revision.number == revision_after_write(
                old(self)@,
                old(runtime).revision.number,
                *key,
                value,
            ),
            final(runtime).active == old(runtime).active,
    {
        match table_get(&self.map, *key) {
            Some(old_stamp) => {
                if old_stamp.value == value {
                    if constant && !old_stamp.changed_at.is_constant() {
                        let current = runtime.current_revision();
                        table_insert(
                            &mut self.map,
                            *key,
                            StampedValue { value, changed_at: ChangedAt::Constant(current) },
                        );
                    }
                    return;
                }
            },
            None => {},
        }
        // The revision is minted before the table is written, so that
        // readers of the old revision still see a consistent table.
        let next = runtime.increment_revision();
        let changed_at = if constant {
            ChangedAt::Constant(next)
        } else {
            ChangedAt::Revision(next)
        };
        table_insert(&mut self.map, *key, StampedValue { value, changed_at });
    }

    /// Writes `value` to `key` as a fact that may change again.
    pub fn set(&mut self, runtime: &mut Runtime, key: &char, value: u64)
        requires
            !violates_constant(old(self)@, *key, value),
            old(runtime).revision.number < u64::MAX,
        ensures
            final(self)@ == after_write(
                old(self)@,
                old(runtime).revision.number,
                *key,
                value,
                false,
            ),
            final(runtime).revision.number == revision_after_write(
                old(self)@,
                old(runtime).revision.number,
                *key,
                value,
            ),
            final(runtime).active == old(runtime).active,
    {
        self.set_common(runtime, key, value, false)
    }

    /// Writes `value` to `key` as a constant: it may never change again.
    pub fn set_constant(&mut self, runtime: &mut Runtime, key: &char, value: u64)
        requires
            !violates_constant(old(self)@, *key, value),
            old(runtime).revision.number < u64::MAX,
        ensures
            final(self)@ == after_write(
                old(self)@,
                old(runtime).revision.number,
                *key,
                value,
                true,
            ),
            final(runtime).revision.number == revision_after_write(
                old(self)@,
                old(runtime).revision.number,
                *key,
                value,
            ),
            final(runtime).active == old(runtime).active,
    {
        self.set_common(runtime, key, value, true)
    }

    /// Writes `value` to `key` stamped with the current revision, minting
    /// none: computations memoized on the old value are not told.
    pub fn set_unchecked(&mut self, runtime: &Runtime, key: &char, value: u64)
        ensures
            final(self)@ == old(self)@.insert(
                *key,
                StampedValue { value, changed_at: ChangedAt::Revision(runtime.revision) },
            ),
    {
        let changed_at = ChangedAt::Revision(runtime.current_revision());
        table_insert(&mut self.map, *key, StampedValue { value, changed_at });
    }
}

impl Default for InputStorage {
    fn default() -> (r: InputStorage)
        ensures
            r@.is_empty(),
    {
        InputStorage::new()
    }
}

} // verus!
