use vstd::prelude::*;
use crate::input::{
    after_write, holds_value, revision_after_write, violates_constant, InputStorage,
};
use crate::revision::{ChangedAt, Revision, StampedValue};

verus! {

/// A write through `set` or `set_constant` never moves any key's revision
/// back, and keeps every stamp within the revision counter. A write that
/// changes a value stamps it with a revision greater than every revision
/// minted before it. Applied write after write, this holds for any sequence
/// of writes.
pub proof fn lemma_write_is_monotone(
    s: InputStorage,
    current: u64,
    key: char,
    value: u64,
    constant: bool,
)
    requires
        s.stamps_within(current),
        !violates_constant(s@, key, value),
        current < u64::MAX,
    ensures
        forall|k: char| #[trigger]
            s@.contains_key(k) ==> after_write(s@, current, key, value, constant).contains_key(k)
                && after_write(s@, current, key, value, constant)[k].changed_at.revision_of()
                >= s@[k].changed_at.revision_of(),
        forall|k: char| #[trigger]
            after_write(s@, current, key, value, constant).contains_key(k)
                ==> after_write(s@, current, key, value, constant)[k].changed_at.revision_of()
                <= revision_after_write(s@, current, key, value),
        !holds_value(s@, key, value) ==> after_write(
            s@,
            current,
            key,
            value,
            constant,
        )[key].changed_at.revision_of() > current,
        revision_after_write(s@, current, key, value) >= current,
{
}

/// `set_unchecked` never moves any key's revision back either, and keeps
/// every stamp within the revision counter, which it does not advance.
pub proof fn lemma_unchecked_write_is_monotone(s: InputStorage, current: u64, key: char, value: u64)
    requires
        s.stamps_within(current),
    ensures
        forall|k: char| #[trigger]
            s@.contains_key(k) ==> s@.insert(
                key,
                StampedValue { value, changed_at: ChangedAt::Revision(Revision { number: current }) },
            )[k].changed_at.revision_of() >= s@[k].changed_at.revision_of(),
        forall|k: char| #[trigger]
            s@.insert(
                key,
                StampedValue { value, changed_at: ChangedAt::Revision(Revision { number: current }) },
            ).contains_key(k) ==> s@.insert(
                key,
                StampedValue { value, changed_at: ChangedAt::Revision(Revision { number: current }) },
            )[k].changed_at.revision_of() <= current,
{
}

/// Writing the value a key already holds, without newly making it constant,
/// changes nothing and mints no revision.
pub proof fn lemma_same_value_write_is_noop(
    s: InputStorage,
    current: u64,
    key: char,
    value: u64,
    constant: bool,
)
    requires
        holds_value(s@, key, value),
        constant ==> s@[key].changed_at is Constant,
    ensures
        after_write(s@, current, key, value, constant) == s@,
        revision_after_write(s@, current, key, value) == current,
{
}

/// Marking a non-constant key constant with the value it already holds only
/// retags it as constant at the current revision, and mints no revision.
pub proof fn lemma_promotion_keeps_revision(s: InputStorage, current: u64, key: char, value: u64)
    requires
        holds_value(s@, key, value),
        !(s@[key].changed_at is Constant),
    ensures
        after_write(s@, current, key, value, true) == s@.insert(
            key,
            StampedValue { value, changed_at: ChangedAt::Constant(Revision { number: current }) },
        ),
        revision_after_write(s@, current, key, value) == current,
{
}

/// Marking a key constant with a value it does not hold mints a revision and
/// stores the value as constant at that revision.
pub proof fn lemma_promotion_with_new_value(s: InputStorage, current: u64, key: char, value: u64)
    requires
        !holds_value(s@, key, value),
        current < u64::MAX,
    ensures
        after_write(s@, current, key, value, true)[key] == (StampedValue {
            value,
            changed_at: ChangedAt::Constant(Revision { number: (current + 1) as u64 }),
        }),
        revision_after_write(s@, current, key, value) == current + 1,
{
}

/// Once a key is constant, every write of another value breaks its promise,
/// which `check_write` reports and `set` and `set_constant` do not admit,
/// while every write of the same value leaves the table and the revision as
/// they were.
pub proof fn lemma_constant_is_terminal(s: InputStorage, current: u64, key: char)
    requires
        s@.contains_key(key),
        s@[key].changed_at is Constant,
    ensures
        forall|v: u64| v != s@[key].value ==> #[trigger] violates_constant(s@, key, v),
        forall|c: bool| #[trigger] after_write(s@, current, key, s@[key].value, c) == s@,
        revision_after_write(s@, current, key, s@[key].value) == current,
{
}

} // verus!
