use salsa::{ChangedAt, ConstantViolation, CycleDetected, InputStorage, Revision, Runtime, StampedValue};

fn parts(s: &StampedValue) -> (u64, ChangedAt) {
    (s.value, s.changed_at)
}

fn rev(n: u64) -> Revision {
    Revision { number: n }
}

#[test]
fn absent_key_reads_default() {
    let s = InputStorage::new();
    let r = s.read(&'x');
    assert_eq!(parts(&r), (0, ChangedAt::Revision(rev(0))));
    assert!(!s.is_constant(&'x'));
    assert!(!s.maybe_changed_since(rev(0), &'x'));
}

#[test]
fn default_storage_is_empty() {
    let s = InputStorage::default();
    assert_eq!(s.read(&'a').value, 0);
    let rt = Runtime::default();
    assert_eq!(rt.current_revision(), rev(0));
    assert!(rt.active.is_none());
}

#[test]
fn set_stores_value_at_new_revision() {
    let mut rt = Runtime::new();
    let mut s = InputStorage::new();
    s.set(&mut rt, &'a', 22);
    assert_eq!(rt.current_revision(), rev(1));
    assert_eq!(parts(&s.read(&'a')), (22, ChangedAt::Revision(rev(1))));
    s.set(&mut rt, &'b', 44);
    assert_eq!(rt.current_revision(), rev(2));
    assert_eq!(parts(&s.read(&'b')), (44, ChangedAt::Revision(rev(2))));
    assert_eq!(parts(&s.read(&'a')), (22, ChangedAt::Revision(rev(1))));
}

#[test]
fn revisions_never_go_back() {
    let mut rt = Runtime::new();
    let mut s = InputStorage::new();
    let mut last = 0;
    for (i, v) in [5u64, 5, 6, 6, 7].iter().enumerate() {
        let before = rt.current_revision().number;
        if i % 2 == 0 {
            s.set(&mut rt, &'k', *v);
        } else {
            s.set_constant(&mut rt, &'k', *v);
        }
        let now = s.read(&'k').changed_at.revision().number;
        assert!(now >= last);
        if i == 0 || i == 2 || i == 4 {
            assert!(now > before);
        }
        last = now;
    }
}

#[test]
fn same_value_write_is_noop() {
    let mut rt = Runtime::new();
    let mut s = InputStorage::new();
    s.set(&mut rt, &'a', 22);
    s.set(&mut rt, &'b', 1);
    s.set(&mut rt, &'a', 22);
    assert_eq!(rt.current_revision(), rev(2));
    assert_eq!(parts(&s.read(&'a')), (22, ChangedAt::Revision(rev(1))));
}

#[test]
fn promotion_without_change_retags_only() {
    let mut rt = Runtime::new();
    let mut s = InputStorage::new();
    s.set(&mut rt, &'a', 22);
    s.set(&mut rt, &'b', 44);
    s.set_constant(&mut rt, &'a', 22);
    assert_eq!(rt.current_revision(), rev(2));
    assert_eq!(parts(&s.read(&'a')), (22, ChangedAt::Constant(rev(2))));
    assert!(s.is_constant(&'a'));
}

#[test]
fn promotion_with_change_mints_revision() {
    let mut rt = Runtime::new();
    let mut s = InputStorage::new();
    s.set(&mut rt, &'a', 22);
    s.set_constant(&mut rt, &'a', 23);
    assert_eq!(rt.current_revision(), rev(2));
    assert_eq!(parts(&s.read(&'a')), (23, ChangedAt::Constant(rev(2))));
}

#[test]
fn constant_is_terminal() {
    let mut rt = Runtime::new();
    let mut s = InputStorage::new();
    s.set_constant(&mut rt, &'a', 44);
    assert_eq!(
        s.check_write(&'a', 66),
        Err(ConstantViolation { key: 'a', old_value: 44, new_value: 66 })
    );
    assert_eq!(s.check_write(&'a', 44), Ok(()));
    assert_eq!(s.check_write(&'b', 66), Ok(()));
    s.set_constant(&mut rt, &'a', 44);
    s.set(&mut rt, &'a', 44);
    assert_eq!(rt.current_revision(), rev(1));
    assert_eq!(parts(&s.read(&'a')), (44, ChangedAt::Constant(rev(1))));
}

#[test]
fn non_constant_key_may_change() {
    let mut rt = Runtime::new();
    let mut s = InputStorage::new();
    s.set(&mut rt, &'a', 44);
    assert_eq!(s.check_write(&'a', 66), Ok(()));
}

#[test]
fn queries_are_repeatable() {
    let mut rt = Runtime::new();
    let mut s = InputStorage::new();
    s.set_constant(&mut rt, &'a', 3);
    let first = (s.read(&'a'), s.is_constant(&'a'));
    for _ in 0..3 {
        assert_eq!((parts(&s.read(&'a')), s.is_constant(&'a')), (parts(&first.0), first.1));
    }
}

#[test]
fn changed_since_compares_revisions() {
    let mut rt = Runtime::new();
    let mut s = InputStorage::new();
    s.set(&mut rt, &'a', 1);
    s.set_constant(&mut rt, &'b', 2);
    assert!(s.maybe_changed_since(rev(0), &'a'));
    assert!(!s.maybe_changed_since(rev(1), &'a'));
    assert!(s.maybe_changed_since(rev(1), &'b'));
    assert!(!s.maybe_changed_since(rev(2), &'b'));
    assert!(ChangedAt::Constant(rev(5)).changed_since(rev(4)));
    assert!(!ChangedAt::Constant(rev(5)).changed_since(rev(5)));
}

#[test]
fn set_unchecked_uses_current_revision() {
    let mut rt = Runtime::new();
    let mut s = InputStorage::new();
    s.set(&mut rt, &'a', 1);
    s.set(&mut rt, &'b', 2);
    s.set_unchecked(&rt, &'a', 9);
    assert_eq!(rt.current_revision(), rev(2));
    assert_eq!(parts(&s.read(&'a')), (9, ChangedAt::Revision(rev(2))));
}

#[test]
fn try_fetch_reports_reads() {
    let mut rt = Runtime::new();
    let mut s = InputStorage::new();
    s.set_constant(&mut rt, &'a', 1);
    s.set(&mut rt, &'b', 2);
    assert_eq!(s.try_fetch(&mut rt, &'a'), Ok::<u64, CycleDetected>(1));
    assert!(rt.active.is_none());
    rt.begin_query();
    assert_eq!(s.try_fetch(&mut rt, &'a'), Ok(1));
    assert_eq!(rt.active, Some(ChangedAt::Constant(rev(1))));
    assert_eq!(s.try_fetch(&mut rt, &'b'), Ok(2));
    assert_eq!(rt.end_query(), Some(ChangedAt::Revision(rev(2))));
    assert!(rt.active.is_none());
}

#[test]
fn join_takes_latest_and_constant_only_if_both() {
    let a = ChangedAt::Constant(rev(3));
    let b = ChangedAt::Revision(rev(7));
    assert_eq!(a.join(&b), ChangedAt::Revision(rev(7)));
    assert_eq!(a.join(&ChangedAt::Constant(rev(2))), ChangedAt::Constant(rev(3)));
    assert_eq!(b.join(&b), b);
}

#[test]
fn increment_reaches_largest_revision() {
    let mut rt = Runtime::new();
    rt.revision = rev(u64::MAX - 1);
    let mut s = InputStorage::new();
    s.set(&mut rt, &'a', 1);
    assert_eq!(rt.current_revision(), rev(u64::MAX));
    assert_eq!(s.read(&'a').changed_at, ChangedAt::Revision(rev(u64::MAX)));
    assert_eq!(Revision::zero(), rev(0));
}

#[test]
fn many_keys_are_kept_apart() {
    let mut rt = Runtime::new();
    let mut s = InputStorage::new();
    for (i, k) in ('a'..='z').enumerate() {
        s.set(&mut rt, &k, i as u64 + 100);
    }
    for (i, k) in ('a'..='z').enumerate() {
        assert_eq!(s.read(&k).value, i as u64 + 100);
        assert_eq!(s.read(&k).changed_at, ChangedAt::Revision(rev(i as u64 + 1)));
    }
}

#[test]
fn writing_default_to_absent_key_is_a_change() {
    let mut rt = Runtime::new();
    let mut s = InputStorage::new();
    assert!(s.mints_revision(&'a', 0));
    s.set(&mut rt, &'a', 0);
    assert_eq!(rt.current_revision(), rev(1));
    assert!(!s.mints_revision(&'a', 0));
    assert!(s.mints_revision(&'a', 1));
}
