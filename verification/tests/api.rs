//! Tests of the public API.

use std::ops::DerefMut;

use lock_ordering::lock::MutexLockLevel;
use lock_ordering::relation::{LockAfter, LockBefore};
use lock_ordering::{LockLevel, LockedAt, MutualExclusion, Unlocked};

enum Inner {}

impl LockLevel for Inner {
    type Method = MutualExclusion;
}

impl MutexLockLevel for Inner {
    type Mutex = std::sync::Mutex<()>;
}

impl LockAfter<Unlocked> for Inner {}

#[derive(Default)]
struct State {
    inner: std::sync::Mutex<()>,
}

#[allow(unused)]
impl State {
    fn lock<'s, L: LockBefore<Inner>>(
        &'s self,
        locked: &'s mut LockedAt<'_, L>,
    ) -> (LockedAt<'s, Inner>, impl DerefMut<Target = ()> + 's) {
        let (locked, inner) = locked.with_lock(&self.inner).unwrap();
        (locked, inner)
    }
}

/// Make sure we can write `L: LockBefore<OurLock>` as a bound on methods.
#[test]
fn lock_before_as_bound() {}

enum First {}

enum Second {}

impl LockAfter<Unlocked> for First {}

impl LockAfter<First> for Second {}

impl<L> LockAfter<L> for Second where First: LockAfter<L> {}

#[allow(unused)]
fn assert_lock_after<B: LockAfter<A>, A>() {}

#[test]
fn transitive_lock_relations() {
    assert_lock_after::<Second, Unlocked>();
}
