//! Scenario tests for the `LockedAt` context.

use std::sync::{Mutex, RwLock};

use lock_ordering::lock::{MutexLockLevel, RwLockLevel};
use lock_ordering::relation::LockAfter;
use lock_ordering::{LockLevel, LockedAt, MutualExclusion, ReadWrite, Unlocked};

enum LevelA {}

enum LevelB {}

impl LockLevel for LevelA {
    type Method = MutualExclusion;
}

impl MutexLockLevel for LevelA {
    type Mutex = Mutex<u32>;
}

impl LockAfter<Unlocked> for LevelA {}

impl LockLevel for LevelB {
    type Method = MutualExclusion;
}

impl MutexLockLevel for LevelB {
    type Mutex = Mutex<u32>;
}

impl LockAfter<LevelA> for LevelB {}

impl<L> LockAfter<L> for LevelB where LevelA: LockAfter<L> {}

/// A freshly created context occupies no storage at all.
#[test]
fn context_is_zero_sized() {
    assert_eq!(core::mem::size_of::<LockedAt<'static, Unlocked>>(), 0);
    assert_eq!(core::mem::size_of::<LockedAt<'static, LevelA>>(), 0);
}

/// Nested acquisition down a declared chain, repeated in scopes.
#[test]
fn nested_acquisition_counts_to_sixteen() {
    let a = Mutex::new(0u32);
    let b = Mutex::new(0u32);
    for _ in 0..16 {
        let mut root = LockedAt::new();
        let (mut at_a, mut guard_a) = root.with_lock::<LevelA>(&a).unwrap();
        {
            let mut guard_b = at_a.lock::<LevelB>(&b).unwrap();
            *guard_b += 1;
        }
        *guard_a += 1;
    }
    assert_eq!(*a.lock().unwrap(), 16);
    assert_eq!(*b.lock().unwrap(), 16);
}

/// Skipping to a level restricts the child exactly as acquiring that level
/// would, and releases the parent when the child scope ends.
#[test]
fn skip_locking_then_acquire() {
    let b = Mutex::new(0u32);
    let mut root = LockedAt::new();
    {
        let mut at_a: LockedAt<'_, LevelA> = root.skip_locking::<LevelA>();
        let mut guard_b = at_a.lock::<LevelB>(&b).unwrap();
        *guard_b += 1;
    }
    let guard_b = root.lock::<LevelB>(&b).unwrap();
    assert_eq!(*guard_b, 1);
}

enum IndepA {}

enum IndepB {}

impl LockLevel for IndepA {
    type Method = MutualExclusion;
}

impl MutexLockLevel for IndepA {
    type Mutex = Mutex<u32>;
}

impl LockAfter<Unlocked> for IndepA {}

impl LockLevel for IndepB {
    type Method = MutualExclusion;
}

impl MutexLockLevel for IndepB {
    type Mutex = Mutex<u32>;
}

impl LockAfter<Unlocked> for IndepB {}

/// Two unrelated levels: each can be taken alone under a fresh root.
#[test]
fn independent_levels_each_acquirable() {
    let a = Mutex::new(7u32);
    let b = Mutex::new(9u32);
    {
        let mut root = LockedAt::new();
        let guard_a = root.lock::<IndepA>(&a).unwrap();
        assert_eq!(*guard_a, 7);
    }
    {
        let mut root = LockedAt::new();
        let guard_b = root.lock::<IndepB>(&b).unwrap();
        assert_eq!(*guard_b, 9);
    }
}

enum ChainA {}

enum ChainB {}

enum ChainC {}

enum ChainD {}

impl LockLevel for ChainA {
    type Method = MutualExclusion;
}

impl MutexLockLevel for ChainA {
    type Mutex = Mutex<u32>;
}

impl LockAfter<Unlocked> for ChainA {}

impl LockLevel for ChainB {
    type Method = MutualExclusion;
}

impl MutexLockLevel for ChainB {
    type Mutex = Mutex<u32>;
}

impl LockAfter<ChainA> for ChainB {}

impl<L> LockAfter<L> for ChainB where ChainA: LockAfter<L> {}

impl LockLevel for ChainC {
    type Method = ReadWrite;
}

impl RwLockLevel for ChainC {
    type RwLock = RwLock<u32>;
}

impl LockAfter<ChainB> for ChainC {}

impl<L> LockAfter<L> for ChainC where ChainB: LockAfter<L> {}

impl LockLevel for ChainD {
    type Method = MutualExclusion;
}

impl MutexLockLevel for ChainD {
    type Mutex = Mutex<u32>;
}

impl LockAfter<ChainC> for ChainD {}

impl<L> LockAfter<L> for ChainD where ChainC: LockAfter<L> {}

/// A four-level chain mixing shared-exclusive and exclusive levels: all four
/// guards can be held simultaneously when acquired in declared order.
#[test]
fn mixed_chain_holds_all_four() {
    let a = Mutex::new(1u32);
    let b = Mutex::new(2u32);
    let c = RwLock::new(3u32);
    let d = Mutex::new(4u32);
    let mut root = LockedAt::new();
    let (mut at_a, guard_a) = root.with_lock::<ChainA>(&a).unwrap();
    let (mut at_b, guard_b) = at_a.with_lock::<ChainB>(&b).unwrap();
    let (mut at_c, guard_c) = at_b.with_read_lock::<ChainC>(&c).unwrap();
    let guard_d = at_c.lock::<ChainD>(&d).unwrap();
    assert_eq!(*guard_a + *guard_b + *guard_c + *guard_d, 10);
}

/// Exclusive access through a shared-exclusive level mutates the protected
/// value; a later shared acquisition observes it.
#[test]
fn write_then_read_lock() {
    let c = RwLock::new(0u32);
    {
        let mut root = LockedAt::new();
        let (_at_c, mut guard) = root.with_write_lock::<ChainC>(&c).unwrap();
        *guard = 42;
    }
    let mut root = LockedAt::new();
    let guard = root.read_lock::<ChainC>(&c).unwrap();
    assert_eq!(*guard, 42);
}

/// A derived transitive edge authorises acquisition several levels down
/// directly from the root.
#[test]
fn transitive_edge_from_root() {
    let d = Mutex::new(11u32);
    let mut root = LockedAt::new();
    let guard_d = root.lock::<ChainD>(&d).unwrap();
    assert_eq!(*guard_d, 11);
}
