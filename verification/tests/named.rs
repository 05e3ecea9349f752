//! Scenario tests for the state-coupled `Locked` wrapper.

use std::sync::{Mutex, RwLock};

use lock_ordering::lock::{MutexLockLevel, RwLockLevel};
use lock_ordering::relation::LockAfter;
use lock_ordering::state::{MutexLockedState, RwLockedState};
use lock_ordering::{LockLevel, Locked, MutualExclusion, ReadWrite, Unlocked};

enum ConfigLevel {}

enum SessionsLevel {}

impl LockLevel for ConfigLevel {
    type Method = ReadWrite;
}

impl RwLockLevel for ConfigLevel {
    type RwLock = RwLock<u64>;
}

impl LockAfter<Unlocked> for ConfigLevel {}

impl LockLevel for SessionsLevel {
    type Method = MutualExclusion;
}

impl MutexLockLevel for SessionsLevel {
    type Mutex = Mutex<Vec<u64>>;
}

impl LockAfter<ConfigLevel> for SessionsLevel {}

impl<L> LockAfter<L> for SessionsLevel where ConfigLevel: LockAfter<L> {}

struct ServerState {
    config: RwLock<u64>,
    sessions: Mutex<Vec<u64>>,
}

enum ConfigLock {}

impl RwLockedState<ServerState> for ConfigLock {
    type LockLevel = ConfigLevel;

    fn rw_lock(t: &ServerState) -> &RwLock<u64> {
        &t.config
    }
}

enum SessionsLock {}

impl MutexLockedState<ServerState> for SessionsLock {
    type LockLevel = SessionsLevel;

    fn mutex(t: &ServerState) -> &Mutex<Vec<u64>> {
        &t.sessions
    }
}

fn fresh_state() -> ServerState {
    ServerState { config: RwLock::new(5), sessions: Mutex::new(Vec::new()) }
}

/// Locks are named by marker types; acquisition follows the declared order.
#[test]
fn named_locks_in_declared_order() {
    let state = fresh_state();
    {
        let mut locked = Locked::new(&state);
        let (mut at_config, config) = locked.with_read_lock::<ConfigLock>().unwrap();
        let mut sessions = at_config.lock::<SessionsLock>().unwrap();
        sessions.push(*config);
    }
    assert_eq!(*state.sessions.lock().unwrap(), vec![5]);
}

/// Exclusive access to shared-exclusive state through its name.
#[test]
fn named_write_lock_mutates() {
    let state = fresh_state();
    {
        let mut locked = Locked::new(&state);
        let (_at_config, mut config) = locked.with_write_lock::<ConfigLock>().unwrap();
        *config = 8;
    }
    let mut locked = Locked::new(&state);
    let config = locked.read_lock::<ConfigLock>().unwrap();
    assert_eq!(*config, 8);
}

/// Skipping to a level leaves the wrapped state reachable and restricts
/// later acquisitions exactly as acquiring that level would.
#[test]
fn skip_locking_named_state() {
    let state = fresh_state();
    {
        let mut locked = Locked::new(&state);
        let mut at_config = locked.skip_locking::<ConfigLevel>();
        let mut sessions = at_config.lock::<SessionsLock>().unwrap();
        sessions.push(77);
    }
    let state_sessions = state.sessions.lock().unwrap();
    assert_eq!(*state_sessions, vec![77]);
}

/// The leaf `lock` variant hands out the guard alone.
#[test]
fn leaf_lock_variant() {
    let state = fresh_state();
    let mut locked = Locked::new(&state);
    let mut sessions = locked.lock::<SessionsLock>().unwrap();
    sessions.push(1);
    sessions.push(2);
    drop(sessions);
    assert_eq!(state.sessions.lock().unwrap().len(), 2);
}
