//! Tests for the verified order checker.

use lock_ordering::order::{check_acquisition_order, is_acyclic, transitive_closure};

/// The closure of two chained edges holds the derived edge.
#[test]
fn closure_adds_derived_edge() {
    let edges = vec![(1u64, 2u64), (2, 3)];
    let closure = transitive_closure(&edges);
    assert!(closure.contains(&(1, 2)));
    assert!(closure.contains(&(2, 3)));
    assert!(closure.contains(&(1, 3)));
    assert_eq!(closure.len(), 3);
}

/// Applying the closure to its own output adds nothing and loses nothing.
#[test]
fn closure_is_idempotent() {
    let edges = vec![(1u64, 2u64), (2, 3), (3, 4), (10, 11)];
    let once = transitive_closure(&edges);
    let twice = transitive_closure(&once);
    for e in &once {
        assert!(twice.contains(e));
    }
    for e in &twice {
        assert!(once.contains(e));
    }
    assert_eq!(once.len(), twice.len());
}

/// Duplicate declarations collapse to one closure edge.
#[test]
fn duplicate_edges_collapse() {
    let edges = vec![(1u64, 2u64), (1, 2), (1, 2)];
    let closure = transitive_closure(&edges);
    assert_eq!(closure, vec![(1, 2)]);
}

/// A three-edge cycle and a self-loop are rejected; chains and the empty
/// declaration are accepted.
#[test]
fn cycles_are_detected() {
    assert!(!is_acyclic(&vec![(1u64, 2u64), (2, 3), (3, 1)]));
    assert!(!is_acyclic(&vec![(5u64, 5u64)]));
    assert!(is_acyclic(&vec![(1u64, 2u64), (2, 3)]));
    assert!(is_acyclic(&vec![(1u64, 2u64), (1, 3)]));
    assert!(is_acyclic(&Vec::new()));
}

/// An acquisition sequence is accepted exactly when each level follows the
/// one before it in the declared order, directly or transitively.
#[test]
fn acquisition_sequences_checked() {
    let edges = vec![(0u64, 1u64), (1, 2), (2, 3)];
    assert!(check_acquisition_order(&edges, &vec![0, 1, 2, 3]));
    assert!(check_acquisition_order(&edges, &vec![0, 2]));
    assert!(check_acquisition_order(&edges, &vec![1, 3]));
    assert!(!check_acquisition_order(&edges, &vec![2, 1]));
    assert!(!check_acquisition_order(&edges, &vec![0, 1, 1]));
    assert!(!check_acquisition_order(&edges, &vec![3, 0]));
    assert!(check_acquisition_order(&edges, &Vec::new()));
    assert!(check_acquisition_order(&edges, &vec![7]));
}

/// Levels unrelated by any declared edge are ordered in neither direction.
#[test]
fn unrelated_levels_not_ordered() {
    let edges = vec![(0u64, 1u64), (0, 2)];
    assert!(!check_acquisition_order(&edges, &vec![1, 2]));
    assert!(!check_acquisition_order(&edges, &vec![2, 1]));
    assert!(check_acquisition_order(&edges, &vec![0, 1]));
    assert!(check_acquisition_order(&edges, &vec![0, 2]));
}
