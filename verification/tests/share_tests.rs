use sunshine_gov::share::{ShareProfile, SimpleShareGenesis};

#[test]
fn default_profile_holds_one_share() {
    let p = ShareProfile::default();
    assert_eq!(p.total(), 1);
    assert_eq!(p.times_reserved(), 0);
    assert!(p.is_unlocked());
    assert!(!p.is_zero());
}

#[test]
fn increment_then_decrement_times_reserved_is_identity() {
    let p = ShareProfile::new_shares(40);
    let q = p.increment_times_reserved();
    assert_eq!(q.times_reserved(), 1);
    assert_eq!(q.decrement_times_reserved(), p);
}

#[test]
fn add_and_subtract_shares() {
    let p = ShareProfile::new_shares(10);
    let grown = p.add_shares(5);
    assert_eq!(grown.total(), 15);
    let shrunk = grown.subtract_shares(15);
    assert_eq!(shrunk.total(), 0);
    assert!(shrunk.is_zero());
}

#[test]
fn lock_and_unlock() {
    let p = ShareProfile::default().lock();
    assert!(!p.is_unlocked());
    assert!(p.unlock().is_unlocked());
}

#[test]
fn genesis_from_collapses_adjacent_duplicates() {
    let g = SimpleShareGenesis::from(vec![(1, 10), (1, 10), (2, 20)]);
    assert_eq!(g.account_ownership(), vec![(1, 10), (2, 20)]);
    assert_eq!(g.total(), 30);
    assert!(g.verify_shape());
}

#[test]
fn genesis_from_keeps_non_adjacent_duplicates() {
    let g = SimpleShareGenesis::from(vec![(1, 10), (2, 20), (1, 10)]);
    assert_eq!(g.account_ownership(), vec![(1, 10), (2, 20), (1, 10)]);
    assert_eq!(g.total(), 40);
}

#[test]
fn verify_shape_refuses_a_wrong_total() {
    let g = SimpleShareGenesis { total: 31, account_ownership: vec![(1, 10), (2, 20)] };
    assert!(!g.verify_shape());
}
