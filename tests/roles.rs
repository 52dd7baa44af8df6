use std::collections::BTreeSet;

use magnolia::roles::{contains, updated_roles, RoleConfig, RoleData};
use magnolia::tier::TrustLevel;

const MEMBER: u64 = 111;
const REGULAR: u64 = 222;

fn cfg() -> RoleConfig {
    RoleConfig { devforum_member: MEMBER, devforum_regular: REGULAR, roblox_verified: Some(999) }
}

fn as_set(v: &[u64]) -> BTreeSet<u64> {
    v.iter().copied().collect()
}

#[test]
fn diff_per_level() {
    let c = cfg();
    let v = TrustLevel::Visitor.roles(&c);
    assert_eq!(v.add, None);
    assert_eq!(v.remove, vec![MEMBER, REGULAR]);
    let m = TrustLevel::Member.roles(&c);
    assert_eq!(m.add, Some(MEMBER));
    assert_eq!(m.remove, vec![REGULAR]);
    let r = TrustLevel::Regular.roles(&c);
    assert_eq!(r.add, Some(REGULAR));
    assert_eq!(r.remove, vec![MEMBER]);
    let s = TrustLevel::Staff.roles(&c);
    assert_eq!(s.add, Some(REGULAR));
    assert_eq!(s.remove, vec![MEMBER]);
}

#[test]
fn diff_add_and_remove_disjoint() {
    let c = cfg();
    for level in [TrustLevel::Visitor, TrustLevel::Member, TrustLevel::Regular, TrustLevel::Staff] {
        let d = level.roles(&c);
        if let Some(a) = d.add {
            assert!(!d.remove.contains(&a));
        }
        let out = d.apply(vec![5, MEMBER, REGULAR, 7]);
        if let Some(a) = d.add {
            assert!(out.contains(&a));
        }
        for r in &d.remove {
            assert!(!out.contains(r));
        }
    }
}

#[test]
fn apply_keeps_order_and_appends() {
    let d = RoleData { add: Some(MEMBER), remove: vec![REGULAR] };
    assert_eq!(d.apply(vec![3, REGULAR, 4]), vec![3, 4, MEMBER]);
    assert_eq!(d.apply(vec![MEMBER, 3]), vec![MEMBER, 3]);
    assert_eq!(d.apply(vec![]), vec![MEMBER]);
}

#[test]
fn apply_removes_duplicates_of_removed_role() {
    let d = RoleData { add: None, remove: vec![MEMBER, REGULAR] };
    assert_eq!(d.apply(vec![MEMBER, 8, MEMBER, REGULAR]), vec![8]);
}

#[test]
fn reconcile_twice_same_as_once() {
    let c = cfg();
    for level in [TrustLevel::Visitor, TrustLevel::Member, TrustLevel::Regular, TrustLevel::Staff] {
        for start in [vec![], vec![MEMBER], vec![REGULAR, 1], vec![1, MEMBER, REGULAR, 2]] {
            let once = updated_roles(start.clone(), level, &c);
            let twice = updated_roles(once.clone(), level, &c);
            assert_eq!(once, twice);
        }
    }
}

#[test]
fn later_reconcile_wins() {
    let c = cfg();
    let levels = [TrustLevel::Visitor, TrustLevel::Member, TrustLevel::Regular, TrustLevel::Staff];
    for first in levels {
        for second in levels {
            let start = vec![4, REGULAR, 9];
            let both = updated_roles(updated_roles(start.clone(), first, &c), second, &c);
            let alone = updated_roles(start, second, &c);
            assert_eq!(as_set(&both), as_set(&alone));
        }
    }
}

#[test]
fn member_level_from_empty_roles() {
    let out = updated_roles(vec![], TrustLevel::Member, &cfg());
    assert_eq!(out, vec![MEMBER]);
}

#[test]
fn contains_finds_role() {
    assert!(contains(&vec![1, 2, 3], 3));
    assert!(!contains(&vec![1, 2, 3], 4));
    assert!(!contains(&vec![], 1));
}
