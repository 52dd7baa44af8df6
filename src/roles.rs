//! The role change that a trust level calls for, and its laws.

use vstd::prelude::*;

use crate::tier::TrustLevel;

verus! {

/// Role ids that the reconciler manages, read once from the static configuration.
#[derive(Clone, Copy, Debug, PartialEq, Eq, Structural)]
pub struct RoleConfig {
    /// Role held by members whose trust level is `Member`.
    pub devforum_member: u64,
    /// Role held by members whose trust level is `Regular` or above.
    pub devforum_regular: u64,
    /// Role a member must already hold before verification may run, if any.
    pub roblox_verified: Option<u64>,
}

/// The change to a member's role list that a trust level calls for.
#[derive(Debug)]
pub struct RoleData {
    pub add: Option<u64>,
    pub remove: Vec<u64>,
}

/// Role that a trust level grants under `cfg`.
pub open spec fn diff_add(level: TrustLevel, cfg: RoleConfig) -> Option<u64> {
    match level {
        TrustLevel::Visitor => None,
        TrustLevel::Member => Some(cfg.devforum_member),
        TrustLevel::Regular | TrustLevel::Staff => Some(cfg.devforum_regular),
    }
}

/// Roles that a trust level takes away under `cfg`.
pub open spec fn diff_remove(level: TrustLevel, cfg: RoleConfig) -> Seq<u64> {
    match level {
        TrustLevel::Visitor => seq![cfg.devforum_member, cfg.devforum_regular],
        TrustLevel::Member => seq![cfg.devforum_regular],
        TrustLevel::Regular | TrustLevel::Staff => seq![cfg.devforum_member],
    }
}

/// `roles` without the members of `remove`, in their original order.
pub open spec fn kept_roles(roles: Seq<u64>, remove: Seq<u64>) -> Seq<u64> {
    roles.filter(|x: u64| !remove.contains(x))
}

/// The role list after dropping every role of `remove` and then appending
/// `add` unless it is already held.
pub open spec fn applied(roles: Seq<u64>, add: Option<u64>, remove: Seq<u64>) -> Seq<u64> {
    let kept = kept_roles(roles, remove);
    match add {
        Some(a) => if kept.contains(a) {
            kept
        } else {
            kept.push(a)
        },
        None => kept,
    }
}

/// The role list after reconciling `roles` with `level`.
pub open spec fn applied_level(roles: Seq<u64>, level: TrustLevel, cfg: RoleConfig) -> Seq<u64> {
    applied(roles, diff_add(level, cfg), diff_remove(level, cfg))
}

/// The role list after reconciling `roles` with each level of `levels` in turn.
pub open spec fn applied_levels(roles: Seq<u64>, levels: Seq<TrustLevel>, cfg: RoleConfig) -> Seq<u64>
    decreases levels.len(),
{
    if levels.len() == 0 {
        roles
    } else {
        applied_level(applied_levels(roles, levels.drop_last(), cfg), levels.last(), cfg)
    }
}

impl RoleData {
    /// Applies this change to a role list: removes every role listed in
    /// `remove`, then appends `add` unless the list already holds it.
    pub fn apply(&self, member_roles: Vec<u64>) -> (r: Vec<u64>)
        ensures
            r@ == applied(member_roles@, self.add, self.remove@),
    {
        let ghost pred = |x: u64| !self.remove@.contains(x);
        let mut kept: Vec<u64> = Vec::new();
        let mut i: usize = 0;
        while i < member_roles.len()
            invariant
                i <= member_roles.len(),
                pred == (|x: u64| !self.remove@.contains(x)),
                kept@ == member_roles@.take(i as int).filter(pred),
            decreases member_roles.len() - i,
        {
            let role = member_roles[i];
            proof {
                assert(member_roles@.take(i + 1) == member_roles@.take(i as int).push(role));
                member_roles@.take(i as int).lemma_filter_push(role, pred);
            }
            if !contains(&self.remove, role) {
                kept.push(role);
            }
            i = i + 1;
        }
        assert(member_roles@.take(member_roles.len() as int) == member_roles@);
        if let Some(a) = self.add {
            if !contains(&kept, a) {
                kept.push(a);
            }
        }
        kept
    }
}

/// Whether `v` holds `x`.
pub fn contains(v: &Vec<u64>, x: u64) -> (r: bool)
    ensures
        r == v@.contains(x),
{
    let mut i: usize = 0;
    while i < v.len()
        invariant
            i <= v.len(),
            forall|j: int| 0 <= j < i ==> v@[j] != x,
        decreases v.len() - i,
    {
        if v[i] == x {
            assert(v@[i as int] == x);
            return true;
        }
        i = i + 1;
    }
    false
}

impl TrustLevel {
    /// The roles to add and remove for this trust level.
    pub fn roles(&self, cfg: &RoleConfig) -> (r: RoleData)
        ensures
            r.add == diff_add(*self, *cfg),
            r.remove@ == diff_remove(*self, *cfg),
    {
        match self {
            TrustLevel::Visitor => RoleData {
                add: None,
                remove: vec![cfg.devforum_member, cfg.devforum_regular],
            },
            TrustLevel::Member => RoleData {
                add: Some(cfg.devforum_member),
                remove: vec![cfg.devforum_regular],
            },
            TrustLevel::Regular | TrustLevel::Staff => RoleData {
                add: Some(cfg.devforum_regular),
                remove: vec![cfg.devforum_member],
            },
        }
    }
}

/// The member's new role list for a resolved trust level.
pub fn updated_roles(member_roles: Vec<u64>, level: TrustLevel, cfg: &RoleConfig) -> (r: Vec<u64>)
    ensures
        r@ == applied_level(member_roles@, level, *cfg),
{
    let diff = level.roles(cfg);
    diff.apply(member_roles)
}

/// Which roles a level's change lists for removal.
proof fn lemma_remove_contains(level: TrustLevel, cfg: RoleConfig, x: u64)
    ensures
        diff_remove(level, cfg).contains(x) <==> match level {
            TrustLevel::Visitor => x == cfg.devforum_member || x == cfg.devforum_regular,
            TrustLevel::Member => x == cfg.devforum_regular,
            TrustLevel::Regular | TrustLevel::Staff => x == cfg.devforum_member,
        },
{
    let rm = diff_remove(level, cfg);
    if rm.contains(x) {
        let i = choose|i: int| 0 <= i < rm.len() && rm[i] == x;
        assert(i == 0 || i == 1);
    }
    match level {
        TrustLevel::Visitor => {
            assert(rm.len() == 2);
            assert(rm[0] == cfg.devforum_member && rm[1] == cfg.devforum_regular);
            if x == cfg.devforum_member {
                assert(rm.contains(rm[0]));
            }
            if x == cfg.devforum_regular {
                assert(rm.contains(rm[1]));
            }
        },
        _ => {
            assert(rm.len() == 1);
            assert(rm.contains(rm[0]));
        },
    }
}

/// A role survives the removal step exactly when it was held and is not
/// listed for removal.
proof fn lemma_kept_contains(roles: Seq<u64>, remove: Seq<u64>, x: u64)
    ensures
        kept_roles(roles, remove).contains(x) <==> roles.contains(x) && !remove.contains(x),
{
    let pred = |y: u64| !remove.contains(y);
    let kept = kept_roles(roles, remove);
    if kept.contains(x) {
        roles.lemma_filter_contains_rev(pred, x);
        let i = choose|i: int| 0 <= i < kept.len() && kept[i] == x;
        roles.lemma_filter_pred(pred, i);
    }
    if roles.contains(x) && !remove.contains(x) {
        let i = choose|i: int| 0 <= i < roles.len() && roles[i] == x;
        roles.lemma_filter_contains(pred, i);
    }
}

/// A role is in the reconciled list exactly when it is the added role, or
/// it was held and is not listed for removal.
pub proof fn lemma_applied_contains(roles: Seq<u64>, add: Option<u64>, remove: Seq<u64>, x: u64)
    ensures
        applied(roles, add, remove).contains(x) <==> (add == Some(x) || (roles.contains(x)
            && !remove.contains(x))),
{
    let kept = kept_roles(roles, remove);
    lemma_kept_contains(roles, remove, x);
    if let Some(a) = add {
        if !kept.contains(a) {
            assert(kept.push(a)[kept.len() as int] == a);
            if kept.push(a).contains(x) && x != a {
                let i = choose|i: int| 0 <= i < kept.len() + 1 && kept.push(a)[i] == x;
                assert(kept[i] == x);
            }
            if kept.contains(x) {
                let i = choose|i: int| 0 <= i < kept.len() && kept[i] == x;
                assert(kept.push(a)[i] == x);
            }
        }
    }
}

/// For a configuration whose two tier roles differ, the role a level adds is
/// not among those it removes, and the reconciled list holds the added role
/// and none of the removed ones, whatever list it started from.
pub proof fn lemma_diff_sound(level: TrustLevel, cfg: RoleConfig, roles: Seq<u64>)
    requires
        cfg.devforum_member != cfg.devforum_regular,
    ensures
        forall|a: u64| #[trigger]
            diff_add(level, cfg) == Some(a) ==> !diff_remove(level, cfg).contains(a),
        forall|a: u64| #[trigger]
            diff_add(level, cfg) == Some(a) ==> applied_level(roles, level, cfg).contains(a),
        forall|x: u64| #[trigger]
            diff_remove(level, cfg).contains(x) ==> !applied_level(roles, level, cfg).contains(x),
{
    assert forall|x: u64| #[trigger] diff_remove(level, cfg).contains(x) implies !applied_level(
        roles,
        level,
        cfg,
    ).contains(x) && diff_add(level, cfg) != Some(x) by {
        lemma_remove_contains(level, cfg, x);
        lemma_applied_contains(roles, diff_add(level, cfg), diff_remove(level, cfg), x);
    }
    assert forall|a: u64| #[trigger]
        diff_add(level, cfg) == Some(a) implies applied_level(roles, level, cfg).contains(a) by {
        lemma_applied_contains(roles, diff_add(level, cfg), diff_remove(level, cfg), a);
    }
}

/// Filtering keeps a sequence whole when every element passes.
proof fn lemma_filter_keeps_all(s: Seq<u64>, pred: spec_fn(u64) -> bool)
    requires
        forall|i: int| 0 <= i < s.len() ==> pred(s[i]),
    ensures
        s.filter(pred) == s,
    decreases s.len(),
{
    if s.len() > 0 {
        let init = s.drop_last();
        lemma_filter_keeps_all(init, pred);
        init.lemma_filter_push(s.last(), pred);
        assert(init.push(s.last()) == s);
    }
}

/// Applying the same change twice leaves the list as applying it once.
pub proof fn lemma_applied_idempotent(roles: Seq<u64>, add: Option<u64>, remove: Seq<u64>)
    ensures
        applied(applied(roles, add, remove), add, remove) == applied(roles, add, remove),
{
    let pred = |y: u64| !remove.contains(y);
    let kept = kept_roles(roles, remove);
    assert forall|i: int| 0 <= i < kept.len() implies pred(kept[i]) by {
        roles.lemma_filter_pred(pred, i);
    }
    lemma_filter_keeps_all(kept, pred);
    if let Some(a) = add {
        if !kept.contains(a) {
            kept.lemma_filter_push(a, pred);
            assert(kept.push(a)[kept.len() as int] == a);
        }
    }
}

/// Reconciling twice for the same trust level leaves the member's roles as
/// reconciling once.
pub proof fn lemma_reconcile_idempotent(level: TrustLevel, cfg: RoleConfig, roles: Seq<u64>)
    ensures
        applied_level(applied_level(roles, level, cfg), level, cfg) == applied_level(
            roles,
            level,
            cfg,
        ),
{
    lemma_applied_idempotent(roles, diff_add(level, cfg), diff_remove(level, cfg));
}

/// Reconciliation never touches a role outside the two tier roles.
proof fn lemma_other_roles_untouched(
    roles: Seq<u64>,
    levels: Seq<TrustLevel>,
    cfg: RoleConfig,
    x: u64,
)
    requires
        x != cfg.devforum_member,
        x != cfg.devforum_regular,
    ensures
        applied_levels(roles, levels, cfg).contains(x) == roles.contains(x),
    decreases levels.len(),
{
    if levels.len() > 0 {
        let before = applied_levels(roles, levels.drop_last(), cfg);
        lemma_other_roles_untouched(roles, levels.drop_last(), cfg, x);
        lemma_remove_contains(levels.last(), cfg, x);
        lemma_applied_contains(
            before,
            diff_add(levels.last(), cfg),
            diff_remove(levels.last(), cfg),
            x,
        );
    }
}

/// However many reconciliations ran before, for whatever levels and in
/// whatever order (including runs whose writes were lost to a race), a final
/// reconciliation for `last` leaves the same set of roles as reconciling the
/// original roles for `last` alone.
pub proof fn lemma_last_reconcile_wins(
    earlier: Seq<TrustLevel>,
    last: TrustLevel,
    cfg: RoleConfig,
    roles: Seq<u64>,
)
    ensures
        applied_level(applied_levels(roles, earlier, cfg), last, cfg).to_set() == applied_level(
            roles,
            last,
            cfg,
        ).to_set(),
{
    let mid = applied_levels(roles, earlier, cfg);
    let add = diff_add(last, cfg);
    let rm = diff_remove(last, cfg);
    assert forall|x: u64| applied(mid, add, rm).contains(x) == applied(roles, add, rm).contains(
        x,
    ) by {
        lemma_applied_contains(mid, add, rm, x);
        lemma_applied_contains(roles, add, rm, x);
        lemma_remove_contains(last, cfg, x);
        if x != cfg.devforum_member && x != cfg.devforum_regular {
            lemma_other_roles_untouched(roles, earlier, cfg, x);
        }
    }
    assert(applied(mid, add, rm).to_set() =~= applied(roles, add, rm).to_set());
}

/// Reconciling for `first` and then for `second` leaves the same set of
/// roles as reconciling for `second` alone.
pub proof fn lemma_second_reconcile_wins(
    first: TrustLevel,
    second: TrustLevel,
    cfg: RoleConfig,
    roles: Seq<u64>,
)
    ensures
        applied_level(applied_level(roles, first, cfg), second, cfg).to_set() == applied_level(
            roles,
            second,
            cfg,
        ).to_set(),
{
    let earlier = seq![first];
    assert(earlier.drop_last() == Seq::<TrustLevel>::empty());
    assert(earlier.last() == first);
    assert(applied_levels(roles, Seq::<TrustLevel>::empty(), cfg) == roles);
    assert(applied_levels(roles, earlier, cfg) == applied_level(roles, first, cfg));
    lemma_last_reconcile_wins(earlier, second, cfg, roles);
}

} // verus!
