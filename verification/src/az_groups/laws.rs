//! What holds of the registry's operations, proved of their model.

use crate::account::AccountId;
use crate::az_groups::model::name_key;
use crate::az_groups::model::AZGroupsView;
use crate::az_groups::GroupUser;
use crate::az_groups::GroupView;
use crate::az_groups::Membership;
use crate::errors::AZGroupsErrorView;
use crate::role::Role;
use crate::text::lemma_trimmed_idempotent;
use crate::text::trimmed;
use vstd::prelude::*;

verus! {

/// Of two names with the same key, the second cannot name a new group once
/// the first does: where a group is created under `first`, creating one
/// under `second` right after fails because the name is taken, whoever asks.
///
/// `second` is not blank, and the counter leaves room for two groups: a
/// blank name and a full registry are refused before the name is looked up.
pub proof fn lemma_creation_unique(
    state: AZGroupsView,
    caller: AccountId,
    first: Seq<char>,
    second: Seq<char>,
)
    requires
        name_key(trimmed(first)) == name_key(trimmed(second)),
        state.groups_create(first) is Ok,
        trimmed(second).len() > 0,
        state.groups_total + 1 < u32::MAX,
    ensures
        state.after_groups_create(caller, first).groups_create(second) == Err::<
            GroupView,
            AZGroupsErrorView,
        >(AZGroupsErrorView::UnprocessableEntity("Group has already been taken"@)),
{
}

/// The account that creates a group is its `SuperAdmin` in the state that
/// follows.
pub proof fn lemma_creator_is_super_admin(state: AZGroupsView, caller: AccountId, name: Seq<char>)
    requires
        state.groups_create(name) is Ok,
    ensures
        state.after_groups_create(caller, name).group_users_show(state.groups_total, caller) == Ok::<
            GroupUser,
            AZGroupsErrorView,
        >(GroupUser { role: Role::SuperAdmin }),
        state.groups_create(name)->Ok_0.id == state.groups_total,
{
}

/// A group that was just created has one member: the account that created
/// it.
pub proof fn lemma_creator_is_only_member(
    state: AZGroupsView,
    caller: AccountId,
    name: Seq<char>,
    user: AccountId,
)
    requires
        state.consistent(),
        state.groups_create(name) is Ok,
    ensures
        state.after_groups_create(caller, name).group_users.contains_key(
            (state.groups_total, user),
        ) <==> user == caller,
{
}

/// No operation deletes a group, changes the id of one, or turns the counter
/// back.
pub proof fn lemma_groups_stay(
    state: AZGroupsView,
    caller: AccountId,
    id: u32,
    user: AccountId,
    role: Role,
    name: Seq<char>,
    enabled: bool,
    group: u32,
)
    requires
        state.consistent(),
        state.groups.contains_key(group),
    ensures
        state.groups_create(name) is Ok ==> ({
            let after = state.after_groups_create(caller, name);
            after.groups.contains_key(group) && after.groups[group] == state.groups[group]
                && after.groups_total == state.groups_total + 1
        }),
        ({
            let after = state.after_group_users_create(caller, id);
            after.groups == state.groups && after.groups_total == state.groups_total
        }),
        ({
            let after = state.after_group_users_destroy(id, user);
            after.groups == state.groups && after.groups_total == state.groups_total
        }),
        ({
            let after = state.after_group_users_update(id, user, role);
            after.groups == state.groups && after.groups_total == state.groups_total
        }),
        ({
            let after = state.after_groups_update(id, name, enabled);
            after.groups.contains_key(group) && after.groups[group].id == group
                && after.groups_total == state.groups_total && (group != id ==> after.groups[group]
                == state.groups[group])
        }),
{
}

/// An account leaves its group by itself exactly where its role is
/// `Applicant`, `Member` or `Admin`; as `Banned` or `SuperAdmin` it is
/// refused as unauthorised.
pub proof fn lemma_leaving(state: AZGroupsView, caller: AccountId, group_id: u32)
    requires
        state.group_users.contains_key((group_id, caller)),
    ensures
        ({
            let role = state.group_users[(group_id, caller)].role;
            let outcome = state.group_users_destroy(caller, group_id, caller);
            &&& outcome is Ok <==> role == Role::Applicant || role == Role::Member || role
                == Role::Admin
            &&& outcome == Err::<(), AZGroupsErrorView>(AZGroupsErrorView::Unauthorised) <==> role
                == Role::Banned || role == Role::SuperAdmin
        }),
{
}

/// An account removes another from their group exactly where its role is
/// `Admin` or above and not below the other's; else it is refused as
/// unauthorised.
pub proof fn lemma_removing(
    state: AZGroupsView,
    caller: AccountId,
    group_id: u32,
    user: AccountId,
)
    requires
        caller != user,
        state.group_users.contains_key((group_id, caller)),
        state.group_users.contains_key((group_id, user)),
    ensures
        ({
            let caller_role = state.group_users[(group_id, caller)].role;
            let user_role = state.group_users[(group_id, user)].role;
            let outcome = state.group_users_destroy(caller, group_id, user);
            &&& outcome is Ok <==> caller_role.rank() >= Role::Admin.rank() && caller_role.rank()
                >= user_role.rank()
            &&& outcome is Err ==> outcome == Err::<(), AZGroupsErrorView>(
                AZGroupsErrorView::Unauthorised,
            )
        }),
{
}

/// No account hands out a role above its own: between two members of a
/// group, setting a role above the caller's is refused as unauthorised,
/// whatever the role of the other is, and what succeeds sets a role that
/// is not above the caller's.
pub proof fn lemma_granting(
    state: AZGroupsView,
    caller: AccountId,
    group_id: u32,
    user: AccountId,
    role: Role,
)
    requires
        state.group_users.contains_key((group_id, caller)),
        state.group_users.contains_key((group_id, user)),
    ensures
        ({
            let caller_role = state.group_users[(group_id, caller)].role;
            let outcome = state.group_users_update(caller, group_id, user, role);
            &&& outcome is Ok ==> role.rank() <= caller_role.rank()
            &&& role.rank() > caller_role.rank() ==> outcome == Err::<GroupUser, AZGroupsErrorView>(
                AZGroupsErrorView::Unauthorised,
            )
        }),
{
}

/// A membership is valid exactly where the group exists and is enabled and
/// the account is in it as `Member` or above. Else the failure is the first
/// of: no such group, the group is disabled, no such membership, not a
/// member.
pub proof fn lemma_validation(state: AZGroupsView, group_id: u32, user: AccountId)
    ensures
        ({
            let outcome = state.validate_membership(group_id, user);
            let exists = state.groups.contains_key(group_id);
            let enabled = state.groups[group_id].enabled;
            let joined = state.group_users.contains_key((group_id, user));
            let role = state.group_users[(group_id, user)].role;
            &&& outcome is Ok <==> exists && enabled && joined && role.rank()
                >= Role::Member.rank()
            &&& outcome is Ok ==> outcome == Ok::<Role, AZGroupsErrorView>(role)
            &&& !exists ==> outcome == Err::<Role, AZGroupsErrorView>(
                AZGroupsErrorView::NotFound("Group"@),
            )
            &&& exists && !enabled ==> outcome == Err::<Role, AZGroupsErrorView>(
                AZGroupsErrorView::GroupDisabled,
            )
            &&& exists && enabled && !joined ==> outcome == Err::<Role, AZGroupsErrorView>(
                AZGroupsErrorView::NotFound("GroupUser"@),
            )
            &&& exists && enabled && joined && role.rank() < Role::Member.rank() ==> outcome
                == Err::<Role, AZGroupsErrorView>(AZGroupsErrorView::NotAMember)
        }),
{
}

/// In a consistent state every group stands in the name index under the
/// key of its trimmed name, and under no other key.
pub proof fn lemma_index_matches_groups(state: AZGroupsView, id: u32)
    requires
        state.consistent(),
        state.groups.contains_key(id),
    ensures
        state.group_id_by_name.contains_key(name_key(trimmed(state.groups[id].name))),
        state.group_id_by_name[name_key(trimmed(state.groups[id].name))] == id,
        forall|key: Seq<char>|
            state.group_id_by_name.contains_key(key) && state.group_id_by_name[key] == id ==> key
                == name_key(trimmed(state.groups[id].name)),
{
}

/// Each operation of the model keeps a consistent state consistent.
pub proof fn lemma_operations_keep_consistency(
    state: AZGroupsView,
    caller: AccountId,
    id: u32,
    user: AccountId,
    role: Role,
    name: Seq<char>,
    enabled: bool,
)
    requires
        state.consistent(),
    ensures
        state.groups_create(name) is Ok ==> state.after_groups_create(caller, name).consistent(),
        state.group_users_create(caller, id) is Ok ==> state.after_group_users_create(
            caller,
            id,
        ).consistent(),
        state.group_users_destroy(caller, id, user) is Ok ==> state.after_group_users_destroy(
            id,
            user,
        ).consistent(),
        state.group_users_update(caller, id, user, role) is Ok ==> state.after_group_users_update(
            id,
            user,
            role,
        ).consistent(),
        state.groups_update(caller, id, name, enabled) is Ok ==> state.after_groups_update(
            id,
            name,
            enabled,
        ).consistent(),
{
    lemma_trimmed_idempotent(name);
}

/// Where some of the given groups cannot be added, all of them cannot.
pub proof fn lemma_with_groups_prefix(state: AZGroupsView, groups: Seq<GroupView>, k: int)
    requires
        0 <= k <= groups.len(),
        state.with_groups(groups.take(k)) is None,
    ensures
        state.with_groups(groups) is None,
    decreases groups.len() - k,
{
    if k == groups.len() {
        assert(groups.take(k) =~= groups);
    } else {
        assert(groups.take(k + 1).drop_last() =~= groups.take(k));
        lemma_with_groups_prefix(state, groups, k + 1);
    }
}

/// Where some of the given memberships cannot be added, all of them cannot.
pub proof fn lemma_with_memberships_prefix(
    state: AZGroupsView,
    memberships: Seq<Membership>,
    k: int,
)
    requires
        0 <= k <= memberships.len(),
        state.with_memberships(memberships.take(k)) is None,
    ensures
        state.with_memberships(memberships) is None,
    decreases memberships.len() - k,
{
    if k == memberships.len() {
        assert(memberships.take(k) =~= memberships);
    } else {
        assert(memberships.take(k + 1).drop_last() =~= memberships.take(k));
        lemma_with_memberships_prefix(state, memberships, k + 1);
    }
}

/// Whether one of the first `k` of `groups` has the id `id`.
pub open spec fn lists_id(groups: Seq<GroupView>, k: int, id: u32) -> bool {
    exists|j: int| 0 <= j < k && (#[trigger] groups[j]).id == id
}

/// Whether one of the first `k` of `groups` stands under the key `key`.
pub open spec fn lists_key(groups: Seq<GroupView>, k: int, key: Seq<char>) -> bool {
    exists|j: int| 0 <= j < k && name_key((#[trigger] groups[j]).name) == key
}

/// Whether one of the first `k` of `memberships` is that of `user` in the
/// group `group_id`.
pub open spec fn lists_member(
    memberships: Seq<Membership>,
    k: int,
    group_id: u32,
    user: AccountId,
) -> bool {
    exists|j: int|
        0 <= j < k && (#[trigger] memberships[j]).group_id == group_id && memberships[j].user
            == user
}

/// The part of `state` that the first `k` of `groups` make up.
pub open spec fn stocked_with(state: AZGroupsView, groups: Seq<GroupView>, k: int) -> AZGroupsView {
    AZGroupsView {
        groups: Map::new(|id: u32| lists_id(groups, k, id), |id: u32| state.groups[id]),
        group_id_by_name: Map::new(
            |key: Seq<char>| lists_key(groups, k, key),
            |key: Seq<char>| state.group_id_by_name[key],
        ),
        groups_total: state.groups_total,
        group_users: Map::empty(),
        events: Seq::empty(),
    }
}

/// The part of `state` that its groups and the first `k` of `memberships`
/// make up.
pub open spec fn manned_with(
    state: AZGroupsView,
    memberships: Seq<Membership>,
    k: int,
) -> AZGroupsView {
    AZGroupsView {
        group_users: Map::new(
            |key: (u32, AccountId)| lists_member(memberships, k, key.0, key.1),
            |key: (u32, AccountId)| state.group_users[key],
        ),
        events: Seq::empty(),
        ..state
    }
}

/// Adding the first `k` groups of a consistent state, one by one, gives the
/// part of the state that they make up.
pub proof fn lemma_with_groups_of_state(state: AZGroupsView, groups: Seq<GroupView>, k: int)
    requires
        state.consistent(),
        state.lists_groups(groups),
        0 <= k <= groups.len(),
    ensures
        AZGroupsView::empty(state.groups_total).with_groups(groups.take(k)) == Some(
            stocked_with(state, groups, k),
        ),
    decreases k,
{
    if k > 0 {
        lemma_with_groups_of_state(state, groups, k - 1);
        assert(groups.take(k).drop_last() =~= groups.take(k - 1));
    }
}

/// Adding the first `k` memberships of a consistent state to its groups,
/// one by one, gives the part of the state that they make up.
pub proof fn lemma_with_memberships_of_state(
    state: AZGroupsView,
    memberships: Seq<Membership>,
    k: int,
)
    requires
        state.consistent(),
        state.lists_memberships(memberships),
        0 <= k <= memberships.len(),
    ensures
        manned_with(state, memberships, 0).with_memberships(memberships.take(k)) == Some(
            manned_with(state, memberships, k),
        ),
    decreases k,
{
    if k > 0 {
        lemma_with_memberships_of_state(state, memberships, k - 1);
        let before = manned_with(state, memberships, k - 1);
        let m = memberships[k - 1];
        assert(memberships.take(k).drop_last() =~= memberships.take(k - 1));
        if before.group_users.contains_key((m.group_id, m.user)) {
            let j = choose|j: int|
                0 <= j < k - 1 && (#[trigger] memberships[j]).group_id == m.group_id
                    && memberships[j].user == m.user;
            assert(memberships[j].group_id != memberships[k - 1].group_id || memberships[j].user
                != memberships[k - 1].user);
        }
    }
}

/// What was listed of a consistent state restores it: from its counter, its
/// groups and its memberships comes the state itself, without the
/// notifications.
pub proof fn lemma_restore_round_trip(
    state: AZGroupsView,
    groups: Seq<GroupView>,
    memberships: Seq<Membership>,
)
    requires
        state.consistent(),
        state.lists_groups(groups),
        state.lists_memberships(memberships),
    ensures
        AZGroupsView::restored(state.groups_total, groups, memberships) == Some(
            AZGroupsView { events: Seq::empty(), ..state },
        ),
{
    let n = groups.len() as int;
    lemma_with_groups_of_state(state, groups, n);
    assert(groups.take(n) =~= groups);
    assert(stocked_with(state, groups, n) =~= manned_with(state, memberships, 0));
    let m = memberships.len() as int;
    lemma_with_memberships_of_state(state, memberships, m);
    assert(memberships.take(m) =~= memberships);
}

} // verus!
