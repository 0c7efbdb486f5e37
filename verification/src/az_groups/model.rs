//! What the registry does, as functions on mathematical maps.
//!
//! For each operation there is a function that gives its result in a state,
//! and one that gives the state after it where it succeeds. A failed
//! operation leaves the state as it is.

use crate::account::AccountId;
use crate::az_groups::EventView;
use crate::az_groups::Group;
use crate::az_groups::GroupUser;
use crate::az_groups::GroupView;
use crate::az_groups::Membership;
use crate::errors::AZGroupsError;
use crate::errors::AZGroupsErrorView;
use crate::role::Role;
use crate::text::is_trimmed;
use crate::text::lowercase;
use crate::text::trimmed;
use vstd::prelude::*;

verus! {

/// Under which key of the name index a group of the given name stands: its
/// name in lowercase.
pub open spec fn name_key(name: Seq<char>) -> Seq<char> {
    lowercase(name)
}

/// The views of a sequence of groups.
pub open spec fn group_views(groups: Seq<Group>) -> Seq<GroupView> {
    Seq::new(groups.len(), |i: int| groups[i]@)
}

/// The state of a registry as mathematical maps.
#[verifier::ext_equal]
pub struct AZGroupsView {
    /// The groups by id.
    pub groups: Map<u32, GroupView>,
    /// The id of each group by the key of its name.
    pub group_id_by_name: Map<Seq<char>, u32>,
    /// How many ids were issued: the id of the next group.
    pub groups_total: u32,
    /// The memberships by group and account.
    pub group_users: Map<(u32, AccountId), GroupUser>,
    /// The notifications that were issued and not yet taken, oldest first.
    pub events: Seq<EventView>,
}

impl AZGroupsView {
    /// The state without groups, memberships or notifications, in which the
    /// first group gets the id `first_id`.
    pub open spec fn empty(first_id: u32) -> AZGroupsView {
        AZGroupsView {
            groups: Map::empty(),
            group_id_by_name: Map::empty(),
            groups_total: first_id,
            group_users: Map::empty(),
            events: Seq::empty(),
        }
    }

    /// Whether the parts of the state agree with each other.
    ///
    /// Every group stands under its own id, which is below the counter. Its
    /// name is trimmed and not blank, and the name index holds its id under
    /// the key of its name. The index holds nothing else: each of its keys
    /// is the key of the name of the group that it leads to, so no two
    /// groups share a key. Every membership belongs to a group that exists.
    pub open spec fn consistent(self) -> bool {
        &&& forall|id: u32| #[trigger]
            self.groups.contains_key(id) ==> {
                &&& self.groups[id].id == id
                &&& id < self.groups_total
                &&& self.groups[id].name.len() > 0
                &&& is_trimmed(self.groups[id].name)
                &&& self.group_id_by_name.contains_key(name_key(self.groups[id].name))
                &&& self.group_id_by_name[name_key(self.groups[id].name)] == id
            }
        &&& forall|key: Seq<char>| #[trigger]
            self.group_id_by_name.contains_key(key) ==> {
                &&& self.groups.contains_key(self.group_id_by_name[key])
                &&& name_key(self.groups[self.group_id_by_name[key]].name) == key
            }
        &&& forall|group_id: u32, user: AccountId| #[trigger]
            self.group_users.contains_key((group_id, user)) ==> self.groups.contains_key(group_id)
    }

    /// Whether `groups` are the groups of the state, each once.
    pub open spec fn lists_groups(self, groups: Seq<GroupView>) -> bool {
        &&& forall|i: int|
            0 <= i < groups.len() ==> self.groups.contains_key((#[trigger] groups[i]).id)
                && self.groups[groups[i].id] == groups[i]
        &&& forall|id: u32| #[trigger]
            self.groups.contains_key(id) ==> exists|i: int|
                0 <= i < groups.len() && (#[trigger] groups[i]).id == id
        &&& forall|i: int, j: int|
            0 <= i < j < groups.len() ==> (#[trigger] groups[i]).id != (#[trigger] groups[j]).id
    }

    /// Whether `memberships` are the memberships of the state, each once.
    pub open spec fn lists_memberships(self, memberships: Seq<Membership>) -> bool {
        &&& forall|i: int|
            0 <= i < memberships.len() ==> {
                let m = #[trigger] memberships[i];
                self.group_users.contains_key((m.group_id, m.user)) && self.group_users[(
                    m.group_id,
                    m.user,
                )].role == m.role
            }
        &&& forall|group_id: u32, user: AccountId| #[trigger]
            self.group_users.contains_key((group_id, user)) ==> exists|i: int|
                0 <= i < memberships.len() && (#[trigger] memberships[i]).group_id == group_id
                    && memberships[i].user == user
        &&& forall|i: int, j: int|
            0 <= i < j < memberships.len() ==> (#[trigger] memberships[i]).group_id != (
            #[trigger] memberships[j]).group_id || memberships[i].user != memberships[j].user
    }

    /// The state with one more group, as it was stored before: `None` where
    /// the group cannot stand beside what the state holds.
    pub open spec fn with_group(self, group: GroupView) -> Option<AZGroupsView> {
        if group.id < self.groups_total && group.name.len() > 0 && is_trimmed(group.name)
            && !self.groups.contains_key(group.id) && !self.group_id_by_name.contains_key(
            name_key(group.name),
        ) {
            Some(
                AZGroupsView {
                    groups: self.groups.insert(group.id, group),
                    group_id_by_name: self.group_id_by_name.insert(name_key(group.name), group.id),
                    ..self
                },
            )
        } else {
            None
        }
    }

    /// The state with the given groups added one by one.
    pub open spec fn with_groups(self, groups: Seq<GroupView>) -> Option<AZGroupsView>
        decreases groups.len(),
    {
        if groups.len() == 0 {
            Some(self)
        } else {
            match self.with_groups(groups.drop_last()) {
                Some(state) => state.with_group(groups.last()),
                None => None,
            }
        }
    }

    /// The state with one more membership: `None` where its group is
    /// missing, or the account is in the group already.
    pub open spec fn with_membership(self, membership: Membership) -> Option<AZGroupsView> {
        if self.groups.contains_key(membership.group_id) && !self.group_users.contains_key(
            (membership.group_id, membership.user),
        ) {
            Some(
                AZGroupsView {
                    group_users: self.group_users.insert(
                        (membership.group_id, membership.user),
                        GroupUser { role: membership.role },
                    ),
                    ..self
                },
            )
        } else {
            None
        }
    }

    /// The state with the given memberships added one by one.
    pub open spec fn with_memberships(self, memberships: Seq<Membership>) -> Option<AZGroupsView>
        decreases memberships.len(),
    {
        if memberships.len() == 0 {
            Some(self)
        } else {
            match self.with_memberships(memberships.drop_last()) {
                Some(state) => state.with_membership(memberships.last()),
                None => None,
            }
        }
    }

    /// The state that holds the given groups and memberships, with the
    /// counter at `groups_total` and no notification: `None` where they
    /// cannot stand together.
    pub open spec fn restored(
        groups_total: u32,
        groups: Seq<GroupView>,
        memberships: Seq<Membership>,
    ) -> Option<AZGroupsView> {
        match AZGroupsView::empty(groups_total).with_groups(groups) {
            Some(state) => state.with_memberships(memberships),
            None => None,
        }
    }

    /// What `groups_show` returns.
    pub open spec fn groups_show(self, id: u32) -> Result<GroupView, AZGroupsErrorView> {
        if self.groups.contains_key(id) {
            Ok(self.groups[id])
        } else {
            Err(AZGroupsErrorView::NotFound("Group"@))
        }
    }

    /// What `group_users_show` returns.
    pub open spec fn group_users_show(self, group_id: u32, user: AccountId) -> Result<
        GroupUser,
        AZGroupsErrorView,
    > {
        if self.group_users.contains_key((group_id, user)) {
            Ok(self.group_users[(group_id, user)])
        } else {
            Err(AZGroupsErrorView::NotFound("GroupUser"@))
        }
    }

    /// What `groups_find_by_name` returns.
    pub open spec fn groups_find_by_name(self, name: Seq<char>) -> Result<
        GroupView,
        AZGroupsErrorView,
    > {
        if self.group_id_by_name.contains_key(name_key(name)) {
            self.groups_show(self.group_id_by_name[name_key(name)])
        } else {
            Err(AZGroupsErrorView::NotFound("Group"@))
        }
    }

    /// What `groups_create` returns: the new group, which gets the name
    /// without surrounding whitespace and the next id, or the first failure
    /// in this order.
    pub open spec fn groups_create(self, name: Seq<char>) -> Result<GroupView, AZGroupsErrorView> {
        if trimmed(name).len() == 0 {
            Err(AZGroupsErrorView::UnprocessableEntity("Name can't be blank"@))
        } else if self.groups_total == u32::MAX {
            Err(AZGroupsErrorView::UnprocessableEntity("Group limit reached"@))
        } else if self.group_id_by_name.contains_key(name_key(trimmed(name))) {
            Err(AZGroupsErrorView::UnprocessableEntity("Group has already been taken"@))
        } else {
            Ok(GroupView { id: self.groups_total, name: trimmed(name), enabled: true })
        }
    }

    /// The state after a `groups_create` that succeeded: the group is
    /// stored and indexed, `caller` is its `SuperAdmin`, the counter has
    /// moved on, and both are notified.
    pub open spec fn after_groups_create(self, caller: AccountId, name: Seq<char>) -> AZGroupsView {
        let id = self.groups_total;
        AZGroupsView {
            groups: self.groups.insert(
                id,
                GroupView { id: id, name: trimmed(name), enabled: true },
            ),
            group_id_by_name: self.group_id_by_name.insert(name_key(trimmed(name)), id),
            groups_total: (id + 1) as u32,
            group_users: self.group_users.insert((id, caller), GroupUser { role: Role::SuperAdmin }),
            events: self.events.push(EventView::Create { id: id, name: trimmed(name) }).push(
                EventView::GroupUserCreate { group_id: id, user: caller, role: Role::SuperAdmin },
            ),
        }
    }

    /// What `group_users_create` returns for the account `caller`.
    pub open spec fn group_users_create(self, caller: AccountId, group_id: u32) -> Result<
        GroupUser,
        AZGroupsErrorView,
    > {
        if !self.groups.contains_key(group_id) {
            Err(AZGroupsErrorView::NotFound("Group"@))
        } else if self.group_users.contains_key((group_id, caller)) {
            Err(AZGroupsErrorView::UnprocessableEntity("Group user has already been taken"@))
        } else {
            Ok(GroupUser { role: Role::Applicant })
        }
    }

    /// The state after a `group_users_create` that succeeded.
    pub open spec fn after_group_users_create(self, caller: AccountId, group_id: u32) -> AZGroupsView {
        AZGroupsView {
            group_users: self.group_users.insert(
                (group_id, caller),
                GroupUser { role: Role::Applicant },
            ),
            events: self.events.push(
                EventView::GroupUserCreate { group_id: group_id, user: caller, role: Role::Applicant },
            ),
            ..self
        }
    }

    /// What `group_users_destroy` returns for the account `caller`: both
    /// accounts need a membership, the caller's is looked for first; an
    /// account leaves by itself where its role allows that, and removes
    /// another where its role allows to manage the other's.
    pub open spec fn group_users_destroy(
        self,
        caller: AccountId,
        group_id: u32,
        user: AccountId,
    ) -> Result<(), AZGroupsErrorView> {
        if !self.group_users.contains_key((group_id, caller)) {
            Err(AZGroupsErrorView::NotFound("GroupUser"@))
        } else if !self.group_users.contains_key((group_id, user)) {
            Err(AZGroupsErrorView::NotFound("GroupUser"@))
        } else if caller == user {
            if self.group_users[(group_id, caller)].role.may_leave() {
                Ok(())
            } else {
                Err(AZGroupsErrorView::Unauthorised)
            }
        } else if self.group_users[(group_id, caller)].role.may_manage(
            self.group_users[(group_id, user)].role,
        ) {
            Ok(())
        } else {
            Err(AZGroupsErrorView::Unauthorised)
        }
    }

    /// The state after a `group_users_destroy` that succeeded: the
    /// membership is gone.
    pub open spec fn after_group_users_destroy(self, group_id: u32, user: AccountId) -> AZGroupsView {
        AZGroupsView {
            group_users: self.group_users.remove((group_id, user)),
            events: self.events.push(EventView::GroupUserDestroy { group_id: group_id, user: user }),
            ..self
        }
    }

    /// What `group_users_update` returns for the account `caller`, the
    /// conditions taken in this order: nobody sets their own role; the
    /// caller is in the group, as `Admin` or above; the target is in the
    /// group, with a role not above the caller's; and the new role is not
    /// above the caller's.
    pub open spec fn group_users_update(
        self,
        caller: AccountId,
        group_id: u32,
        user: AccountId,
        role: Role,
    ) -> Result<GroupUser, AZGroupsErrorView> {
        if caller == user {
            Err(AZGroupsErrorView::Unauthorised)
        } else if !self.group_users.contains_key((group_id, caller)) {
            Err(AZGroupsErrorView::NotFound("GroupUser"@))
        } else if self.group_users[(group_id, caller)].role.rank() < Role::Admin.rank() {
            Err(AZGroupsErrorView::Unauthorised)
        } else if !self.group_users.contains_key((group_id, user)) {
            Err(AZGroupsErrorView::NotFound("GroupUser"@))
        } else if !self.group_users[(group_id, caller)].role.may_manage(
            self.group_users[(group_id, user)].role,
        ) {
            Err(AZGroupsErrorView::Unauthorised)
        } else if !self.group_users[(group_id, caller)].role.may_grant(role) {
            Err(AZGroupsErrorView::Unauthorised)
        } else {
            Ok(GroupUser { role: role })
        }
    }

    /// The state after a `group_users_update` that succeeded.
    pub open spec fn after_group_users_update(
        self,
        group_id: u32,
        user: AccountId,
        role: Role,
    ) -> AZGroupsView {
        AZGroupsView {
            group_users: self.group_users.insert((group_id, user), GroupUser { role: role }),
            events: self.events.push(
                EventView::GroupUserUpdate { group_id: group_id, user: user, role: role },
            ),
            ..self
        }
    }

    /// What `groups_update` returns for the account `caller`: the group
    /// with the new name, without surrounding whitespace, and the new flag,
    /// or the first failure in this order. A name is checked only where it
    /// differs from the stored one, and looked for among the other groups
    /// only where its key differs.
    pub open spec fn groups_update(
        self,
        caller: AccountId,
        id: u32,
        name: Seq<char>,
        enabled: bool,
    ) -> Result<GroupView, AZGroupsErrorView> {
        if !self.groups.contains_key(id) {
            Err(AZGroupsErrorView::NotFound("Group"@))
        } else if !self.group_users.contains_key((id, caller)) {
            Err(AZGroupsErrorView::NotFound("GroupUser"@))
        } else if self.group_users[(id, caller)].role != Role::SuperAdmin {
            Err(AZGroupsErrorView::Unauthorised)
        } else if trimmed(name) != self.groups[id].name && trimmed(name).len() == 0 {
            Err(AZGroupsErrorView::UnprocessableEntity("Name can't be blank"@))
        } else if name_key(trimmed(name)) != name_key(self.groups[id].name)
            && self.group_id_by_name.contains_key(name_key(trimmed(name))) {
            Err(AZGroupsErrorView::UnprocessableEntity("Group has already been taken"@))
        } else {
            Ok(GroupView { id: id, name: trimmed(name), enabled: enabled })
        }
    }

    /// The state after a `groups_update` that succeeded: the group has the
    /// new name and flag, and the index holds the new name's key in place
    /// of the old one's.
    pub open spec fn after_groups_update(self, id: u32, name: Seq<char>, enabled: bool) -> AZGroupsView {
        AZGroupsView {
            groups: self.groups.insert(
                id,
                GroupView { id: id, name: trimmed(name), enabled: enabled },
            ),
            group_id_by_name: self.group_id_by_name.remove(name_key(self.groups[id].name)).insert(
                name_key(trimmed(name)),
                id,
            ),
            events: self.events.push(
                EventView::Update { id: id, name: trimmed(name), enabled: enabled },
            ),
            ..self
        }
    }

    /// What `validate_membership` returns: the account's role where the
    /// group exists, is enabled, and holds the account with a role of
    /// `Member` or above; else the first failure in this order.
    pub open spec fn validate_membership(self, group_id: u32, user: AccountId) -> Result<
        Role,
        AZGroupsErrorView,
    > {
        if !self.groups.contains_key(group_id) {
            Err(AZGroupsErrorView::NotFound("Group"@))
        } else if !self.groups[group_id].enabled {
            Err(AZGroupsErrorView::GroupDisabled)
        } else if !self.group_users.contains_key((group_id, user)) {
            Err(AZGroupsErrorView::NotFound("GroupUser"@))
        } else if self.group_users[(group_id, user)].role.rank() < Role::Member.rank() {
            Err(AZGroupsErrorView::NotAMember)
        } else {
            Ok(self.group_users[(group_id, user)].role)
        }
    }
}

/// Whether a result of the registry is the result `expected` of its model.
pub open spec fn agrees<T: View>(r: Result<T, AZGroupsError>, expected: Result<
    T::V,
    AZGroupsErrorView,
>) -> bool {
    match r {
        Ok(v) => expected == Ok::<T::V, AZGroupsErrorView>(v@),
        Err(e) => expected == Err::<T::V, AZGroupsErrorView>(e@),
    }
}

/// Whether a result that holds a plain value is the result `expected` of
/// the model.
pub open spec fn agrees_plain<T>(r: Result<T, AZGroupsError>, expected: Result<
    T,
    AZGroupsErrorView,
>) -> bool {
    match r {
        Ok(v) => expected == Ok::<T, AZGroupsErrorView>(v),
        Err(e) => expected == Err::<T, AZGroupsErrorView>(e@),
    }
}

} // verus!
