//! The group registry: groups, their names, and the role that each account
//! holds in each group.
//!
//! `AZGroups` is the registry. `model` says what its operations do, as
//! functions on mathematical maps, and `laws` holds what is proved of them.

pub mod laws;
pub mod model;

use crate::account::AccountId;
use crate::az_groups::laws::lemma_with_groups_prefix;
use crate::az_groups::laws::lemma_with_memberships_prefix;
use crate::az_groups::model::agrees;
use crate::az_groups::model::agrees_plain;
use crate::az_groups::model::group_views;
use crate::az_groups::model::AZGroupsView;
use crate::errors::fails_with;
use crate::errors::AZGroupsError;
use crate::errors::AZGroupsErrorView;
use crate::role::Role;
use crate::table::key_at;
use crate::table::lemma_map_of_entry;
use crate::table::Key;
use crate::table::Table;
use crate::text::lemma_trimmed_idempotent;
use crate::text::to_lowercase;
use crate::text::trim;
use crate::text::trimmed;
use vstd::prelude::*;

verus! {

/// A group: a named set of memberships that can be switched on and off.
#[derive(Debug, PartialEq, Eq)]
pub struct Group {
    pub id: u32,
    pub name: String,
    pub enabled: bool,
}

/// A `Group` with its name as a sequence of characters.
pub struct GroupView {
    pub id: u32,
    pub name: Seq<char>,
    pub enabled: bool,
}

impl View for Group {
    type V = GroupView;

    open spec fn view(&self) -> GroupView {
        GroupView { id: self.id, name: self.name@, enabled: self.enabled }
    }
}

impl Clone for Group {
    fn clone(&self) -> (g: Group)
        ensures
            g@ == self@,
    {
        Group { id: self.id, name: self.name.clone(), enabled: self.enabled }
    }
}

/// The membership of one account in one group.
#[derive(Clone, Copy, Debug, PartialEq, Eq, Structural)]
pub struct GroupUser {
    pub role: Role,
}

/// Notification: a group was created.
#[derive(Debug, PartialEq, Eq)]
pub struct Create {
    pub id: u32,
    pub name: String,
}

/// Notification: a group's name or enabled flag was set.
#[derive(Debug, PartialEq, Eq)]
pub struct Update {
    pub id: u32,
    pub name: String,
    pub enabled: bool,
}

/// Notification: a membership was created.
#[derive(Clone, Copy, Debug, PartialEq, Eq)]
pub struct GroupUserCreate {
    pub group_id: u32,
    pub user: AccountId,
    pub role: Role,
}

/// Notification: a membership was deleted.
#[derive(Clone, Copy, Debug, PartialEq, Eq)]
pub struct GroupUserDestroy {
    pub group_id: u32,
    pub user: AccountId,
}

/// Notification: the role of a membership was set.
#[derive(Clone, Copy, Debug, PartialEq, Eq)]
pub struct GroupUserUpdate {
    pub group_id: u32,
    pub user: AccountId,
    pub role: Role,
}

/// A notification of the registry.
#[derive(Debug, PartialEq, Eq)]
pub enum Event {
    Create(Create),
    Update(Update),
    GroupUserCreate(GroupUserCreate),
    GroupUserDestroy(GroupUserDestroy),
    GroupUserUpdate(GroupUserUpdate),
}

/// An `Event` with its texts as sequences of characters.
pub enum EventView {
    Create { id: u32, name: Seq<char> },
    Update { id: u32, name: Seq<char>, enabled: bool },
    GroupUserCreate { group_id: u32, user: AccountId, role: Role },
    GroupUserDestroy { group_id: u32, user: AccountId },
    GroupUserUpdate { group_id: u32, user: AccountId, role: Role },
}

impl View for Event {
    type V = EventView;

    open spec fn view(&self) -> EventView {
        match *self {
            Event::Create(e) => EventView::Create { id: e.id, name: e.name@ },
            Event::Update(e) => EventView::Update { id: e.id, name: e.name@, enabled: e.enabled },
            Event::GroupUserCreate(e) => EventView::GroupUserCreate {
                group_id: e.group_id,
                user: e.user,
                role: e.role,
            },
            Event::GroupUserDestroy(e) => EventView::GroupUserDestroy {
                group_id: e.group_id,
                user: e.user,
            },
            Event::GroupUserUpdate(e) => EventView::GroupUserUpdate {
                group_id: e.group_id,
                user: e.user,
                role: e.role,
            },
        }
    }
}

/// A membership with the group and the account that it belongs to.
#[derive(Clone, Copy, Debug, PartialEq, Eq)]
pub struct Membership {
    pub group_id: u32,
    pub user: AccountId,
    pub role: Role,
}

/// The key of a membership: a group and an account.
pub struct MemberKey {
    pub group_id: u32,
    pub user: AccountId,
}

impl View for MemberKey {
    type V = (u32, AccountId);

    open spec fn view(&self) -> (u32, AccountId) {
        (self.group_id, self.user)
    }
}

impl Key for MemberKey {
    fn same(&self, other: &MemberKey) -> (b: bool) {
        self.group_id == other.group_id && self.user == other.user
    }
}

/// The registry of groups and memberships.
pub struct AZGroups {
    groups: Table<u32, Group>,
    group_id_by_name: Table<String, u32>,
    groups_total: u32,
    group_users: Table<MemberKey, GroupUser>,
    events: Vec<Event>,
}

impl AZGroups {
    /// The state of the registry.
    pub closed spec fn view(&self) -> AZGroupsView {
        AZGroupsView {
            groups: Map::new(
                |id: u32| self.groups@.contains_key(id),
                |id: u32| self.groups@[id]@,
            ),
            group_id_by_name: self.group_id_by_name@,
            groups_total: self.groups_total,
            group_users: self.group_users@,
            events: Seq::new(self.events@.len(), |i: int| self.events@[i]@),
        }
    }

    /// Whether the registry is well formed: its tables are, and its state
    /// is consistent.
    pub closed spec fn wf(&self) -> bool {
        &&& self.groups.wf()
        &&& self.group_id_by_name.wf()
        &&& self.group_users.wf()
        &&& self@.consistent()
    }

    /// A well-formed registry is in a consistent state.
    pub proof fn lemma_wf_consistent(&self)
        requires
            self.wf(),
        ensures
            self@.consistent(),
    {
    }

    /// A registry without groups, whose first group gets the id 0.
    pub fn new() -> (registry: AZGroups)
        ensures
            registry.wf(),
            registry@ == AZGroupsView::empty(0),
    {
        AZGroups::starting_at(0)
    }

    /// A registry without groups, whose first group gets the id `first_id`.
    pub fn starting_at(first_id: u32) -> (registry: AZGroups)
        ensures
            registry.wf(),
            registry@ == AZGroupsView::empty(first_id),
    {
        let registry = AZGroups {
            groups: Table::new(),
            group_id_by_name: Table::new(),
            groups_total: first_id,
            group_users: Table::new(),
            events: Vec::new(),
        };
        registry
    }

    /// How many ids were issued: the id that the next group gets.
    pub fn groups_total(&self) -> (total: u32)
        ensures
            total == self@.groups_total,
    {
        self.groups_total
    }

    /// Hands out the notifications issued since they were last taken, oldest
    /// first, and forgets them.
    pub fn take_events(&mut self) -> (events: Vec<Event>)
        requires
            old(self).wf(),
        ensures
            final(self).wf(),
            final(self)@ == (AZGroupsView { events: Seq::empty(), ..old(self)@ }),
            events@.len() == old(self)@.events.len(),
            forall|i: int| 0 <= i < events@.len() ==> events@[i]@ == old(self)@.events[i],
    {
        let mut events: Vec<Event> = Vec::new();
        core::mem::swap(&mut self.events, &mut events);
        assert(self@.groups =~= old(self)@.groups);
        events
    }

    /// The groups, each once.
    pub fn groups(&self) -> (groups: Vec<Group>)
        requires
            self.wf(),
        ensures
            self@.lists_groups(group_views(groups@)),
    {
        let mut groups: Vec<Group> = Vec::new();
        let n: usize = self.groups.len();
        let mut i: usize = 0;
        while i < n
            invariant
                self.wf(),
                n == self.groups.entries().len(),
                i <= n,
                groups@.len() == i,
                forall|j: int| 0 <= j < i ==> (#[trigger] groups@[j])@ == self.groups.entries()[j].1@,
            decreases n - i,
        {
            groups.push(self.groups.entry(i).1.clone());
            i += 1;
        }
        proof {
            let entries = self.groups.entries();
            let listed = group_views(groups@);
            assert forall|j: int| 0 <= j < entries.len() implies self@.groups.contains_key(
                (#[trigger] entries[j]).0,
            ) && self@.groups[entries[j].0] == entries[j].1@ && entries[j].1.id == entries[j].0 by {
                lemma_map_of_entry(entries, j);
            }
            assert forall|id: u32| #[trigger] self@.groups.contains_key(id) implies exists|i: int|
                0 <= i < listed.len() && (#[trigger] listed[i]).id == id by {
                let j = choose|j: int| key_at(entries, id, j);
                assert(listed[j].id == id);
            }
        }
        groups
    }

    /// The memberships, each once.
    pub fn memberships(&self) -> (memberships: Vec<Membership>)
        requires
            self.wf(),
        ensures
            self@.lists_memberships(memberships@),
    {
        let mut memberships: Vec<Membership> = Vec::new();
        let n: usize = self.group_users.len();
        let mut i: usize = 0;
        while i < n
            invariant
                self.wf(),
                n == self.group_users.entries().len(),
                i <= n,
                memberships@.len() == i,
                forall|j: int|
                    0 <= j < i ==> {
                        let m = #[trigger] memberships@[j];
                        let e = self.group_users.entries()[j];
                        m.group_id == e.0.group_id && m.user == e.0.user && m.role == e.1.role
                    },
            decreases n - i,
        {
            let e = self.group_users.entry(i);
            memberships.push(
                Membership { group_id: e.0.group_id, user: e.0.user, role: e.1.role },
            );
            i += 1;
        }
        proof {
            let entries = self.group_users.entries();
            assert forall|i: int| 0 <= i < memberships@.len() implies {
                let m = #[trigger] memberships@[i];
                self@.group_users.contains_key((m.group_id, m.user))
                    && self@.group_users[(m.group_id, m.user)].role == m.role
            } by {
                lemma_map_of_entry(entries, i);
            }
            assert forall|group_id: u32, user: AccountId| #[trigger]
                self@.group_users.contains_key((group_id, user)) implies exists|i: int|
                0 <= i < memberships@.len() && (#[trigger] memberships@[i]).group_id == group_id
                    && memberships@[i].user == user by {
                let j = choose|j: int| key_at(entries, (group_id, user), j);
                assert(memberships@[j].group_id == entries[j].0.group_id);
            }
        }
        memberships
    }

    /// The registry that holds the given groups and memberships, with its
    /// counter at `groups_total`, if they can stand together: the ids of the
    /// groups are below the counter and differ, their names are trimmed, not
    /// blank, and differ in lowercase, and each membership is the only one of
    /// its account in a group that is given.
    pub fn restore(groups_total: u32, groups: Vec<Group>, memberships: Vec<Membership>) -> (r:
        Option<AZGroups>)
        ensures
            (match r {
                Some(registry) => registry.wf() && AZGroupsView::restored(
                    groups_total,
                    group_views(groups@),
                    memberships@,
                ) == Some(registry@),
                None => AZGroupsView::restored(groups_total, group_views(groups@), memberships@)
                    is None,
            }),
    {
        let mut registry = AZGroups::starting_at(groups_total);
        let ghost given = group_views(groups@);
        let ghost start = AZGroupsView::empty(groups_total);
        let mut i: usize = 0;
        while i < groups.len()
            invariant
                i <= groups@.len(),
                given == group_views(groups@),
                start == AZGroupsView::empty(groups_total),
                registry.wf(),
                registry@.groups_total == groups_total,
                start.with_groups(given.take(i as int)) == Some(registry@),
            decreases groups@.len() - i,
        {
            let group: &Group = &groups[i];
            let ghost next = registry@.with_group(group@);
            proof {
                assert(given.take(i + 1).drop_last() =~= given.take(i as int));
            }
            let trimmed_name: String = trim(group.name.as_str());
            let key: String = to_lowercase(group.name.as_str());
            if group.id >= groups_total || group.name.as_str().is_empty() || !(trimmed_name
                == group.name) || registry.groups.contains_key(&group.id)
                || registry.group_id_by_name.contains_key(&key) {
                proof {
                    lemma_with_groups_prefix(start, given, i + 1);
                }
                return None;
            }
            registry.groups.insert(group.id, group.clone());
            registry.group_id_by_name.insert(key, group.id);
            assert(registry@.groups =~= next.unwrap().groups);
            i += 1;
        }
        assert(given.take(groups@.len() as int) =~= given);
        let ghost stocked = registry@;
        let mut j: usize = 0;
        while j < memberships.len()
            invariant
                j <= memberships@.len(),
                given == group_views(groups@),
                start == AZGroupsView::empty(groups_total),
                start.with_groups(given) == Some(stocked),
                registry.wf(),
                stocked.with_memberships(memberships@.take(j as int)) == Some(registry@),
            decreases memberships@.len() - j,
        {
            let membership: Membership = memberships[j];
            proof {
                assert(memberships@.take(j + 1).drop_last() =~= memberships@.take(j as int));
            }
            let key = MemberKey { group_id: membership.group_id, user: membership.user };
            if !registry.groups.contains_key(&membership.group_id)
                || registry.group_users.contains_key(&key) {
                proof {
                    lemma_with_memberships_prefix(stocked, memberships@, j + 1);
                }
                return None;
            }
            registry.group_users.insert(key, GroupUser { role: membership.role });
            j += 1;
        }
        assert(memberships@.take(memberships@.len() as int) =~= memberships@);
        Some(registry)
    }

    /// The group with the given id.
    pub fn groups_show(&self, id: u32) -> (r: Result<Group, AZGroupsError>)
        requires
            self.wf(),
        ensures
            agrees(r, self@.groups_show(id)),
    {
        match self.groups.get(&id) {
            Some(group) => Ok(group.clone()),
            None => Err(AZGroupsError::not_found("Group")),
        }
    }

    /// The membership of `user` in the group `group_id`.
    pub fn group_users_show(&self, group_id: u32, user: AccountId) -> (r: Result<
        GroupUser,
        AZGroupsError,
    >)
        requires
            self.wf(),
        ensures
            agrees_plain(r, self@.group_users_show(group_id, user)),
    {
        match self.group_users.get(&MemberKey { group_id, user }) {
            Some(group_user) => Ok(*group_user),
            None => Err(AZGroupsError::not_found("GroupUser")),
        }
    }

    /// Checks that the group is enabled and that `user` is at least a
    /// `Member` of it, and returns the user's role.
    pub fn validate_membership(&self, group_id: u32, user: AccountId) -> (r: Result<
        Role,
        AZGroupsError,
    >)
        requires
            self.wf(),
        ensures
            agrees_plain(r, self@.validate_membership(group_id, user)),
            r is Ok <==> self@.groups.contains_key(group_id) && self@.groups[group_id].enabled
                && self@.group_users.contains_key((group_id, user)) && self@.group_users[(
                group_id,
                user,
            )].role.rank() >= Role::Member.rank(),
    {
        let enabled: bool = match self.groups.get(&group_id) {
            Some(group) => group.enabled,
            None => { return Err(AZGroupsError::not_found("Group")); },
        };
        if !enabled {
            return Err(AZGroupsError::GroupDisabled);
        }
        let group_user: GroupUser = match self.group_users.get(&MemberKey { group_id, user }) {
            Some(group_user) => *group_user,
            None => { return Err(AZGroupsError::not_found("GroupUser")); },
        };
        if group_user.role.to_int() < 2 {
            return Err(AZGroupsError::NotAMember);
        }
        Ok(group_user.role)
    }

    /// The group whose name has the same lowercase form as `name`.
    pub fn groups_find_by_name(&self, name: String) -> (r: Result<Group, AZGroupsError>)
        requires
            self.wf(),
        ensures
            agrees(r, self@.groups_find_by_name(name@)),
    {
        let key: String = to_lowercase(name.as_str());
        match self.group_id_by_name.get(&key) {
            Some(id) => self.groups_show(*id),
            None => Err(AZGroupsError::not_found("Group")),
        }
    }

    /// A group name without surrounding whitespace.
    pub fn format_group_name(name: &str) -> (formatted: String)
        ensures
            formatted@ == trimmed(name@),
    {
        trim(name)
    }

    /// Checks that a group name is not empty.
    pub fn validate_group_name_presence(name: &str) -> (r: Result<(), AZGroupsError>)
        ensures
            name@.len() > 0 ==> r is Ok,
            name@.len() == 0 ==> fails_with(
                r,
                AZGroupsErrorView::UnprocessableEntity("Name can't be blank"@),
            ),
    {
        if name.is_empty() {
            return Err(AZGroupsError::unprocessable("Name can't be blank"));
        }
        Ok(())
    }

    /// Checks that no group stands under `key` in the name index.
    pub fn validate_group_name_uniqueness(&self, key: &String) -> (r: Result<(), AZGroupsError>)
        requires
            self.wf(),
        ensures
            !self@.group_id_by_name.contains_key(key@) ==> r is Ok,
            self@.group_id_by_name.contains_key(key@) ==> fails_with(
                r,
                AZGroupsErrorView::UnprocessableEntity("Group has already been taken"@),
            ),
    {
        if self.group_id_by_name.contains_key(key) {
            return Err(AZGroupsError::unprocessable("Group has already been taken"));
        }
        Ok(())
    }

    /// Appends a notification to those not yet taken.
    fn emit(&mut self, event: Event)
        ensures
            final(self).groups == old(self).groups,
            final(self).group_id_by_name == old(self).group_id_by_name,
            final(self).groups_total == old(self).groups_total,
            final(self).group_users == old(self).group_users,
            final(self)@.events == old(self)@.events.push(event@),
    {
        self.events.push(event);
    }

    /// Creates a group named `name`, without surrounding whitespace, with
    /// `caller` as its only member and `SuperAdmin`.
    pub fn groups_create(&mut self, caller: AccountId, name: String) -> (r: Result<
        Group,
        AZGroupsError,
    >)
        requires
            old(self).wf(),
        ensures
            final(self).wf(),
            agrees(r, old(self)@.groups_create(name@)),
            r is Ok ==> final(self)@ == old(self)@.after_groups_create(caller, name@),
            r is Err ==> final(self)@ == old(self)@,
            r matches Ok(group) ==> final(self)@.group_users.contains_key((group.id, caller))
                && final(self)@.group_users[(group.id, caller)].role == Role::SuperAdmin,
    {
        let formatted_name: String = AZGroups::format_group_name(name.as_str());
        match AZGroups::validate_group_name_presence(formatted_name.as_str()) {
            Ok(_) => {},
            Err(e) => { return Err(e); },
        }
        if self.groups_total == u32::MAX {
            return Err(AZGroupsError::unprocessable("Group limit reached"));
        }
        let key: String = to_lowercase(formatted_name.as_str());
        match self.validate_group_name_uniqueness(&key) {
            Ok(_) => {},
            Err(e) => { return Err(e); },
        }
        proof {
            lemma_trimmed_idempotent(name@);
        }
        let id: u32 = self.groups_total;
        let group = Group { id, name: formatted_name, enabled: true };
        self.groups.insert(id, group.clone());
        self.group_id_by_name.insert(key, id);
        self.group_users.insert(
            MemberKey { group_id: id, user: caller },
            GroupUser { role: Role::SuperAdmin },
        );
        self.groups_total = id + 1;
        self.emit(Event::Create(Create { id, name: group.name.clone() }));
        self.emit(
            Event::GroupUserCreate(
                GroupUserCreate { group_id: id, user: caller, role: Role::SuperAdmin },
            ),
        );
        assert(self@.groups =~= old(self)@.after_groups_create(caller, name@).groups);
        Ok(group)
    }

    /// Makes `caller` an `Applicant` of the group `group_id`.
    pub fn group_users_create(&mut self, caller: AccountId, group_id: u32) -> (r: Result<
        GroupUser,
        AZGroupsError,
    >)
        requires
            old(self).wf(),
        ensures
            final(self).wf(),
            agrees_plain(r, old(self)@.group_users_create(caller, group_id)),
            r is Ok ==> final(self)@ == old(self)@.after_group_users_create(caller, group_id),
            r is Err ==> final(self)@ == old(self)@,
    {
        if !self.groups.contains_key(&group_id) {
            return Err(AZGroupsError::not_found("Group"));
        }
        let key = MemberKey { group_id, user: caller };
        if self.group_users.contains_key(&key) {
            return Err(AZGroupsError::unprocessable("Group user has already been taken"));
        }
        let group_user = GroupUser { role: Role::Applicant };
        self.group_users.insert(key, group_user);
        self.emit(
            Event::GroupUserCreate(
                GroupUserCreate { group_id, user: caller, role: Role::Applicant },
            ),
        );
        Ok(group_user)
    }

    /// Deletes the membership of `user` in the group `group_id`: `caller`
    /// leaves, or removes another account.
    ///
    /// An account may leave unless it is `Banned` or `SuperAdmin`. An
    /// `Admin` or `SuperAdmin` may remove an account whose role is not above
    /// its own.
    pub fn group_users_destroy(&mut self, caller: AccountId, group_id: u32, user: AccountId) -> (r:
        Result<(), AZGroupsError>)
        requires
            old(self).wf(),
        ensures
            final(self).wf(),
            agrees_plain(r, old(self)@.group_users_destroy(caller, group_id, user)),
            r is Ok ==> final(self)@ == old(self)@.after_group_users_destroy(group_id, user),
            r is Err ==> final(self)@ == old(self)@,
            caller == user && old(self)@.group_users.contains_key((group_id, caller)) ==> ({
                let role = old(self)@.group_users[(group_id, caller)].role;
                &&& r is Ok <==> role == Role::Applicant || role == Role::Member || role
                    == Role::Admin
                &&& fails_with(r, AZGroupsErrorView::Unauthorised) <==> role == Role::Banned
                    || role == Role::SuperAdmin
            }),
            caller != user && old(self)@.group_users.contains_key((group_id, caller))
                && old(self)@.group_users.contains_key((group_id, user)) ==> ({
                let caller_role = old(self)@.group_users[(group_id, caller)].role;
                let user_role = old(self)@.group_users[(group_id, user)].role;
                r is Ok <==> caller_role.rank() >= Role::Admin.rank() && caller_role.rank()
                    >= user_role.rank()
            }),
    {
        let caller_role: Role = match self.group_users.get(&MemberKey { group_id, user: caller }) {
            Some(group_user) => group_user.role,
            None => { return Err(AZGroupsError::not_found("GroupUser")); },
        };
        let key = MemberKey { group_id, user };
        let user_role: Role = match self.group_users.get(&key) {
            Some(group_user) => group_user.role,
            None => { return Err(AZGroupsError::not_found("GroupUser")); },
        };
        if caller == user {
            if caller_role == Role::SuperAdmin || caller_role == Role::Banned {
                return Err(AZGroupsError::Unauthorised);
            }
        } else if caller_role < Role::Admin || caller_role < user_role {
            return Err(AZGroupsError::Unauthorised);
        }
        self.group_users.remove(&key);
        self.emit(Event::GroupUserDestroy(GroupUserDestroy { group_id, user }));
        Ok(())
    }

    /// Sets the role of `user` in the group `group_id` to `role`.
    ///
    /// The caller is another account, `Admin` or above, not below the
    /// user's role, and hands out no role above its own.
    pub fn group_users_update(
        &mut self,
        caller: AccountId,
        group_id: u32,
        user: AccountId,
        role: Role,
    ) -> (r: Result<GroupUser, AZGroupsError>)
        requires
            old(self).wf(),
        ensures
            final(self).wf(),
            agrees_plain(r, old(self)@.group_users_update(caller, group_id, user, role)),
            r is Ok ==> final(self)@ == old(self)@.after_group_users_update(group_id, user, role),
            r is Err ==> final(self)@ == old(self)@,
            old(self)@.group_users.contains_key((group_id, caller))
                && old(self)@.group_users.contains_key((group_id, user)) ==> ({
                let caller_role = old(self)@.group_users[(group_id, caller)].role;
                &&& r is Ok ==> role.rank() <= caller_role.rank()
                &&& role.rank() > caller_role.rank() ==> fails_with(
                    r,
                    AZGroupsErrorView::Unauthorised,
                )
            }),
    {
        if caller == user {
            return Err(AZGroupsError::Unauthorised);
        }
        let caller_role: Role = match self.group_users.get(&MemberKey { group_id, user: caller }) {
            Some(group_user) => group_user.role,
            None => { return Err(AZGroupsError::not_found("GroupUser")); },
        };
        if caller_role < Role::Admin {
            return Err(AZGroupsError::Unauthorised);
        }
        let key = MemberKey { group_id, user };
        let user_role: Role = match self.group_users.get(&key) {
            Some(group_user) => group_user.role,
            None => { return Err(AZGroupsError::not_found("GroupUser")); },
        };
        if caller_role < user_role {
            return Err(AZGroupsError::Unauthorised);
        }
        if role > caller_role {
            return Err(AZGroupsError::Unauthorised);
        }
        let group_user = GroupUser { role };
        self.group_users.insert(key, group_user);
        self.emit(Event::GroupUserUpdate(GroupUserUpdate { group_id, user, role }));
        Ok(group_user)
    }

    /// Sets the name and the enabled flag of the group `id`. Only a
    /// `SuperAdmin` of the group may.
    ///
    /// The name is stored without surrounding whitespace. It must not be
    /// blank, and where its key changes, no other group may stand under the
    /// new key.
    pub fn groups_update(&mut self, caller: AccountId, id: u32, name: String, enabled: bool) -> (r:
        Result<Group, AZGroupsError>)
        requires
            old(self).wf(),
        ensures
            final(self).wf(),
            agrees(r, old(self)@.groups_update(caller, id, name@, enabled)),
            r is Ok ==> final(self)@ == old(self)@.after_groups_update(id, name@, enabled),
            r is Err ==> final(self)@ == old(self)@,
    {
        let old_name: String = match self.groups.get(&id) {
            Some(group) => group.name.clone(),
            None => { return Err(AZGroupsError::not_found("Group")); },
        };
        let caller_role: Role = match self.group_users.get(&MemberKey { group_id: id, user: caller }) {
            Some(group_user) => group_user.role,
            None => { return Err(AZGroupsError::not_found("GroupUser")); },
        };
        if caller_role != Role::SuperAdmin {
            return Err(AZGroupsError::Unauthorised);
        }
        let name_formatted: String = AZGroups::format_group_name(name.as_str());
        if !(name_formatted == old_name) {
            match AZGroups::validate_group_name_presence(name_formatted.as_str()) {
                Ok(_) => {},
                Err(e) => { return Err(e); },
            }
            let new_key: String = to_lowercase(name_formatted.as_str());
            let old_key: String = to_lowercase(old_name.as_str());
            if !(new_key == old_key) {
                match self.validate_group_name_uniqueness(&new_key) {
                    Ok(_) => {},
                    Err(e) => { return Err(e); },
                }
            }
            self.group_id_by_name.remove(&old_key);
            self.group_id_by_name.insert(new_key, id);
        }
        proof {
            lemma_trimmed_idempotent(name@);
        }
        let group = Group { id, name: name_formatted, enabled };
        self.groups.insert(id, group.clone());
        self.emit(Event::Update(Update { id, name: group.name.clone(), enabled }));
        assert(self@.groups =~= old(self)@.after_groups_update(id, name@, enabled).groups);
        assert(self@.group_id_by_name =~= old(self)@.after_groups_update(
            id,
            name@,
            enabled,
        ).group_id_by_name);
        Ok(group)
    }
}

impl Default for AZGroups {
    fn default() -> (registry: AZGroups)
        ensures
            registry.wf(),
            registry@ == AZGroupsView::empty(0),
    {
        AZGroups::new()
    }
}

} // verus!
