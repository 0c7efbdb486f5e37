//! What holds of the directory's operations, proved of their model.

use crate::account::AccountId;
use crate::az_groups::model::AZGroupsView;
use crate::az_smart_contract_hub::model::AZSmartContractHubView;
use crate::az_smart_contract_hub::GroupClaimView;
use crate::az_smart_contract_hub::SmartContractView;
use crate::role::Role;
use vstd::prelude::*;

verus! {

/// An entry is scoped to a group only for a member: where the claim holds
/// the answer of a registry and `create` is not refused, the registry holds
/// the group, enabled, and the caller in it as `Member` or above. The same
/// holds of `update`.
pub proof fn lemma_scoped_entries_need_members(
    state: AZSmartContractHubView,
    registry: AZGroupsView,
    caller: AccountId,
    transferred_value: u128,
    domain_owner: Result<AccountId, u8>,
    group_id: u32,
    abi_url: Seq<char>,
    id: u32,
)
    ensures
        ({
            let claim = Some(
                GroupClaimView {
                    group_id: group_id,
                    membership: registry.validate_membership(group_id, caller),
                },
            );
            let member = registry.groups.contains_key(group_id) && registry.groups[group_id].enabled
                && registry.group_users.contains_key((group_id, caller))
                && registry.group_users[(group_id, caller)].role.rank() >= Role::Member.rank();
            &&& state.create_refused(caller, transferred_value, domain_owner, claim, abi_url)
                is None ==> member
            &&& state.update_refused(caller, id, domain_owner, claim) is None ==> member
        }),
{
}

/// An entry is stored only under a domain of the caller's: where `create`
/// or `update` is not refused, the router gave the caller's address.
pub proof fn lemma_entries_need_owners(
    state: AZSmartContractHubView,
    caller: AccountId,
    transferred_value: u128,
    domain_owner: Result<AccountId, u8>,
    group: Option<GroupClaimView>,
    abi_url: Seq<char>,
    id: u32,
)
    ensures
        state.create_refused(caller, transferred_value, domain_owner, group, abi_url) is None
            ==> domain_owner == Ok::<AccountId, u8>(caller),
        state.update_refused(caller, id, domain_owner, group) is None ==> domain_owner == Ok::<
            AccountId,
            u8,
        >(caller),
{
}

/// Where some of the given entries cannot be added, all of them cannot.
pub proof fn lemma_with_entries_prefix(
    state: AZSmartContractHubView,
    entries: Seq<SmartContractView>,
    k: int,
)
    requires
        0 <= k <= entries.len(),
        state.with_entries(entries.take(k)) is None,
    ensures
        state.with_entries(entries) is None,
    decreases entries.len() - k,
{
    if k == entries.len() {
        assert(entries.take(k) =~= entries);
    } else {
        assert(entries.take(k + 1).drop_last() =~= entries.take(k));
        lemma_with_entries_prefix(state, entries, k + 1);
    }
}

/// Whether one of the first `k` of `entries` has the id `id`.
pub open spec fn lists_entry(entries: Seq<SmartContractView>, k: int, id: u32) -> bool {
    exists|j: int| 0 <= j < k && (#[trigger] entries[j]).id == id
}

/// The part of `state` that the first `k` of `entries` make up.
pub open spec fn stocked_with(
    state: AZSmartContractHubView,
    entries: Seq<SmartContractView>,
    k: int,
) -> AZSmartContractHubView {
    AZSmartContractHubView {
        smart_contracts: Map::new(
            |id: u32| lists_entry(entries, k, id),
            |id: u32| state.smart_contracts[id],
        ),
        events: Seq::empty(),
        ..state
    }
}

/// Adding the first `k` entries of a consistent state, one by one, gives the
/// part of the state that they make up.
pub proof fn lemma_with_entries_of_state(
    state: AZSmartContractHubView,
    entries: Seq<SmartContractView>,
    k: int,
)
    requires
        state.consistent(),
        state.lists_entries(entries),
        0 <= k <= entries.len(),
    ensures
        AZSmartContractHubView::empty(state.config()).with_entries(entries.take(k)) == Some(
            stocked_with(state, entries, k),
        ),
    decreases k,
{
    if k > 0 {
        lemma_with_entries_of_state(state, entries, k - 1);
        assert(entries.take(k).drop_last() =~= entries.take(k - 1));
    }
}

/// What was listed of a consistent state restores it: from its settings and
/// its entries comes the state itself, without the notifications.
pub proof fn lemma_restore_round_trip(
    state: AZSmartContractHubView,
    entries: Seq<SmartContractView>,
)
    requires
        state.consistent(),
        state.lists_entries(entries),
    ensures
        AZSmartContractHubView::empty(state.config()).with_entries(entries) == Some(
            AZSmartContractHubView { events: Seq::empty(), ..state },
        ),
{
    let n = entries.len() as int;
    lemma_with_entries_of_state(state, entries, n);
    assert(entries.take(n) =~= entries);
}

} // verus!
