//! What the directory does, as functions on mathematical values.
//!
//! For each operation there is a function that says why it is refused, if it
//! is, and one that gives the state after it where it succeeds. A refused
//! operation leaves the state as it is.

use crate::account::AccountId;
use crate::az_smart_contract_hub::created;
use crate::az_smart_contract_hub::updated;
use crate::az_smart_contract_hub::Config;
use crate::az_smart_contract_hub::EventView;
use crate::az_smart_contract_hub::GroupClaimView;
use crate::az_smart_contract_hub::SmartContract;
use crate::az_smart_contract_hub::SmartContractView;
use crate::errors::AZGroupsErrorView;
use crate::errors::AZSmartContractHubError;
use crate::errors::AZSmartContractHubErrorView;
use crate::role::Role;
use crate::text::trimmed;
use crate::validations::presence_of;
use vstd::prelude::*;

verus! {

/// What `authorise` returns.
pub open spec fn authorised(allowed: AccountId, received: AccountId) -> Result<
    (),
    AZSmartContractHubErrorView,
> {
    if allowed == received {
        Ok(())
    } else {
        Err(AZSmartContractHubErrorView::Unauthorised)
    }
}

/// What `address_by_azero_id` returns: the address that the router gave, or
/// that the domain was not found, whatever the router's failure was.
pub open spec fn resolved_address(answer: Result<AccountId, u8>) -> Result<
    AccountId,
    AZSmartContractHubErrorView,
> {
    match answer {
        Ok(address) => Ok(address),
        Err(_) => Err(AZSmartContractHubErrorView::NotFound("Domain"@)),
    }
}

/// What `validate_ownership_of_azero_id` returns: nothing where the router
/// gave the caller's address, else the first failure.
pub open spec fn owned_by(caller: AccountId, answer: Result<AccountId, u8>) -> Result<
    (),
    AZSmartContractHubErrorView,
> {
    match resolved_address(answer) {
        Ok(address) => if address == caller {
            Ok(())
        } else {
            Err(
                AZSmartContractHubErrorView::UnprocessableEntity(
                    "Domain does not belong to caller"@,
                ),
            )
        },
        Err(e) => Err(e),
    }
}

/// What `validate_membership` returns: the role that the registry gave, or
/// the registry's failure, kept as it came.
pub open spec fn membership_of(answer: Result<Role, AZGroupsErrorView>) -> Result<
    Role,
    AZSmartContractHubErrorView,
> {
    match answer {
        Ok(role) => Ok(role),
        Err(e) => Err(AZSmartContractHubErrorView::AZGroupsError(e)),
    }
}

/// What is refused of an optional group claim: the registry's failure.
pub open spec fn claim_refused(group: Option<GroupClaimView>) -> Option<
    AZSmartContractHubErrorView,
> {
    match group {
        Some(claim) => match membership_of(claim.membership) {
            Ok(_) => None,
            Err(e) => Some(e),
        },
        None => None,
    }
}

/// Whether a result of the directory is the result `expected` of its model.
pub open spec fn agrees<T: View>(r: Result<T, AZSmartContractHubError>, expected: Result<
    T::V,
    AZSmartContractHubErrorView,
>) -> bool {
    match r {
        Ok(v) => expected == Ok::<T::V, AZSmartContractHubErrorView>(v@),
        Err(e) => expected == Err::<T::V, AZSmartContractHubErrorView>(e@),
    }
}

/// Whether a result that holds a plain value is the result `expected` of
/// the model.
pub open spec fn agrees_plain<T>(r: Result<T, AZSmartContractHubError>, expected: Result<
    T,
    AZSmartContractHubErrorView,
>) -> bool {
    match r {
        Ok(v) => expected == Ok::<T, AZSmartContractHubErrorView>(v),
        Err(e) => expected == Err::<T, AZSmartContractHubErrorView>(e@),
    }
}

/// The views of a sequence of entries.
pub open spec fn entry_views(entries: Seq<SmartContract>) -> Seq<SmartContractView> {
    Seq::new(entries.len(), |i: int| entries[i]@)
}

/// The state of a directory as mathematical values.
#[verifier::ext_equal]
pub struct AZSmartContractHubView {
    /// The account that may set the fee, and that fees are paid to.
    pub admin: AccountId,
    /// Where the group registry stands.
    pub az_groups_address: AccountId,
    /// Where the domain router stands.
    pub azero_id_router_address: AccountId,
    /// What a new entry costs.
    pub fee: u128,
    /// The entries by id.
    pub smart_contracts: Map<u32, SmartContractView>,
    /// How many ids were issued: the id of the next entry.
    pub smart_contracts_count: u32,
    /// The notifications that were issued and not yet taken, oldest first.
    pub events: Seq<EventView>,
}

impl AZSmartContractHubView {
    /// Whether every entry stands under its own id, below the counter.
    pub open spec fn consistent(self) -> bool {
        forall|id: u32| #[trigger]
            self.smart_contracts.contains_key(id) ==> self.smart_contracts[id].id == id && id
                < self.smart_contracts_count
    }

    /// Whether `entries` are the entries of the state, each once.
    pub open spec fn lists_entries(self, entries: Seq<SmartContractView>) -> bool {
        &&& forall|i: int|
            0 <= i < entries.len() ==> self.smart_contracts.contains_key(
                (#[trigger] entries[i]).id,
            ) && self.smart_contracts[entries[i].id] == entries[i]
        &&& forall|id: u32| #[trigger]
            self.smart_contracts.contains_key(id) ==> exists|i: int|
                0 <= i < entries.len() && (#[trigger] entries[i]).id == id
        &&& forall|i: int, j: int|
            0 <= i < j < entries.len() ==> (#[trigger] entries[i]).id != (
            #[trigger] entries[j]).id
    }

    /// The state with one more entry, as it was stored before: `None` where
    /// its id is not below the counter, or taken.
    pub open spec fn with_entry(self, entry: SmartContractView) -> Option<AZSmartContractHubView> {
        if entry.id < self.smart_contracts_count && !self.smart_contracts.contains_key(entry.id) {
            Some(
                AZSmartContractHubView {
                    smart_contracts: self.smart_contracts.insert(entry.id, entry),
                    ..self
                },
            )
        } else {
            None
        }
    }

    /// The state with the given entries added one by one.
    pub open spec fn with_entries(self, entries: Seq<SmartContractView>) -> Option<
        AZSmartContractHubView,
    >
        decreases entries.len(),
    {
        if entries.len() == 0 {
            Some(self)
        } else {
            match self.with_entries(entries.drop_last()) {
                Some(state) => state.with_entry(entries.last()),
                None => None,
            }
        }
    }

    /// The state of the given settings without entries or notifications.
    pub open spec fn empty(config: Config) -> AZSmartContractHubView {
        AZSmartContractHubView {
            admin: config.admin,
            az_groups_address: config.az_groups_address,
            azero_id_router_address: config.azero_id_router_address,
            fee: config.fee,
            smart_contracts: Map::empty(),
            smart_contracts_count: config.smart_contracts_count,
            events: Seq::empty(),
        }
    }

    /// The settings of the state, and the number of ids issued.
    pub open spec fn config(self) -> Config {
        Config {
            admin: self.admin,
            az_groups_address: self.az_groups_address,
            azero_id_router_address: self.azero_id_router_address,
            fee: self.fee,
            smart_contracts_count: self.smart_contracts_count,
        }
    }

    /// What `show` returns.
    pub open spec fn show(self, id: u32) -> Result<SmartContractView, AZSmartContractHubErrorView> {
        if self.smart_contracts.contains_key(id) {
            Ok(self.smart_contracts[id])
        } else {
            Err(AZSmartContractHubErrorView::NotFound("SmartContract"@))
        }
    }

    /// Why `create` refuses, if it does: the first of these that holds. The
    /// directory is full; the domain is not the caller's; the registry
    /// refused the caller's membership in the group; the link to the abi is
    /// blank; the value sent is not the fee.
    pub open spec fn create_refused(
        self,
        caller: AccountId,
        transferred_value: u128,
        domain_owner: Result<AccountId, u8>,
        group: Option<GroupClaimView>,
        abi_url: Seq<char>,
    ) -> Option<AZSmartContractHubErrorView> {
        if self.smart_contracts_count == u32::MAX {
            Some(AZSmartContractHubErrorView::UnprocessableEntity("Smart contract limit reached"@))
        } else if owned_by(caller, domain_owner) is Err {
            Some(owned_by(caller, domain_owner)->Err_0)
        } else if claim_refused(group) is Some {
            claim_refused(group)
        } else if presence_of(trimmed(abi_url), "Link to abi"@) is Err {
            Some(presence_of(trimmed(abi_url), "Link to abi"@)->Err_0)
        } else if transferred_value != self.fee {
            Some(AZSmartContractHubErrorView::UnprocessableEntity("Incorrect fee"@))
        } else {
            None
        }
    }

    /// The state after a `create` that stored `entry`.
    pub open spec fn after_create(self, entry: SmartContractView) -> AZSmartContractHubView {
        AZSmartContractHubView {
            smart_contracts: self.smart_contracts.insert(entry.id, entry),
            smart_contracts_count: (self.smart_contracts_count + 1) as u32,
            events: self.events.push(EventView::Create(created(entry))),
            ..self
        }
    }

    /// Why `update` refuses, if it does: the first of these that holds.
    /// There is no such entry; the caller did not create it; the domain is
    /// not the caller's; the registry refused the caller's membership in the
    /// group.
    pub open spec fn update_refused(
        self,
        caller: AccountId,
        id: u32,
        domain_owner: Result<AccountId, u8>,
        group: Option<GroupClaimView>,
    ) -> Option<AZSmartContractHubErrorView> {
        if !self.smart_contracts.contains_key(id) {
            Some(AZSmartContractHubErrorView::NotFound("SmartContract"@))
        } else if self.smart_contracts[id].caller != caller {
            Some(AZSmartContractHubErrorView::Unauthorised)
        } else if owned_by(caller, domain_owner) is Err {
            Some(owned_by(caller, domain_owner)->Err_0)
        } else {
            claim_refused(group)
        }
    }

    /// The state after an `update` that left `entry`.
    pub open spec fn after_update(self, entry: SmartContractView) -> AZSmartContractHubView {
        AZSmartContractHubView {
            smart_contracts: self.smart_contracts.insert(entry.id, entry),
            events: self.events.push(EventView::Update(updated(entry))),
            ..self
        }
    }
}

} // verus!
