//! The directory of smart contracts: entries that accounts submit under a
//! domain name of theirs, optionally scoped to a group of the registry.
//!
//! The directory asks two other contracts: the domain router, for the owner
//! of a domain, and the group registry, for the caller's membership. It does
//! not make those calls itself. Each operation takes their answers as
//! arguments and decides on them.
//!
//! `AZSmartContractHub` is the directory. `model` says what its operations
//! do, as functions on mathematical values, and `laws` holds what is proved
//! of them.

pub mod laws;
pub mod model;

use crate::account::AccountId;
use crate::az_groups::AZGroups;
use crate::az_smart_contract_hub::laws::lemma_with_entries_prefix;
use crate::az_smart_contract_hub::model::agrees;
use crate::az_smart_contract_hub::model::agrees_plain;
use crate::az_smart_contract_hub::model::authorised;
use crate::az_smart_contract_hub::model::entry_views;
use crate::az_smart_contract_hub::model::owned_by;
use crate::az_smart_contract_hub::model::resolved_address;
use crate::az_smart_contract_hub::model::AZSmartContractHubView;
use crate::errors::AZGroupsError;
use crate::errors::AZGroupsErrorView;
use crate::errors::AZSmartContractHubError;
use crate::role::Role;
use crate::table::key_at;
use crate::table::lemma_map_of_entry;
use crate::table::Table;
use crate::text::trim;
use crate::text::trimmed;
use crate::validations::validate_presence_of;
use ink::env::Error as InkEnvError;
use ink::LangError;
use vstd::prelude::*;

verus! {

/// An optional text as an optional sequence of characters.
pub open spec fn text_view(text: Option<String>) -> Option<Seq<char>> {
    match text {
        Some(s) => Some(s@),
        None => None,
    }
}

/// An entry of the directory.
#[derive(Debug, PartialEq, Eq)]
pub struct SmartContract {
    pub id: u32,
    pub smart_contract_address: AccountId,
    pub chain: u8,
    pub caller: AccountId,
    pub enabled: bool,
    pub azero_id: String,
    pub abi_url: String,
    pub contract_url: Option<String>,
    pub wasm_url: Option<String>,
    pub audit_url: Option<String>,
    pub group_id: Option<u32>,
    pub project_name: Option<String>,
    pub project_website: Option<String>,
    pub github: Option<String>,
}

/// A `SmartContract` with its texts as sequences of characters.
pub struct SmartContractView {
    pub id: u32,
    pub smart_contract_address: AccountId,
    pub chain: u8,
    pub caller: AccountId,
    pub enabled: bool,
    pub azero_id: Seq<char>,
    pub abi_url: Seq<char>,
    pub contract_url: Option<Seq<char>>,
    pub wasm_url: Option<Seq<char>>,
    pub audit_url: Option<Seq<char>>,
    pub group_id: Option<u32>,
    pub project_name: Option<Seq<char>>,
    pub project_website: Option<Seq<char>>,
    pub github: Option<Seq<char>>,
}

impl View for SmartContract {
    type V = SmartContractView;

    open spec fn view(&self) -> SmartContractView {
        SmartContractView {
            id: self.id,
            smart_contract_address: self.smart_contract_address,
            chain: self.chain,
            caller: self.caller,
            enabled: self.enabled,
            azero_id: self.azero_id@,
            abi_url: self.abi_url@,
            contract_url: text_view(self.contract_url),
            wasm_url: text_view(self.wasm_url),
            audit_url: text_view(self.audit_url),
            group_id: self.group_id,
            project_name: text_view(self.project_name),
            project_website: text_view(self.project_website),
            github: text_view(self.github),
        }
    }
}

impl Clone for SmartContract {
    fn clone(&self) -> (copy: SmartContract)
        ensures
            copy@ == self@,
    {
        SmartContract {
            id: self.id,
            smart_contract_address: self.smart_contract_address,
            chain: self.chain,
            caller: self.caller,
            enabled: self.enabled,
            azero_id: self.azero_id.clone(),
            abi_url: self.abi_url.clone(),
            contract_url: self.contract_url.clone(),
            wasm_url: self.wasm_url.clone(),
            audit_url: self.audit_url.clone(),
            group_id: self.group_id,
            project_name: self.project_name.clone(),
            project_website: self.project_website.clone(),
            github: self.github.clone(),
        }
    }
}

/// The settings of the directory and the number of its entries.
#[derive(Clone, Copy, Debug)]
pub struct Config {
    pub admin: AccountId,
    pub az_groups_address: AccountId,
    pub azero_id_router_address: AccountId,
    pub fee: u128,
    pub smart_contracts_count: u32,
}

/// Notification: an entry was created.
#[derive(Debug, PartialEq, Eq)]
pub struct Create {
    pub id: u32,
    pub smart_contract_address: AccountId,
    pub chain: u8,
    pub caller: AccountId,
    pub azero_id: String,
    pub abi_url: String,
    pub contract_url: Option<String>,
    pub wasm_url: Option<String>,
    pub audit_url: Option<String>,
    pub group_id: Option<u32>,
    pub project_name: Option<String>,
    pub project_website: Option<String>,
    pub github: Option<String>,
}

/// Notification: an entry was changed.
#[derive(Debug, PartialEq, Eq)]
pub struct Update {
    pub id: u32,
    pub enabled: bool,
    pub azero_id: String,
    pub audit_url: Option<String>,
    pub group_id: Option<u32>,
    pub project_name: Option<String>,
    pub project_website: Option<String>,
    pub github: Option<String>,
}

/// A notification of the directory.
#[derive(Debug, PartialEq, Eq)]
pub enum Event {
    Create(Create),
    Update(Update),
}

/// A `Create` with its texts as sequences of characters.
pub struct CreateView {
    pub id: u32,
    pub smart_contract_address: AccountId,
    pub chain: u8,
    pub caller: AccountId,
    pub azero_id: Seq<char>,
    pub abi_url: Seq<char>,
    pub contract_url: Option<Seq<char>>,
    pub wasm_url: Option<Seq<char>>,
    pub audit_url: Option<Seq<char>>,
    pub group_id: Option<u32>,
    pub project_name: Option<Seq<char>>,
    pub project_website: Option<Seq<char>>,
    pub github: Option<Seq<char>>,
}

impl View for Create {
    type V = CreateView;

    open spec fn view(&self) -> CreateView {
        CreateView {
            id: self.id,
            smart_contract_address: self.smart_contract_address,
            chain: self.chain,
            caller: self.caller,
            azero_id: self.azero_id@,
            abi_url: self.abi_url@,
            contract_url: text_view(self.contract_url),
            wasm_url: text_view(self.wasm_url),
            audit_url: text_view(self.audit_url),
            group_id: self.group_id,
            project_name: text_view(self.project_name),
            project_website: text_view(self.project_website),
            github: text_view(self.github),
        }
    }
}

/// An `Update` with its texts as sequences of characters.
pub struct UpdateView {
    pub id: u32,
    pub enabled: bool,
    pub azero_id: Seq<char>,
    pub audit_url: Option<Seq<char>>,
    pub group_id: Option<u32>,
    pub project_name: Option<Seq<char>>,
    pub project_website: Option<Seq<char>>,
    pub github: Option<Seq<char>>,
}

impl View for Update {
    type V = UpdateView;

    open spec fn view(&self) -> UpdateView {
        UpdateView {
            id: self.id,
            enabled: self.enabled,
            azero_id: self.azero_id@,
            audit_url: text_view(self.audit_url),
            group_id: self.group_id,
            project_name: text_view(self.project_name),
            project_website: text_view(self.project_website),
            github: text_view(self.github),
        }
    }
}

/// An `Event` with its texts as sequences of characters.
pub enum EventView {
    Create(CreateView),
    Update(UpdateView),
}

impl View for Event {
    type V = EventView;

    open spec fn view(&self) -> EventView {
        match *self {
            Event::Create(e) => EventView::Create(e@),
            Event::Update(e) => EventView::Update(e@),
        }
    }
}

/// The notification of the creation of `entry`: all its fields but the
/// enabled flag.
pub open spec fn created(entry: SmartContractView) -> CreateView {
    CreateView {
        id: entry.id,
        smart_contract_address: entry.smart_contract_address,
        chain: entry.chain,
        caller: entry.caller,
        azero_id: entry.azero_id,
        abi_url: entry.abi_url,
        contract_url: entry.contract_url,
        wasm_url: entry.wasm_url,
        audit_url: entry.audit_url,
        group_id: entry.group_id,
        project_name: entry.project_name,
        project_website: entry.project_website,
        github: entry.github,
    }
}

/// The notification of a change that left `entry`: its id and the fields
/// that an update sets.
pub open spec fn updated(entry: SmartContractView) -> UpdateView {
    UpdateView {
        id: entry.id,
        enabled: entry.enabled,
        azero_id: entry.azero_id,
        audit_url: entry.audit_url,
        group_id: entry.group_id,
        project_name: entry.project_name,
        project_website: entry.project_website,
        github: entry.github,
    }
}

impl Create {
    /// The notification of the creation of `entry`.
    pub fn of(entry: &SmartContract) -> (event: Create)
        ensures
            event@ == created(entry@),
    {
        Create {
            id: entry.id,
            smart_contract_address: entry.smart_contract_address,
            chain: entry.chain,
            caller: entry.caller,
            azero_id: entry.azero_id.clone(),
            abi_url: entry.abi_url.clone(),
            contract_url: entry.contract_url.clone(),
            wasm_url: entry.wasm_url.clone(),
            audit_url: entry.audit_url.clone(),
            group_id: entry.group_id,
            project_name: entry.project_name.clone(),
            project_website: entry.project_website.clone(),
            github: entry.github.clone(),
        }
    }
}

impl Update {
    /// The notification of a change that left `entry`.
    pub fn of(entry: &SmartContract) -> (event: Update)
        ensures
            event@ == updated(entry@),
    {
        Update {
            id: entry.id,
            enabled: entry.enabled,
            azero_id: entry.azero_id.clone(),
            audit_url: entry.audit_url.clone(),
            group_id: entry.group_id,
            project_name: entry.project_name.clone(),
            project_website: entry.project_website.clone(),
            github: entry.github.clone(),
        }
    }
}

/// The group that an entry is scoped to, with the answer of the group
/// registry to `validate_membership` for that group and the caller.
pub struct GroupClaim {
    pub group_id: u32,
    pub membership: Result<Role, AZGroupsError>,
}

/// A `GroupClaim` with the registry's failure as a view.
pub struct GroupClaimView {
    pub group_id: u32,
    pub membership: Result<Role, AZGroupsErrorView>,
}

impl View for GroupClaim {
    type V = GroupClaimView;

    open spec fn view(&self) -> GroupClaimView {
        GroupClaimView {
            group_id: self.group_id,
            membership: match self.membership {
                Ok(role) => Ok(role),
                Err(e) => Err(e@),
            },
        }
    }
}

impl GroupClaim {
    /// The claim of `user` to the group `group_id`, with the answer of the
    /// given registry.
    pub fn of(registry: &AZGroups, group_id: u32, user: AccountId) -> (claim: GroupClaim)
        requires
            registry.wf(),
        ensures
            claim@ == (GroupClaimView {
                group_id: group_id,
                membership: registry@.validate_membership(group_id, user),
            }),
    {
        GroupClaim { group_id, membership: registry.validate_membership(group_id, user) }
    }
}

/// An optional `GroupClaim` as an optional view.
pub open spec fn claim_view(group: Option<GroupClaim>) -> Option<GroupClaimView> {
    match group {
        Some(claim) => Some(claim@),
        None => None,
    }
}

/// The id of the group of an optional claim.
pub open spec fn claimed_group(group: Option<GroupClaimView>) -> Option<u32> {
    match group {
        Some(claim) => Some(claim.group_id),
        None => None,
    }
}

/// Allows `received` where it is the account `allowed`.
pub fn authorise(allowed: AccountId, received: AccountId) -> (r: Result<
    (),
    AZSmartContractHubError,
>)
    ensures
        agrees_plain(r, authorised(allowed, received)),
{
    if allowed != received {
        return Err(AZSmartContractHubError::Unauthorised);
    }
    Ok(())
}

/// What a call to another contract delivered: the answer of the callee, or
/// the failure of the call, wrapped. It tells a call that the environment
/// did not carry out from one that the callee could not read, and both from
/// any answer of the callee.
pub fn delivered<T>(outcome: Result<Result<T, LangError>, InkEnvError>) -> (r: Result<
    T,
    AZSmartContractHubError,
>)
    ensures
        (match outcome {
            Ok(Ok(answer)) => r == Ok::<T, AZSmartContractHubError>(answer),
            Ok(Err(e)) => r == Err::<T, AZSmartContractHubError>(
                AZSmartContractHubError::ContractCall(e),
            ),
            Err(_) => r matches Err(e) && e is InkEnvError,
        }),
{
    match outcome {
        Ok(Ok(answer)) => Ok(answer),
        Ok(Err(e)) => Err(AZSmartContractHubError::from(e)),
        Err(e) => Err(AZSmartContractHubError::from(e)),
    }
}

/// Reads the answer of the domain router to `get_address`.
pub fn address_by_azero_id(answer: Result<AccountId, u8>) -> (r: Result<
    AccountId,
    AZSmartContractHubError,
>)
    ensures
        agrees_plain(r, resolved_address(answer)),
{
    match answer {
        Ok(address) => Ok(address),
        Err(_) => Err(AZSmartContractHubError::not_found("Domain")),
    }
}

/// Checks that the domain belongs to `caller`: that the router, asked for
/// the domain, gave the caller's address.
pub fn validate_ownership_of_azero_id(caller: AccountId, answer: Result<AccountId, u8>) -> (r:
    Result<(), AZSmartContractHubError>)
    ensures
        agrees_plain(r, owned_by(caller, answer)),
{
    match address_by_azero_id(answer) {
        Ok(address) => {
            if caller != address {
                return Err(
                    AZSmartContractHubError::unprocessable("Domain does not belong to caller"),
                );
            }
            Ok(())
        },
        Err(e) => Err(e),
    }
}

/// Reads the answer of the group registry to `validate_membership`. A
/// failure of the registry is wrapped, not replaced.
pub fn validate_membership(answer: Result<Role, AZGroupsError>) -> (r: Result<
    Role,
    AZSmartContractHubError,
>)
    ensures
        (match (r, answer) {
            (Ok(role), Ok(given)) => role == given,
            (Err(e), Err(given)) => e == AZSmartContractHubError::AZGroupsError(given),
            _ => false,
        }),
{
    match answer {
        Ok(role) => Ok(role),
        Err(e) => Err(AZSmartContractHubError::from(e)),
    }
}

/// A link without surrounding whitespace.
pub fn format_url(url: &str) -> (formatted: String)
    ensures
        formatted@ == trimmed(url@),
{
    trim(url)
}

/// The directory of smart contracts.
pub struct AZSmartContractHub {
    admin: AccountId,
    az_groups_address: AccountId,
    azero_id_router_address: AccountId,
    fee: u128,
    smart_contracts: Table<u32, SmartContract>,
    smart_contracts_count: u32,
    events: Vec<Event>,
}

impl AZSmartContractHub {
    /// The state of the directory.
    pub closed spec fn view(&self) -> AZSmartContractHubView {
        AZSmartContractHubView {
            admin: self.admin,
            az_groups_address: self.az_groups_address,
            azero_id_router_address: self.azero_id_router_address,
            fee: self.fee,
            smart_contracts: Map::new(
                |id: u32| self.smart_contracts@.contains_key(id),
                |id: u32| self.smart_contracts@[id]@,
            ),
            smart_contracts_count: self.smart_contracts_count,
            events: Seq::new(self.events@.len(), |i: int| self.events@[i]@),
        }
    }

    /// Whether the directory is well formed: its table is, and its state is
    /// consistent.
    pub closed spec fn wf(&self) -> bool {
        &&& self.smart_contracts.wf()
        &&& self@.consistent()
    }

    /// A well-formed directory is in a consistent state.
    pub proof fn lemma_wf_consistent(&self)
        requires
            self.wf(),
        ensures
            self@.consistent(),
    {
    }

    /// A directory without entries, set up by `caller`, who becomes its
    /// admin. The fee is 1000.
    pub fn new(
        caller: AccountId,
        azero_id_router_address: AccountId,
        az_groups_address: AccountId,
    ) -> (hub: AZSmartContractHub)
        ensures
            hub.wf(),
            hub@ == (AZSmartContractHubView {
                admin: caller,
                az_groups_address: az_groups_address,
                azero_id_router_address: azero_id_router_address,
                fee: 1000,
                smart_contracts: Map::empty(),
                smart_contracts_count: 0,
                events: Seq::empty(),
            }),
    {
        let hub = AZSmartContractHub {
            admin: caller,
            az_groups_address,
            azero_id_router_address,
            fee: 1_000,
            smart_contracts: Table::new(),
            smart_contracts_count: 0,
            events: Vec::new(),
        };
        hub
    }

    /// The settings of the directory and the number of its entries.
    pub fn config(&self) -> (config: Config)
        ensures
            config == self@.config(),
    {
        Config {
            admin: self.admin,
            az_groups_address: self.az_groups_address,
            azero_id_router_address: self.azero_id_router_address,
            fee: self.fee,
            smart_contracts_count: self.smart_contracts_count,
        }
    }

    /// The entries, each once.
    pub fn smart_contracts(&self) -> (entries: Vec<SmartContract>)
        requires
            self.wf(),
        ensures
            self@.lists_entries(entry_views(entries@)),
    {
        let mut entries: Vec<SmartContract> = Vec::new();
        let n: usize = self.smart_contracts.len();
        let mut i: usize = 0;
        while i < n
            invariant
                self.wf(),
                n == self.smart_contracts.entries().len(),
                i <= n,
                entries@.len() == i,
                forall|j: int|
                    0 <= j < i ==> (#[trigger] entries@[j])@ == self.smart_contracts.entries()[j].1@,
            decreases n - i,
        {
            entries.push(self.smart_contracts.entry(i).1.clone());
            i += 1;
        }
        proof {
            let stored = self.smart_contracts.entries();
            let listed = entry_views(entries@);
            assert forall|j: int| 0 <= j < stored.len() implies self@.smart_contracts.contains_key(
                (#[trigger] stored[j]).0,
            ) && self@.smart_contracts[stored[j].0] == stored[j].1@ && stored[j].1.id
                == stored[j].0 by {
                lemma_map_of_entry(stored, j);
            }
            assert forall|id: u32| #[trigger]
                self@.smart_contracts.contains_key(id) implies exists|i: int|
                0 <= i < listed.len() && (#[trigger] listed[i]).id == id by {
                let j = choose|j: int| key_at(stored, id, j);
                assert(listed[j].id == id);
            }
        }
        entries
    }

    /// The directory of the given settings that holds the given entries, if
    /// they can stand together: their ids are below the counter and differ.
    pub fn restore(config: Config, entries: Vec<SmartContract>) -> (r: Option<AZSmartContractHub>)
        ensures
            (match r {
                Some(hub) => hub.wf() && AZSmartContractHubView::empty(config).with_entries(
                    entry_views(entries@),
                ) == Some(hub@),
                None => AZSmartContractHubView::empty(config).with_entries(entry_views(entries@))
                    is None,
            }),
    {
        let mut hub = AZSmartContractHub {
            admin: config.admin,
            az_groups_address: config.az_groups_address,
            azero_id_router_address: config.azero_id_router_address,
            fee: config.fee,
            smart_contracts: Table::new(),
            smart_contracts_count: config.smart_contracts_count,
            events: Vec::new(),
        };
        let ghost given = entry_views(entries@);
        let ghost start = AZSmartContractHubView::empty(config);
        let mut i: usize = 0;
        while i < entries.len()
            invariant
                i <= entries@.len(),
                given == entry_views(entries@),
                start == AZSmartContractHubView::empty(config),
                hub.wf(),
                hub@.smart_contracts_count == config.smart_contracts_count,
                start.with_entries(given.take(i as int)) == Some(hub@),
            decreases entries@.len() - i,
        {
            let entry: &SmartContract = &entries[i];
            let ghost next = hub@.with_entry(entry@);
            proof {
                assert(given.take(i + 1).drop_last() =~= given.take(i as int));
            }
            if entry.id >= config.smart_contracts_count || hub.smart_contracts.contains_key(
                &entry.id,
            ) {
                proof {
                    lemma_with_entries_prefix(start, given, i + 1);
                }
                return None;
            }
            hub.smart_contracts.insert(entry.id, entry.clone());
            assert(hub@.smart_contracts =~= next.unwrap().smart_contracts);
            i += 1;
        }
        assert(given.take(entries@.len() as int) =~= given);
        Some(hub)
    }

    /// The entry with the given id.
    pub fn show(&self, id: u32) -> (r: Result<SmartContract, AZSmartContractHubError>)
        requires
            self.wf(),
        ensures
            agrees(r, self@.show(id)),
    {
        match self.smart_contracts.get(&id) {
            Some(entry) => Ok(entry.clone()),
            None => Err(AZSmartContractHubError::not_found("SmartContract")),
        }
    }

    /// Hands out the notifications issued since they were last taken, oldest
    /// first, and forgets them.
    pub fn take_events(&mut self) -> (events: Vec<Event>)
        requires
            old(self).wf(),
        ensures
            final(self).wf(),
            final(self)@ == (AZSmartContractHubView { events: Seq::empty(), ..old(self)@ }),
            events@.len() == old(self)@.events.len(),
            forall|i: int| 0 <= i < events@.len() ==> events@[i]@ == old(self)@.events[i],
    {
        let mut events: Vec<Event> = Vec::new();
        core::mem::swap(&mut self.events, &mut events);
        events
    }

    /// Appends a notification to those not yet taken.
    fn emit(&mut self, event: Event)
        ensures
            final(self).admin == old(self).admin,
            final(self).az_groups_address == old(self).az_groups_address,
            final(self).azero_id_router_address == old(self).azero_id_router_address,
            final(self).fee == old(self).fee,
            final(self).smart_contracts == old(self).smart_contracts,
            final(self).smart_contracts_count == old(self).smart_contracts_count,
            final(self)@.events == old(self)@.events.push(event@),
    {
        self.events.push(event);
    }

    /// Stores a new entry for `caller`, enabled, under the next id.
    ///
    /// `transferred_value` is the value sent with the request, and must be
    /// the fee. `domain_owner` is the answer of the domain router to
    /// `get_address` for `azero_id`. `group` names the group that the entry
    /// is scoped to, if any, with the answer of the group registry.
    pub fn create(
        &mut self,
        caller: AccountId,
        transferred_value: u128,
        domain_owner: Result<AccountId, u8>,
        smart_contract_address: AccountId,
        chain: u8,
        azero_id: String,
        abi_url: String,
        contract_url: Option<String>,
        wasm_url: Option<String>,
        audit_url: Option<String>,
        group: Option<GroupClaim>,
        project_name: Option<String>,
        project_website: Option<String>,
        github: Option<String>,
    ) -> (r: Result<SmartContract, AZSmartContractHubError>)
        requires
            old(self).wf(),
        ensures
            final(self).wf(),
            (match r {
                Ok(entry) => {
                    &&& old(self)@.create_refused(
                        caller,
                        transferred_value,
                        domain_owner,
                        claim_view(group),
                        abi_url@,
                    ) is None
                    &&& entry@ == (SmartContractView {
                        id: old(self)@.smart_contracts_count,
                        smart_contract_address: smart_contract_address,
                        chain: chain,
                        caller: caller,
                        enabled: true,
                        azero_id: azero_id@,
                        abi_url: trimmed(abi_url@),
                        contract_url: text_view(contract_url),
                        wasm_url: text_view(wasm_url),
                        audit_url: text_view(audit_url),
                        group_id: claimed_group(claim_view(group)),
                        project_name: text_view(project_name),
                        project_website: text_view(project_website),
                        github: text_view(github),
                    })
                    &&& final(self)@ == old(self)@.after_create(entry@)
                },
                Err(e) => {
                    &&& old(self)@.create_refused(
                        caller,
                        transferred_value,
                        domain_owner,
                        claim_view(group),
                        abi_url@,
                    ) == Some(e@)
                    &&& final(self)@ == old(self)@
                },
            }),
    {
        if self.smart_contracts_count == u32::MAX {
            return Err(AZSmartContractHubError::unprocessable("Smart contract limit reached"));
        }
        match validate_ownership_of_azero_id(caller, domain_owner) {
            Ok(_) => {},
            Err(e) => { return Err(e); },
        }
        let group_id: Option<u32> = match group {
            Some(claim) => {
                match validate_membership(claim.membership) {
                    Ok(_) => {},
                    Err(e) => { return Err(e); },
                }
                Some(claim.group_id)
            },
            None => None,
        };
        let abi_url_formatted: String = format_url(abi_url.as_str());
        match validate_presence_of(abi_url_formatted.as_str(), "Link to abi") {
            Ok(_) => {},
            Err(e) => { return Err(e); },
        }
        if transferred_value != self.fee {
            return Err(AZSmartContractHubError::unprocessable("Incorrect fee"));
        }
        let id: u32 = self.smart_contracts_count;
        let smart_contract = SmartContract {
            id,
            smart_contract_address,
            chain,
            caller,
            enabled: true,
            azero_id,
            abi_url: abi_url_formatted,
            contract_url,
            wasm_url,
            audit_url,
            group_id,
            project_name,
            project_website,
            github,
        };
        self.smart_contracts.insert(id, smart_contract.clone());
        self.smart_contracts_count = id + 1;
        self.emit(Event::Create(Create::of(&smart_contract)));
        assert(self@.smart_contracts =~= old(self)@.after_create(smart_contract@).smart_contracts);
        Ok(smart_contract)
    }

    /// Sets the fields of the entry `id` that its creator may change.
    ///
    /// `domain_owner` is the answer of the domain router to `get_address`
    /// for `azero_id`. `group` names the group that the entry is scoped to
    /// from now on, if any, with the answer of the group registry.
    pub fn update(
        &mut self,
        caller: AccountId,
        domain_owner: Result<AccountId, u8>,
        id: u32,
        enabled: bool,
        azero_id: String,
        group: Option<GroupClaim>,
        audit_url: Option<String>,
        project_name: Option<String>,
        project_website: Option<String>,
        github: Option<String>,
    ) -> (r: Result<SmartContract, AZSmartContractHubError>)
        requires
            old(self).wf(),
        ensures
            final(self).wf(),
            (match r {
                Ok(entry) => {
                    &&& old(self)@.update_refused(caller, id, domain_owner, claim_view(group))
                        is None
                    &&& entry@ == (SmartContractView {
                        enabled: enabled,
                        azero_id: azero_id@,
                        group_id: claimed_group(claim_view(group)),
                        audit_url: text_view(audit_url),
                        project_name: text_view(project_name),
                        project_website: text_view(project_website),
                        github: text_view(github),
                        ..old(self)@.smart_contracts[id]
                    })
                    &&& final(self)@ == old(self)@.after_update(entry@)
                },
                Err(e) => {
                    &&& old(self)@.update_refused(caller, id, domain_owner, claim_view(group))
                        == Some(e@)
                    &&& final(self)@ == old(self)@
                },
            }),
    {
        let stored: SmartContract = match self.smart_contracts.get(&id) {
            Some(entry) => entry.clone(),
            None => { return Err(AZSmartContractHubError::not_found("SmartContract")); },
        };
        match authorise(stored.caller, caller) {
            Ok(_) => {},
            Err(e) => { return Err(e); },
        }
        match validate_ownership_of_azero_id(caller, domain_owner) {
            Ok(_) => {},
            Err(e) => { return Err(e); },
        }
        let group_id: Option<u32> = match group {
            Some(claim) => {
                match validate_membership(claim.membership) {
                    Ok(_) => {},
                    Err(e) => { return Err(e); },
                }
                Some(claim.group_id)
            },
            None => None,
        };
        let smart_contract = SmartContract {
            id: stored.id,
            smart_contract_address: stored.smart_contract_address,
            chain: stored.chain,
            caller: stored.caller,
            enabled,
            azero_id,
            abi_url: stored.abi_url,
            contract_url: stored.contract_url,
            wasm_url: stored.wasm_url,
            audit_url,
            group_id,
            project_name,
            project_website,
            github,
        };
        self.smart_contracts.insert(id, smart_contract.clone());
        self.emit(Event::Update(Update::of(&smart_contract)));
        assert(self@.smart_contracts =~= old(self)@.after_update(smart_contract@).smart_contracts);
        Ok(smart_contract)
    }

    /// Sets the fee. Only the admin may.
    pub fn update_fee(&mut self, caller: AccountId, fee: u128) -> (r: Result<
        u128,
        AZSmartContractHubError,
    >)
        requires
            old(self).wf(),
        ensures
            final(self).wf(),
            agrees_plain(
                r,
                match authorised(old(self)@.admin, caller) {
                    Ok(_) => Ok(fee),
                    Err(e) => Err(e),
                },
            ),
            r is Ok ==> final(self)@ == (AZSmartContractHubView { fee: fee, ..old(self)@ }),
            r is Err ==> final(self)@ == old(self)@,
    {
        match authorise(self.admin, caller) {
            Ok(_) => {},
            Err(e) => { return Err(e); },
        }
        self.fee = fee;
        Ok(self.fee)
    }
}

} // verus!
