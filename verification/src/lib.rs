//! A registry of groups and memberships, and a directory of smart contracts
//! that consults it.
//!
//! The registry (`az_groups`) holds groups, an index of their names, and the
//! role that each account holds in each group. Its operations take the
//! calling account as an argument and decide by the order of roles (`role`)
//! who may join, leave, remove others and hand out roles. The directory
//! (`az_smart_contract_hub`) stores entries for accounts that own a domain
//! and, where an entry is scoped to a group, are members of it; it is told
//! what the domain router and the registry answered.
//!
//! Every operation has a contract over a mathematical model of the state.
//! Nothing here reads or writes anything but its arguments: what an
//! operation has to tell is kept with the state until it is taken.

pub mod account;
pub mod az_groups;
pub mod az_smart_contract_hub;
pub mod errors;
pub mod role;
pub mod table;
pub mod text;
pub mod validations;
