use az_smart_contract_hub::account::AccountId;
use az_smart_contract_hub::az_groups::AZGroups;
use az_smart_contract_hub::az_groups::Create;
use az_smart_contract_hub::az_groups::Event;
use az_smart_contract_hub::az_groups::Group;
use az_smart_contract_hub::az_groups::GroupUser;
use az_smart_contract_hub::az_groups::GroupUserCreate;
use az_smart_contract_hub::az_groups::GroupUserDestroy;
use az_smart_contract_hub::az_groups::GroupUserUpdate;
use az_smart_contract_hub::az_groups::Membership;
use az_smart_contract_hub::az_groups::Update;
use az_smart_contract_hub::errors::AZGroupsError;
use az_smart_contract_hub::errors::AZSmartContractHubError;
use az_smart_contract_hub::role::Role;
use az_smart_contract_hub::table::Table;
use az_smart_contract_hub::text::trim;
use std::cmp::Ordering;

const ROLES: [Role; 5] = [
    Role::Banned,
    Role::Applicant,
    Role::Member,
    Role::Admin,
    Role::SuperAdmin,
];

fn alice() -> AccountId {
    AccountId::new([0x01; 32])
}

fn bob() -> AccountId {
    AccountId::new([0x02; 32])
}

fn charlie() -> AccountId {
    AccountId::new([0x03; 32])
}

fn not_found(what: &str) -> AZGroupsError {
    AZGroupsError::NotFound(what.to_string())
}

fn unprocessable(why: &str) -> AZGroupsError {
    AZGroupsError::UnprocessableEntity(why.to_string())
}

/// A registry with the one group "Crew" (id 0), in which each of the given
/// accounts holds the given role.
fn crew(members: &[(AccountId, Role)]) -> AZGroups {
    let group = Group {
        id: 0,
        name: "Crew".to_string(),
        enabled: true,
    };
    let memberships = members
        .iter()
        .map(|(user, role)| Membership {
            group_id: 0,
            user: *user,
            role: *role,
        })
        .collect();
    AZGroups::restore(1, vec![group], memberships).unwrap()
}

// === the order of roles ===
#[test]
fn role_ranks() {
    assert_eq!(Role::Banned.to_int(), 0);
    assert_eq!(Role::Applicant.to_int(), 1);
    assert_eq!(Role::Member.to_int(), 2);
    assert_eq!(Role::Admin.to_int(), 3);
    assert_eq!(Role::SuperAdmin.to_int(), 4);
}

#[test]
fn role_order_is_total_and_transitive() {
    assert!(Role::Banned < Role::Applicant);
    assert!(Role::Applicant < Role::Member);
    assert!(Role::Member < Role::Admin);
    assert!(Role::Admin < Role::SuperAdmin);
    for a in ROLES {
        for b in ROLES {
            let holds = [a < b, a == b, a > b];
            assert_eq!(holds.iter().filter(|h| **h).count(), 1);
            assert_eq!(a < b, a.to_int() < b.to_int());
            assert_eq!(a <= b, a.to_int() <= b.to_int());
            assert_eq!(a >= b, a.to_int() >= b.to_int());
            assert_eq!(
                a.partial_cmp(&b),
                Some(a.to_int().cmp(&b.to_int()))
            );
            for c in ROLES {
                if a < b && b < c {
                    assert!(a < c);
                }
            }
        }
    }
    assert_eq!(Role::Admin.partial_cmp(&Role::Admin), Some(Ordering::Equal));
    assert_eq!(
        Role::Admin.partial_cmp(&Role::Member),
        Some(Ordering::Greater)
    );
}

// === accounts ===
#[test]
fn accounts_compare_by_their_bytes() {
    let mut bytes = [7u8; 32];
    let a = AccountId::new(bytes);
    assert!(a == AccountId::new([7u8; 32]));
    bytes[31] = 8;
    assert!(a != AccountId::new(bytes));
    bytes[31] = 7;
    bytes[0] = 6;
    assert!(a != AccountId::new(bytes));
    assert_eq!(a.bytes, [7u8; 32]);
}

// === names ===
#[test]
fn trim_removes_whitespace_at_both_ends_only() {
    assert_eq!(trim(""), "");
    assert_eq!(trim(" "), "");
    assert_eq!(trim(" \t\r\n"), "");
    assert_eq!(trim("a"), "a");
    assert_eq!(trim("  a"), "a");
    assert_eq!(trim("a  "), "a");
    assert_eq!(trim(" a b "), "a b");
    assert_eq!(trim("\u{a0}\u{2003}né e\u{3000}\n"), "né e");
    assert_eq!(trim("The Next Wave"), "The Next Wave");
    for s in ["", " x ", "\t\tKing  Kong\n", "é", " \u{1680}"] {
        assert_eq!(trim(s), s.trim());
        assert_eq!(trim(&trim(s)), trim(s));
    }
}

// === errors ===
#[test]
fn failures_of_the_environment_are_wrapped() {
    assert_eq!(
        AZGroupsError::from(ink::LangError::CouldNotReadInput),
        AZGroupsError::ContractCall(ink::LangError::CouldNotReadInput)
    );
    assert_eq!(
        AZGroupsError::from(ink::env::Error::ReturnError(
            ink::env::ReturnErrorCode::CalleeTrapped
        )),
        AZGroupsError::InkEnvError("ReturnError(CalleeTrapped)".to_string())
    );
    assert_eq!(
        AZSmartContractHubError::from(ink::LangError::CouldNotReadInput),
        AZSmartContractHubError::ContractCall(ink::LangError::CouldNotReadInput)
    );
    assert_eq!(
        AZSmartContractHubError::from(ink::env::Error::ReturnError(
            ink::env::ReturnErrorCode::KeyNotFound
        )),
        AZSmartContractHubError::InkEnvError("ReturnError(KeyNotFound)".to_string())
    );
    assert_eq!(
        AZSmartContractHubError::from(AZGroupsError::NotAMember),
        AZSmartContractHubError::AZGroupsError(AZGroupsError::NotAMember)
    );
    assert_eq!(
        AZSmartContractHubError::not_found("Domain"),
        AZSmartContractHubError::NotFound("Domain".to_string())
    );
    assert_eq!(
        AZSmartContractHubError::unprocessable("Incorrect fee"),
        AZSmartContractHubError::UnprocessableEntity("Incorrect fee".to_string())
    );
    assert_eq!(AZGroupsError::not_found("Group"), not_found("Group"));
    assert_eq!(AZGroupsError::unprocessable("x"), unprocessable("x"));
}

// === the table ===
#[test]
fn table_holds_one_value_per_key() {
    let mut table: Table<String, u32> = Table::new();
    assert_eq!(table.len(), 0);
    assert!(!table.contains_key(&"a".to_string()));
    assert_eq!(table.get(&"a".to_string()), None);
    table.insert("a".to_string(), 1);
    table.insert("b".to_string(), 2);
    table.insert("a".to_string(), 3);
    assert_eq!(table.len(), 2);
    assert_eq!(table.get(&"a".to_string()), Some(&3));
    assert_eq!(table.get(&"b".to_string()), Some(&2));
    assert_eq!(table.entry(0), &("a".to_string(), 3));
    table.remove(&"a".to_string());
    table.remove(&"zzz".to_string());
    assert_eq!(table.len(), 1);
    assert_eq!(table.get(&"a".to_string()), None);
    assert_eq!(table.get(&"b".to_string()), Some(&2));
    assert!(table.contains_key(&"b".to_string()));
}

// === scenarios ===
#[test]
fn creator_becomes_super_admin_of_group_zero() {
    let mut az_groups = AZGroups::new();
    assert_eq!(az_groups.groups_total(), 0);
    let group = az_groups
        .groups_create(bob(), "The Next Wave".to_string())
        .unwrap();
    assert_eq!(
        group,
        Group {
            id: 0,
            name: "The Next Wave".to_string(),
            enabled: true
        }
    );
    assert_eq!(
        az_groups.group_users_show(0, bob()),
        Ok(GroupUser {
            role: Role::SuperAdmin
        })
    );
    assert_eq!(az_groups.groups_total(), 1);
    assert_eq!(az_groups.groups_show(0), Ok(group));
}

#[test]
fn joining_makes_an_applicant() {
    let mut az_groups = AZGroups::new();
    az_groups
        .groups_create(bob(), "The Next Wave".to_string())
        .unwrap();
    assert_eq!(
        az_groups.group_users_create(alice(), 0),
        Ok(GroupUser {
            role: Role::Applicant
        })
    );
    assert_eq!(
        az_groups.group_users_show(0, alice()),
        Ok(GroupUser {
            role: Role::Applicant
        })
    );
}

#[test]
fn super_admin_promotes_and_admin_cannot_remove_super_admin() {
    let mut az_groups = AZGroups::new();
    az_groups
        .groups_create(bob(), "The Next Wave".to_string())
        .unwrap();
    az_groups.group_users_create(alice(), 0).unwrap();
    assert_eq!(
        az_groups.group_users_update(bob(), 0, alice(), Role::Admin),
        Ok(GroupUser { role: Role::Admin })
    );
    assert_eq!(
        az_groups.group_users_show(0, alice()),
        Ok(GroupUser { role: Role::Admin })
    );
    assert_eq!(
        az_groups.group_users_destroy(alice(), 0, bob()),
        Err(AZGroupsError::Unauthorised)
    );
    assert_eq!(
        az_groups.group_users_destroy(bob(), 0, bob()),
        Err(AZGroupsError::Unauthorised)
    );
    assert_eq!(
        az_groups.group_users_show(0, bob()),
        Ok(GroupUser {
            role: Role::SuperAdmin
        })
    );
}

#[test]
fn blank_names_are_refused() {
    let mut az_groups = AZGroups::new();
    for name in ["", "  ", " \t\n", "\u{a0}"] {
        assert_eq!(
            az_groups.groups_create(bob(), name.to_string()),
            Err(unprocessable("Name can't be blank"))
        );
    }
    assert_eq!(az_groups.groups_total(), 0);
    assert!(az_groups.take_events().is_empty());
}

#[test]
fn names_are_formatted_and_checked() {
    assert_eq!(AZGroups::format_group_name("  The Next Wave\n"), "The Next Wave");
    assert_eq!(AZGroups::format_group_name(" \t "), "");
    assert_eq!(AZGroups::validate_group_name_presence("x"), Ok(()));
    assert_eq!(AZGroups::validate_group_name_presence(" "), Ok(()));
    assert_eq!(
        AZGroups::validate_group_name_presence(""),
        Err(unprocessable("Name can't be blank"))
    );
    let mut az_groups = AZGroups::new();
    az_groups
        .groups_create(bob(), "The Next Wave".to_string())
        .unwrap();
    assert_eq!(
        az_groups.validate_group_name_uniqueness(&"the next wave".to_string()),
        Err(unprocessable("Group has already been taken"))
    );
    // the index holds the lowercase form only
    assert_eq!(
        az_groups.validate_group_name_uniqueness(&"The Next Wave".to_string()),
        Ok(())
    );
    assert_eq!(
        az_groups.validate_group_name_uniqueness(&"another".to_string()),
        Ok(())
    );
}

// === creation ===
#[test]
fn names_with_the_same_key_name_one_group() {
    for (first, second) in [
        ("The Next Wave", "The Next Wave"),
        ("The Next Wave", "  the next wave "),
        ("  ÉCOLE", "école\n"),
        ("a", "A"),
    ] {
        let mut az_groups = AZGroups::new();
        let group = az_groups.groups_create(bob(), first.to_string()).unwrap();
        assert_eq!(group.name, first.trim());
        assert_eq!(
            az_groups.groups_create(alice(), second.to_string()),
            Err(unprocessable("Group has already been taken"))
        );
        assert_eq!(
            az_groups.groups_create(bob(), second.to_string()),
            Err(unprocessable("Group has already been taken"))
        );
        assert_eq!(az_groups.groups_total(), 1);
        assert!(az_groups.group_users_show(1, alice()).is_err());
    }
}

#[test]
fn ids_are_issued_in_sequence_up_to_the_limit() {
    let mut az_groups = AZGroups::starting_at(u32::MAX - 2);
    assert_eq!(
        az_groups.groups_create(bob(), "one".to_string()).unwrap().id,
        u32::MAX - 2
    );
    assert_eq!(
        az_groups.groups_create(bob(), "two".to_string()).unwrap().id,
        u32::MAX - 1
    );
    assert_eq!(az_groups.groups_total(), u32::MAX);
    // a full registry is refused before the name is looked up, a blank name
    // before that
    assert_eq!(
        az_groups.groups_create(bob(), "two".to_string()),
        Err(unprocessable("Group limit reached"))
    );
    assert_eq!(
        az_groups.groups_create(bob(), "three".to_string()),
        Err(unprocessable("Group limit reached"))
    );
    assert_eq!(
        az_groups.groups_create(bob(), " ".to_string()),
        Err(unprocessable("Name can't be blank"))
    );
    assert_eq!(az_groups.groups_total(), u32::MAX);
}

// === leaving and removing ===
#[test]
fn leaving_is_for_roles_between_banned_and_super_admin() {
    for role in ROLES {
        let mut az_groups = crew(&[(alice(), role), (bob(), Role::SuperAdmin)]);
        let result = az_groups.group_users_destroy(alice(), 0, alice());
        let may = matches!(role, Role::Applicant | Role::Member | Role::Admin);
        if may {
            assert_eq!(result, Ok(()));
            assert_eq!(
                az_groups.group_users_show(0, alice()),
                Err(not_found("GroupUser"))
            );
            assert_eq!(
                az_groups.take_events(),
                vec![Event::GroupUserDestroy(GroupUserDestroy {
                    group_id: 0,
                    user: alice()
                })]
            );
        } else {
            assert_eq!(result, Err(AZGroupsError::Unauthorised));
            assert_eq!(
                az_groups.group_users_show(0, alice()),
                Ok(GroupUser { role })
            );
            assert!(az_groups.take_events().is_empty());
        }
    }
}

#[test]
fn removing_takes_an_admin_not_below_the_target() {
    for caller_role in ROLES {
        for target_role in ROLES {
            let mut az_groups = crew(&[(alice(), caller_role), (bob(), target_role)]);
            let result = az_groups.group_users_destroy(alice(), 0, bob());
            let may = caller_role >= Role::Admin && caller_role >= target_role;
            if may {
                assert_eq!(result, Ok(()));
                assert_eq!(
                    az_groups.group_users_show(0, bob()),
                    Err(not_found("GroupUser"))
                );
            } else {
                assert_eq!(result, Err(AZGroupsError::Unauthorised));
                assert_eq!(
                    az_groups.group_users_show(0, bob()),
                    Ok(GroupUser { role: target_role })
                );
            }
            assert_eq!(
                az_groups.group_users_show(0, alice()),
                Ok(GroupUser { role: caller_role })
            );
        }
    }
}

#[test]
fn removing_looks_for_the_caller_first() {
    let mut az_groups = crew(&[(bob(), Role::Member)]);
    // neither is in another group, nor in one that does not exist
    assert_eq!(
        az_groups.group_users_destroy(alice(), 0, charlie()),
        Err(not_found("GroupUser"))
    );
    assert_eq!(
        az_groups.group_users_destroy(alice(), 0, bob()),
        Err(not_found("GroupUser"))
    );
    // a member who may not remove anyone still learns that the target is
    // missing
    assert_eq!(
        az_groups.group_users_destroy(bob(), 0, alice()),
        Err(not_found("GroupUser"))
    );
    assert_eq!(
        az_groups.group_users_destroy(bob(), 7, bob()),
        Err(not_found("GroupUser"))
    );
}

// === setting roles ===
#[test]
fn roles_are_set_by_admins_up_to_their_own_role() {
    for caller_role in ROLES {
        for target_role in ROLES {
            for new_role in ROLES {
                let mut az_groups = crew(&[(alice(), caller_role), (bob(), target_role)]);
                let result = az_groups.group_users_update(alice(), 0, bob(), new_role);
                let may = caller_role >= Role::Admin
                    && caller_role >= target_role
                    && new_role <= caller_role;
                if may {
                    assert_eq!(result, Ok(GroupUser { role: new_role }));
                    assert_eq!(
                        az_groups.group_users_show(0, bob()),
                        Ok(GroupUser { role: new_role })
                    );
                    assert_eq!(
                        az_groups.take_events(),
                        vec![Event::GroupUserUpdate(GroupUserUpdate {
                            group_id: 0,
                            user: bob(),
                            role: new_role
                        })]
                    );
                } else {
                    assert_eq!(result, Err(AZGroupsError::Unauthorised));
                    assert_eq!(
                        az_groups.group_users_show(0, bob()),
                        Ok(GroupUser { role: target_role })
                    );
                    assert!(az_groups.take_events().is_empty());
                }
                if new_role > caller_role {
                    let mut again = crew(&[(alice(), caller_role), (bob(), target_role)]);
                    assert_eq!(
                        again.group_users_update(alice(), 0, bob(), new_role),
                        Err(AZGroupsError::Unauthorised)
                    );
                }
            }
        }
    }
}

#[test]
fn setting_a_role_checks_in_order() {
    let mut az_groups = crew(&[(alice(), Role::Member), (bob(), Role::Admin)]);
    // nobody sets their own role, in the group or not
    assert_eq!(
        az_groups.group_users_update(bob(), 0, bob(), Role::Member),
        Err(AZGroupsError::Unauthorised)
    );
    assert_eq!(
        az_groups.group_users_update(charlie(), 0, charlie(), Role::Member),
        Err(AZGroupsError::Unauthorised)
    );
    // the caller is looked for before the target
    assert_eq!(
        az_groups.group_users_update(charlie(), 0, bob(), Role::Member),
        Err(not_found("GroupUser"))
    );
    // a caller below admin is refused before the target is looked for
    assert_eq!(
        az_groups.group_users_update(alice(), 0, charlie(), Role::Member),
        Err(AZGroupsError::Unauthorised)
    );
    // an admin learns that the target is missing, whatever the new role
    assert_eq!(
        az_groups.group_users_update(bob(), 0, charlie(), Role::SuperAdmin),
        Err(not_found("GroupUser"))
    );
}

// === validation ===
#[test]
fn validation_answers_in_order() {
    let mut az_groups = crew(&[
        (alice(), Role::Applicant),
        (bob(), Role::SuperAdmin),
        (charlie(), Role::Banned),
    ]);
    assert_eq!(
        az_groups.validate_membership(1, bob()),
        Err(not_found("Group"))
    );
    assert_eq!(
        az_groups.validate_membership(0, AccountId::new([9; 32])),
        Err(not_found("GroupUser"))
    );
    assert_eq!(
        az_groups.validate_membership(0, alice()),
        Err(AZGroupsError::NotAMember)
    );
    assert_eq!(
        az_groups.validate_membership(0, charlie()),
        Err(AZGroupsError::NotAMember)
    );
    assert_eq!(az_groups.validate_membership(0, bob()), Ok(Role::SuperAdmin));
    for role in [Role::Member, Role::Admin, Role::SuperAdmin] {
        let az_groups = crew(&[(alice(), role)]);
        assert_eq!(az_groups.validate_membership(0, alice()), Ok(role));
    }
    // a disabled group is reported before a missing or low membership
    az_groups
        .groups_update(bob(), 0, "Crew".to_string(), false)
        .unwrap();
    for user in [alice(), bob(), charlie(), AccountId::new([9; 32])] {
        assert_eq!(
            az_groups.validate_membership(0, user),
            Err(AZGroupsError::GroupDisabled)
        );
    }
    assert_eq!(
        az_groups.validate_membership(1, bob()),
        Err(not_found("Group"))
    );
}

// === the name index ===
#[test]
fn index_follows_the_names() {
    let mut az_groups = AZGroups::new();
    az_groups.groups_create(bob(), "One".to_string()).unwrap();
    az_groups.groups_create(bob(), "Two".to_string()).unwrap();
    for (name, enabled) in [
        ("Uno", true),
        ("UNO ", false),
        ("  uno", true),
        ("Eins", true),
        ("One", false),
    ] {
        let old = az_groups.groups_show(0).unwrap();
        let updated = az_groups
            .groups_update(bob(), 0, name.to_string(), enabled)
            .unwrap();
        assert_eq!(
            updated,
            Group {
                id: 0,
                name: name.trim().to_string(),
                enabled
            }
        );
        assert_eq!(az_groups.groups_show(0).unwrap(), updated);
        assert_eq!(
            az_groups
                .groups_find_by_name(name.trim().to_string())
                .unwrap(),
            updated
        );
        if old.name.to_lowercase() != name.trim().to_lowercase() {
            assert_eq!(
                az_groups.groups_find_by_name(old.name),
                Err(not_found("Group"))
            );
        }
        assert_eq!(az_groups.groups_find_by_name("TWO".to_string()).unwrap().id, 1);
    }
    // the other group's name is taken, in any case
    assert_eq!(
        az_groups.groups_update(bob(), 0, " tWo ".to_string(), true),
        Err(unprocessable("Group has already been taken"))
    );
    assert_eq!(az_groups.groups_show(0).unwrap().name, "One");
    assert!(!az_groups.groups_show(0).unwrap().enabled);
    // the lookup does not trim
    assert_eq!(
        az_groups.groups_find_by_name(" one".to_string()),
        Err(not_found("Group"))
    );
    // the old name is free again once it is given up
    az_groups
        .groups_update(bob(), 1, "Zwei".to_string(), true)
        .unwrap();
    assert_eq!(
        az_groups
            .groups_update(bob(), 0, "two".to_string(), true)
            .unwrap()
            .name,
        "two"
    );
}

#[test]
fn an_unchanged_name_is_not_checked() {
    let mut az_groups = AZGroups::new();
    az_groups.groups_create(bob(), "One".to_string()).unwrap();
    az_groups.take_events();
    assert_eq!(
        az_groups.groups_update(bob(), 0, " One ".to_string(), false),
        Ok(Group {
            id: 0,
            name: "One".to_string(),
            enabled: false
        })
    );
    assert_eq!(
        az_groups.take_events(),
        vec![Event::Update(Update {
            id: 0,
            name: "One".to_string(),
            enabled: false
        })]
    );
}

// === notifications ===
#[test]
fn operations_notify_in_order() {
    let mut az_groups = AZGroups::new();
    assert!(az_groups.take_events().is_empty());
    az_groups
        .groups_create(bob(), " The Next Wave ".to_string())
        .unwrap();
    az_groups.group_users_create(alice(), 0).unwrap();
    // what fails does not notify
    assert!(az_groups.group_users_create(alice(), 0).is_err());
    assert!(az_groups.group_users_create(alice(), 1).is_err());
    assert!(az_groups
        .groups_create(alice(), "the next wave".to_string())
        .is_err());
    assert!(az_groups
        .groups_update(alice(), 0, "x".to_string(), true)
        .is_err());
    az_groups
        .group_users_update(bob(), 0, alice(), Role::Banned)
        .unwrap();
    az_groups.group_users_destroy(bob(), 0, alice()).unwrap();
    assert_eq!(
        az_groups.take_events(),
        vec![
            Event::Create(Create {
                id: 0,
                name: "The Next Wave".to_string()
            }),
            Event::GroupUserCreate(GroupUserCreate {
                group_id: 0,
                user: bob(),
                role: Role::SuperAdmin
            }),
            Event::GroupUserCreate(GroupUserCreate {
                group_id: 0,
                user: alice(),
                role: Role::Applicant
            }),
            Event::GroupUserUpdate(GroupUserUpdate {
                group_id: 0,
                user: alice(),
                role: Role::Banned
            }),
            Event::GroupUserDestroy(GroupUserDestroy {
                group_id: 0,
                user: alice()
            }),
        ]
    );
    assert!(az_groups.take_events().is_empty());
}

#[test]
fn a_banned_account_cannot_join_again() {
    let mut az_groups = crew(&[(alice(), Role::Banned), (bob(), Role::SuperAdmin)]);
    assert_eq!(
        az_groups.group_users_create(alice(), 0),
        Err(unprocessable("Group user has already been taken"))
    );
    assert_eq!(
        az_groups.group_users_show(0, alice()),
        Ok(GroupUser { role: Role::Banned })
    );
}

// === listing and restoring ===
#[test]
fn registry_restores_what_it_listed() {
    let mut az_groups = AZGroups::default();
    az_groups.groups_create(bob(), "One".to_string()).unwrap();
    az_groups.groups_create(alice(), "Two".to_string()).unwrap();
    az_groups.group_users_create(charlie(), 0).unwrap();
    az_groups.group_users_create(charlie(), 1).unwrap();
    az_groups
        .group_users_update(bob(), 0, charlie(), Role::Admin)
        .unwrap();
    az_groups
        .groups_update(alice(), 1, "Deux".to_string(), false)
        .unwrap();
    let groups = az_groups.groups();
    let memberships = az_groups.memberships();
    assert_eq!(groups.len(), 2);
    assert_eq!(memberships.len(), 4);
    let restored = AZGroups::restore(az_groups.groups_total(), groups, memberships).unwrap();
    assert_eq!(restored.groups_total(), 2);
    for id in 0..3 {
        assert_eq!(restored.groups_show(id), az_groups.groups_show(id));
        for user in [alice(), bob(), charlie()] {
            assert_eq!(
                restored.group_users_show(id, user),
                az_groups.group_users_show(id, user)
            );
            assert_eq!(
                restored.validate_membership(id, user),
                az_groups.validate_membership(id, user)
            );
        }
    }
    for name in ["one", "two", "deux", "DEUX"] {
        assert_eq!(
            restored.groups_find_by_name(name.to_string()),
            az_groups.groups_find_by_name(name.to_string())
        );
    }
}

#[test]
fn restore_refuses_what_cannot_stand_together() {
    let group = |id: u32, name: &str| Group {
        id,
        name: name.to_string(),
        enabled: true,
    };
    let member = |group_id: u32, user: AccountId| Membership {
        group_id,
        user,
        role: Role::Member,
    };
    assert!(AZGroups::restore(0, vec![], vec![]).is_some());
    assert!(AZGroups::restore(2, vec![group(1, "a"), group(0, "b")], vec![]).is_some());
    // an id at or above the counter
    assert!(AZGroups::restore(1, vec![group(1, "a")], vec![]).is_none());
    // an id twice
    assert!(AZGroups::restore(5, vec![group(1, "a"), group(1, "b")], vec![]).is_none());
    // a key twice
    assert!(AZGroups::restore(5, vec![group(1, "ab"), group(2, "AB")], vec![]).is_none());
    // a name that is blank, or not trimmed
    assert!(AZGroups::restore(5, vec![group(1, "")], vec![]).is_none());
    assert!(AZGroups::restore(5, vec![group(1, " a")], vec![]).is_none());
    assert!(AZGroups::restore(5, vec![group(1, "a\n")], vec![]).is_none());
    // a membership without its group, or twice
    assert!(AZGroups::restore(5, vec![group(1, "a")], vec![member(0, bob())]).is_none());
    assert!(AZGroups::restore(
        5,
        vec![group(1, "a")],
        vec![member(1, bob()), member(1, bob())]
    )
    .is_none());
    assert!(AZGroups::restore(
        5,
        vec![group(1, "a")],
        vec![member(1, bob()), member(1, alice())]
    )
    .is_some());
}
