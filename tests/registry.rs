use name_registry::{
    accept_program_ownership, change_program_owner, check_cooldown, complete_address_update_at,
    initialize, register_name, register_name_at, rename_name, rename_name_at, request_address_update,
    request_address_update_at, set_registration_fee, validate_address, validate_cooldown,
    validate_name, AcceptProgramOwnership, Address, ChangeProgramOwner, CompleteAddressUpdate,
    Initialize, NameRegistryError, RegisterName, Registry, RenameName, RequestAddressUpdate,
    SetRegistrationFee,
};

fn addr(b: u8) -> Address {
    Address { bytes: [b; 32] }
}

fn setup(fee: u64) -> Registry {
    let mut reg = Registry::new();
    initialize(&mut reg, &Initialize { initializer: addr(9) }, fee).unwrap();
    reg
}

fn register(reg: &mut Registry, who: u8, lamports: u64, name: &str, now: i64) -> Result<u64, NameRegistryError> {
    let ctx = RegisterName { registrant: addr(who), registrant_lamports: lamports, treasury: addr(200) };
    register_name_at(reg, &ctx, name.to_string(), now).map(|t| t.lamports)
}

#[test]
fn name_rules() {
    assert!(validate_name("alice").is_ok());
    assert!(validate_name("a-1").is_ok());
    assert!(validate_name("abc").is_ok());
    assert!(validate_name(&"a".repeat(32)).is_ok());
    for bad in ["a", "ab", "", "-abc", "abc-", "Alice", "al ice", "al_ice", "alicé"] {
        assert_eq!(validate_name(bad), Err(NameRegistryError::InvalidNameFormat), "{bad}");
    }
    assert_eq!(validate_name(&"a".repeat(33)), Err(NameRegistryError::InvalidNameFormat));
}

#[test]
fn address_rule() {
    assert_eq!(validate_address(&Address::zero()), Err(NameRegistryError::InvalidAddress));
    assert!(validate_address(&addr(1)).is_ok());
    let mut one = [0u8; 32];
    one[31] = 1;
    assert!(validate_address(&Address { bytes: one }).is_ok());
}

#[test]
fn cooldown_rule() {
    assert_eq!(check_cooldown(100, 99), Err(NameRegistryError::CooldownNotOver));
    assert!(check_cooldown(100, 100).is_ok());
    assert!(check_cooldown(100, 101).is_ok());
}

#[test]
fn clock_off_chain() {
    // Outside a ledger the clock sysvar cannot be read.
    assert_eq!(validate_cooldown(0), Err(NameRegistryError::ClockUnavailable));
    let mut reg = setup(0);
    let ctx = RegisterName { registrant: addr(1), registrant_lamports: 0, treasury: addr(2) };
    assert_eq!(register_name(&mut reg, &ctx, "alice".to_string()).map(|_| ()), Err(NameRegistryError::ClockUnavailable));
    assert!(reg.names.is_empty());
}

#[test]
fn alice_scenario() {
    let mut reg = setup(100);
    assert_eq!(register(&mut reg, 1, 100, "alice", 1000), Ok(100));
    assert_eq!(reg.names.len(), 1);
    let rec = &reg.names[0];
    assert_eq!(rec.name, "alice");
    assert_eq!(rec.owner.bytes, addr(1).bytes);
    assert_eq!(rec.address.bytes, addr(1).bytes);
    assert_eq!(rec.cooldown_until, 1000);
    assert_eq!(reg.addresses[0].account.name, "alice");
    assert_eq!(reg.addresses[0].identity.bytes, addr(1).bytes);

    assert_eq!(register(&mut reg, 2, 500, "alice", 1001), Err(NameRegistryError::NameTaken));

    let req = RequestAddressUpdate { owner: addr(1), name_account: "alice".to_string() };
    assert_eq!(request_address_update_at(&mut reg, &req, addr(3), 999), Err(NameRegistryError::CooldownNotOver));

    let ren = RenameName { owner: addr(1), old_name_account: "alice".to_string() };
    assert_eq!(rename_name_at(&mut reg, &ren, "a".to_string(), 2000), Err(NameRegistryError::InvalidNameFormat));
    assert_eq!(reg.names[0].name, "alice");
}

#[test]
fn register_errors() {
    let mut empty = Registry::new();
    assert_eq!(register(&mut empty, 1, 100, "alice", 0), Err(NameRegistryError::NotInitialized));
    let mut reg = setup(100);
    assert_eq!(register(&mut reg, 1, 99, "alice", 0), Err(NameRegistryError::InsufficientFee));
    assert_eq!(register(&mut reg, 1, 100, "-x-", 0), Err(NameRegistryError::InvalidNameFormat));
    assert_eq!(register(&mut reg, 1, 100, "alice", 0), Ok(100));
    assert_eq!(register(&mut reg, 1, 100, "bob", 0), Err(NameRegistryError::NameAlreadyRegistered));
    assert_eq!(reg.names.len(), 1);
    assert_eq!(reg.addresses.len(), 1);
}

#[test]
fn address_update_round() {
    let mut reg = setup(0);
    register(&mut reg, 1, 0, "alice", 10).unwrap();
    let req = RequestAddressUpdate { owner: addr(1), name_account: "alice".to_string() };
    assert_eq!(request_address_update_at(&mut reg, &req, Address::zero(), 10), Err(NameRegistryError::InvalidAddress));
    let stranger = RequestAddressUpdate { owner: addr(5), name_account: "alice".to_string() };
    assert_eq!(request_address_update_at(&mut reg, &stranger, addr(3), 10), Err(NameRegistryError::NotNameOwner));
    let missing = RequestAddressUpdate { owner: addr(1), name_account: "carol".to_string() };
    assert_eq!(request_address_update_at(&mut reg, &missing, addr(3), 10), Err(NameRegistryError::NotInitialized));
    assert_eq!(request_address_update_at(&mut reg, &req, addr(3), 10), Ok(()));
    assert_eq!(request_address_update_at(&mut reg, &req, addr(4), 11), Err(NameRegistryError::AlreadyInitialized));
    assert_eq!(reg.pending.len(), 1);
    assert_eq!(reg.pending[0].account.new_address.bytes, addr(3).bytes);

    let wrong = CompleteAddressUpdate { new_owner: addr(4), name_account: "alice".to_string() };
    assert_eq!(complete_address_update_at(&mut reg, &wrong, 20), Err(NameRegistryError::NotPendingAddress));
    let right = CompleteAddressUpdate { new_owner: addr(3), name_account: "alice".to_string() };
    assert_eq!(complete_address_update_at(&mut reg, &right, 20), Ok(()));
    assert_eq!(reg.names[0].owner.bytes, addr(3).bytes);
    assert_eq!(reg.names[0].address.bytes, addr(3).bytes);
    assert_eq!(reg.names[0].cooldown_until, 20);
    assert!(reg.pending.is_empty());
    assert_eq!(complete_address_update_at(&mut reg, &right, 21), Err(NameRegistryError::NoPendingUpdate));
    let gone = CompleteAddressUpdate { new_owner: addr(3), name_account: "zed".to_string() };
    assert_eq!(complete_address_update_at(&mut reg, &gone, 21), Err(NameRegistryError::NotInitialized));
}

#[test]
fn request_before_cooldown_via_clock_fails_off_chain() {
    let mut reg = setup(0);
    register(&mut reg, 1, 0, "alice", 10).unwrap();
    let req = RequestAddressUpdate { owner: addr(1), name_account: "alice".to_string() };
    assert_eq!(request_address_update(&mut reg, &req, addr(3)), Err(NameRegistryError::ClockUnavailable));
    assert!(reg.pending.is_empty());
}

#[test]
fn rename_moves_record() {
    let mut reg = setup(0);
    register(&mut reg, 1, 0, "alice", 10).unwrap();
    register(&mut reg, 2, 0, "bob", 10).unwrap();
    let ren = RenameName { owner: addr(1), old_name_account: "alice".to_string() };
    assert_eq!(rename_name_at(&mut reg, &ren, "bob".to_string(), 20), Err(NameRegistryError::NameTaken));
    assert_eq!(rename_name_at(&mut reg, &ren, "alicia".to_string(), 5), Err(NameRegistryError::CooldownNotOver));
    let thief = RenameName { owner: addr(2), old_name_account: "alice".to_string() };
    assert_eq!(rename_name_at(&mut reg, &thief, "alicia".to_string(), 20), Err(NameRegistryError::NotNameOwner));
    assert_eq!(rename_name_at(&mut reg, &ren, "alicia".to_string(), 20), Ok(()));
    assert_eq!(reg.names.len(), 2);
    assert!(reg.names.iter().all(|n| n.name != "alice"));
    let rec = reg.names.iter().find(|n| n.name == "alicia").unwrap();
    assert_eq!(rec.owner.bytes, addr(1).bytes);
    assert_eq!(rec.address.bytes, addr(1).bytes);
    assert_eq!(rec.cooldown_until, 20);
    assert_eq!(reg.addresses[0].account.name, "alicia");
    assert_eq!(reg.addresses[1].account.name, "bob");
    assert_eq!(rename_name_at(&mut reg, &ren, "x12".to_string(), 30), Err(NameRegistryError::NotInitialized));
    // the freed name can be registered again
    assert_eq!(register(&mut reg, 3, 0, "alice", 30), Ok(0));
}

#[test]
fn rename_by_owner_with_other_address_record() {
    let mut reg = setup(0);
    register(&mut reg, 1, 0, "alice", 10).unwrap();
    let req = RequestAddressUpdate { owner: addr(1), name_account: "alice".to_string() };
    request_address_update_at(&mut reg, &req, addr(3), 10).unwrap();
    let done = CompleteAddressUpdate { new_owner: addr(3), name_account: "alice".to_string() };
    complete_address_update_at(&mut reg, &done, 11).unwrap();
    // the new owner has no address record of its own yet
    let ren = RenameName { owner: addr(3), old_name_account: "alice".to_string() };
    assert_eq!(rename_name_at(&mut reg, &ren, "alicia".to_string(), 12), Err(NameRegistryError::NotInitialized));
    register(&mut reg, 3, 0, "other", 12).unwrap();
    // its address record names another name: the rename still succeeds
    assert_eq!(rename_name_at(&mut reg, &ren, "alicia".to_string(), 12), Ok(()));
    let rec = reg.names.iter().find(|n| n.name == "alicia").unwrap();
    assert_eq!(rec.owner.bytes, addr(3).bytes);
    assert_eq!(rec.cooldown_until, 12);
    assert!(reg.names.iter().all(|n| n.name != "alice"));
    let slot = reg.addresses.iter().find(|a| a.identity.bytes == addr(3).bytes).unwrap();
    assert_eq!(slot.account.name, "alicia");
}

#[test]
fn owner_check_comes_before_cooldown() {
    let mut reg = setup(0);
    register(&mut reg, 1, 0, "alice", 100).unwrap();
    let req = RequestAddressUpdate { owner: addr(2), name_account: "alice".to_string() };
    assert_eq!(request_address_update_at(&mut reg, &req, addr(3), 50), Err(NameRegistryError::NotNameOwner));
    let ren = RenameName { owner: addr(2), old_name_account: "alice".to_string() };
    assert_eq!(rename_name_at(&mut reg, &ren, "alicia".to_string(), 50), Err(NameRegistryError::NotNameOwner));
}

#[test]
fn previous_owner_refused_after_completion() {
    let mut reg = setup(0);
    register(&mut reg, 1, 0, "alice", 10).unwrap();
    let req = RequestAddressUpdate { owner: addr(1), name_account: "alice".to_string() };
    request_address_update_at(&mut reg, &req, addr(3), 10).unwrap();
    let done = CompleteAddressUpdate { new_owner: addr(3), name_account: "alice".to_string() };
    complete_address_update_at(&mut reg, &done, 20).unwrap();
    assert_eq!(request_address_update_at(&mut reg, &req, addr(1), 15), Err(NameRegistryError::NotNameOwner));
    assert_eq!(request_address_update_at(&mut reg, &req, addr(1), 25), Err(NameRegistryError::NotNameOwner));
}

#[test]
fn format_checked_before_clock() {
    let mut reg = setup(0);
    let ctx = RegisterName { registrant: addr(1), registrant_lamports: 0, treasury: addr(2) };
    assert_eq!(register_name(&mut reg, &ctx, "-bad".to_string()).map(|_| ()), Err(NameRegistryError::InvalidNameFormat));
    let req = RequestAddressUpdate { owner: addr(1), name_account: "alice".to_string() };
    assert_eq!(request_address_update(&mut reg, &req, Address::zero()), Err(NameRegistryError::InvalidAddress));
    let ren = RenameName { owner: addr(1), old_name_account: "alice".to_string() };
    assert_eq!(rename_name(&mut reg, &ren, "a".to_string()), Err(NameRegistryError::InvalidNameFormat));
    assert!(reg.names.is_empty());
}

#[test]
fn rename_round_trip() {
    let mut reg = setup(0);
    register(&mut reg, 1, 0, "alice", 10).unwrap();
    let there = RenameName { owner: addr(1), old_name_account: "alice".to_string() };
    rename_name_at(&mut reg, &there, "alicia".to_string(), 20).unwrap();
    let back = RenameName { owner: addr(1), old_name_account: "alicia".to_string() };
    assert_eq!(rename_name_at(&mut reg, &back, "alice".to_string(), 19), Err(NameRegistryError::CooldownNotOver));
    assert_eq!(rename_name_at(&mut reg, &back, "alice".to_string(), 20), Ok(()));
    assert_eq!(reg.names.len(), 1);
    assert_eq!(reg.names[0].name, "alice");
    assert_eq!(reg.names[0].owner.bytes, addr(1).bytes);
    assert_eq!(reg.names[0].address.bytes, addr(1).bytes);
    assert_eq!(reg.names[0].cooldown_until, 20);
    assert_eq!(reg.addresses[0].account.name, "alice");
}

#[test]
fn invalid_stored_name_is_not_well_formed() {
    let mut reg = setup(0);
    register(&mut reg, 1, 0, "alice", 10).unwrap();
    reg.names[0].name = "Alice".to_string();
    assert!(!reg.is_well_formed());
}

#[test]
fn registry_administration() {
    let mut reg = Registry::new();
    assert_eq!(set_registration_fee(&mut reg, &SetRegistrationFee { owner: addr(9) }, 5), Err(NameRegistryError::NotInitialized));
    assert_eq!(accept_program_ownership(&mut reg, &AcceptProgramOwnership { pending_main_owner: addr(9) }), Err(NameRegistryError::NotInitialized));
    initialize(&mut reg, &Initialize { initializer: addr(9) }, 7).unwrap();
    assert_eq!(initialize(&mut reg, &Initialize { initializer: addr(8) }, 1), Err(NameRegistryError::AlreadyInitialized));
    let cfg = reg.config.unwrap();
    assert!(cfg.is_initialized);
    assert_eq!(cfg.owner.bytes, addr(9).bytes);
    assert_eq!(cfg.pending_owner.bytes, [0u8; 32]);
    assert_eq!(cfg.registration_fee, 7);

    assert_eq!(set_registration_fee(&mut reg, &SetRegistrationFee { owner: addr(1) }, 5), Err(NameRegistryError::NotContractOwner));
    assert_eq!(set_registration_fee(&mut reg, &SetRegistrationFee { owner: addr(9) }, 5), Ok(()));
    assert_eq!(reg.config.unwrap().registration_fee, 5);

    // nobody pending: even the zero identity cannot accept
    assert_eq!(accept_program_ownership(&mut reg, &AcceptProgramOwnership { pending_main_owner: Address::zero() }), Err(NameRegistryError::NotPendingContractOwner));
    assert_eq!(change_program_owner(&mut reg, &ChangeProgramOwner { owner: addr(9) }, Address::zero()), Err(NameRegistryError::InvalidAddress));
    assert_eq!(change_program_owner(&mut reg, &ChangeProgramOwner { owner: addr(1) }, addr(4)), Err(NameRegistryError::NotContractOwner));
    assert_eq!(change_program_owner(&mut reg, &ChangeProgramOwner { owner: addr(9) }, addr(4)), Ok(()));
    assert_eq!(reg.config.unwrap().owner.bytes, addr(9).bytes);
    assert_eq!(accept_program_ownership(&mut reg, &AcceptProgramOwnership { pending_main_owner: addr(5) }), Err(NameRegistryError::NotPendingContractOwner));
    assert_eq!(accept_program_ownership(&mut reg, &AcceptProgramOwnership { pending_main_owner: addr(4) }), Ok(()));
    let cfg = reg.config.unwrap();
    assert_eq!(cfg.owner.bytes, addr(4).bytes);
    assert_eq!(cfg.pending_owner.bytes, [0u8; 32]);
    assert_eq!(accept_program_ownership(&mut reg, &AcceptProgramOwnership { pending_main_owner: addr(4) }), Err(NameRegistryError::NotPendingContractOwner));
}

#[test]
fn cooldown_restarts_after_completion() {
    let mut reg = setup(0);
    register(&mut reg, 1, 0, "alice", 10).unwrap();
    let req = RequestAddressUpdate { owner: addr(1), name_account: "alice".to_string() };
    request_address_update_at(&mut reg, &req, addr(3), 10).unwrap();
    let done = CompleteAddressUpdate { new_owner: addr(3), name_account: "alice".to_string() };
    complete_address_update_at(&mut reg, &done, 50).unwrap();
    let again = RequestAddressUpdate { owner: addr(3), name_account: "alice".to_string() };
    assert_eq!(request_address_update_at(&mut reg, &again, addr(1), 49), Err(NameRegistryError::CooldownNotOver));
    assert_eq!(request_address_update_at(&mut reg, &again, addr(1), 50), Ok(()));
}

#[test]
fn error_messages() {
    assert_eq!(NameRegistryError::InvalidNameFormat.message(), "Invalid name format");
    assert_eq!(NameRegistryError::NotPendingContractOwner.message(), "Not the pending contract owner");
}

#[test]
fn well_formedness_and_text() {
    assert!(name_registry::same_text("alice", "alice"));
    assert!(!name_registry::same_text("alice", "alicf"));
    assert!(!name_registry::same_text("alice", "alic"));
    let mut reg = setup(0);
    register(&mut reg, 1, 0, "alice", 10).unwrap();
    assert!(reg.is_well_formed());
    let mut twin = reg.names[0].clone();
    twin.owner = addr(2);
    reg.names.push(twin);
    assert!(!reg.is_well_formed());
    assert_eq!(reg.find_name("alice"), Some(0));
    assert_eq!(reg.find_name("bob"), None);
}
