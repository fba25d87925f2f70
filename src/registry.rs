//! The registry's operations. Each `*_step` spec function says what an
//! operation does to the registry's state and what it returns; the
//! executable operation is proved to do exactly that, and to keep every
//! slot kind free of duplicate keys.
use crate::error::NameRegistryError;
use crate::host::current_time;
use crate::state::{
    zero_address, Address, AddressAccount, AddressEntry, AddressSlot, NameAccount, NameRecord,
    PendingEntry, PendingSlot, PendingUpdateAccount, ProgramConfig, Registry, RegistryState,
};
use crate::validation::{check_cooldown, cooldown_over, valid_name, validate_address, validate_name};
use vstd::prelude::*;

verus! {

/// Host inputs of `initialize`: the authenticated caller.
#[derive(Debug, Clone, Copy)]
pub struct Initialize {
    pub initializer: Address,
}

/// Host inputs of `register_name`: the authenticated caller, its
/// transferable balance, and the account that receives the fee.
#[derive(Debug, Clone, Copy)]
pub struct RegisterName {
    pub registrant: Address,
    pub registrant_lamports: u64,
    pub treasury: Address,
}

/// Host inputs of `request_address_update`: the caller and the name whose
/// record is to change.
#[derive(Debug, Clone)]
pub struct RequestAddressUpdate {
    pub owner: Address,
    pub name_account: String,
}

/// Host inputs of `complete_address_update`: the caller and the name whose
/// pending update it confirms.
#[derive(Debug, Clone)]
pub struct CompleteAddressUpdate {
    pub new_owner: Address,
    pub name_account: String,
}

/// Host inputs of `rename_name`: the caller and the name to move away from.
#[derive(Debug, Clone)]
pub struct RenameName {
    pub owner: Address,
    pub old_name_account: String,
}

/// Host inputs of `set_registration_fee`: the caller.
#[derive(Debug, Clone, Copy)]
pub struct SetRegistrationFee {
    pub owner: Address,
}

/// Host inputs of `change_program_owner`: the caller.
#[derive(Debug, Clone, Copy)]
pub struct ChangeProgramOwner {
    pub owner: Address,
}

/// Host inputs of `accept_program_ownership`: the caller.
#[derive(Debug, Clone, Copy)]
pub struct AcceptProgramOwnership {
    pub pending_main_owner: Address,
}

/// A value transfer that the host performs together with the operation.
#[derive(Debug, Clone, Copy)]
pub struct FeeTransfer {
    pub from: Address,
    pub to: Address,
    pub lamports: u64,
}

/// `s` with its configuration replaced by `c`.
pub open spec fn with_config(s: RegistryState, c: ProgramConfig) -> RegistryState {
    RegistryState { config: Some(c), names: s.names, addresses: s.addresses, pending: s.pending }
}

/// Changing only the configuration keeps the slot keys distinct.
pub proof fn lemma_wf_config_only(a: RegistryState, b: RegistryState)
    requires
        a.wf(),
        a.names == b.names,
        a.addresses == b.addresses,
        a.pending == b.pending,
    ensures
        b.wf(),
{
}

/// What `initialize` does to the state, and what it returns.
pub open spec fn initialize_step(s: RegistryState, ctx: Initialize, fee: u64) -> (
    RegistryState,
    Result<(), NameRegistryError>,
) {
    if s.config is Some {
        (s, Err(NameRegistryError::AlreadyInitialized))
    } else {
        (
            with_config(
                s,
                ProgramConfig {
                    is_initialized: true,
                    owner: ctx.initializer,
                    pending_owner: zero_address(),
                    registration_fee: fee,
                },
            ),
            Ok(()),
        )
    }
}

/// What `set_registration_fee` does to the state, and what it returns.
pub open spec fn set_registration_fee_step(
    s: RegistryState,
    ctx: SetRegistrationFee,
    new_fee: u64,
) -> (RegistryState, Result<(), NameRegistryError>) {
    match s.config {
        None => (s, Err(NameRegistryError::NotInitialized)),
        Some(c) => if c.owner != ctx.owner {
            (s, Err(NameRegistryError::NotContractOwner))
        } else {
            (with_config(s, ProgramConfig { registration_fee: new_fee, ..c }), Ok(()))
        },
    }
}

/// What `change_program_owner` does to the state, and what it returns.
pub open spec fn change_program_owner_step(
    s: RegistryState,
    ctx: ChangeProgramOwner,
    candidate: Address,
) -> (RegistryState, Result<(), NameRegistryError>) {
    if candidate == zero_address() {
        (s, Err(NameRegistryError::InvalidAddress))
    } else {
        match s.config {
            None => (s, Err(NameRegistryError::NotInitialized)),
            Some(c) => if c.owner != ctx.owner {
                (s, Err(NameRegistryError::NotContractOwner))
            } else {
                (with_config(s, ProgramConfig { pending_owner: candidate, ..c }), Ok(()))
            },
        }
    }
}

/// What `accept_program_ownership` does to the state, and what it returns.
pub open spec fn accept_program_ownership_step(
    s: RegistryState,
    ctx: AcceptProgramOwnership,
) -> (RegistryState, Result<(), NameRegistryError>) {
    match s.config {
        None => (s, Err(NameRegistryError::NotInitialized)),
        Some(c) => if c.pending_owner == zero_address() || c.pending_owner
            != ctx.pending_main_owner {
            (s, Err(NameRegistryError::NotPendingContractOwner))
        } else {
            (
                with_config(
                    s,
                    ProgramConfig { owner: ctx.pending_main_owner, pending_owner: zero_address(), ..c },
                ),
                Ok(()),
            )
        },
    }
}

/// What registering `name` at time `now` does to the state, and what it returns.
pub open spec fn register_name_step(
    s: RegistryState,
    ctx: RegisterName,
    name: Seq<char>,
    now: i64,
) -> (RegistryState, Result<FeeTransfer, NameRegistryError>) {
    if !valid_name(name) {
        (s, Err(NameRegistryError::InvalidNameFormat))
    } else if s.config is None {
        (s, Err(NameRegistryError::NotInitialized))
    } else if s.has_name(name) {
        (s, Err(NameRegistryError::NameTaken))
    } else if s.has_identity(ctx.registrant) {
        (s, Err(NameRegistryError::NameAlreadyRegistered))
    } else if ctx.registrant_lamports < s.config->0.registration_fee {
        (s, Err(NameRegistryError::InsufficientFee))
    } else {
        (
            RegistryState {
                config: s.config,
                names: s.names.push(
                    NameRecord {
                        is_initialized: true,
                        owner: ctx.registrant,
                        name,
                        address: ctx.registrant,
                        cooldown_until: now,
                    },
                ),
                addresses: s.addresses.push(
                    AddressEntry { identity: ctx.registrant, is_initialized: true, name },
                ),
                pending: s.pending,
            },
            Ok(
                FeeTransfer {
                    from: ctx.registrant,
                    to: ctx.treasury,
                    lamports: s.config->0.registration_fee,
                },
            ),
        )
    }
}

/// Creates the registry's configuration, owned by the caller.
pub fn initialize(reg: &mut Registry, ctx: &Initialize, registration_fee: u64) -> (r: Result<
    (),
    NameRegistryError,
>)
    requires
        old(reg)@.wf(),
    ensures
        final(reg)@.wf(),
        (final(reg)@, r) == initialize_step(old(reg)@, *ctx, registration_fee),
{
    if reg.config.is_some() {
        return Err(NameRegistryError::AlreadyInitialized);
    }
    reg.config = Some(
        ProgramConfig {
            is_initialized: true,
            owner: ctx.initializer,
            pending_owner: Address::zero(),
            registration_fee,
        },
    );
    proof {
        lemma_wf_config_only(old(reg)@, reg@);
    }
    Ok(())
}

/// Sets the registration fee; only the registry's owner may.
pub fn set_registration_fee(reg: &mut Registry, ctx: &SetRegistrationFee, new_fee: u64) -> (r:
    Result<(), NameRegistryError>)
    requires
        old(reg)@.wf(),
    ensures
        final(reg)@.wf(),
        (final(reg)@, r) == set_registration_fee_step(old(reg)@, *ctx, new_fee),
{
    match reg.config {
        None => Err(NameRegistryError::NotInitialized),
        Some(c) => {
            if !c.owner.same_as(&ctx.owner) {
                return Err(NameRegistryError::NotContractOwner);
            }
            reg.config = Some(ProgramConfig { registration_fee: new_fee, ..c });
            Ok(())
        },
    }
}

/// Proposes `new_owner_pubkey` as the registry's next owner; only the
/// current owner may. Control moves only when the candidate accepts.
pub fn change_program_owner(
    reg: &mut Registry,
    ctx: &ChangeProgramOwner,
    new_owner_pubkey: Address,
) -> (r: Result<(), NameRegistryError>)
    requires
        old(reg)@.wf(),
    ensures
        final(reg)@.wf(),
        (final(reg)@, r) == change_program_owner_step(old(reg)@, *ctx, new_owner_pubkey),
{
    if let Err(e) = validate_address(&new_owner_pubkey) {
        return Err(e);
    }
    match reg.config {
        None => Err(NameRegistryError::NotInitialized),
        Some(c) => {
            if !c.owner.same_as(&ctx.owner) {
                return Err(NameRegistryError::NotContractOwner);
            }
            reg.config = Some(ProgramConfig { pending_owner: new_owner_pubkey, ..c });
            Ok(())
        },
    }
}

/// Completes the transfer of the registry to its proposed owner, who must
/// be the caller.
pub fn accept_program_ownership(reg: &mut Registry, ctx: &AcceptProgramOwnership) -> (r: Result<
    (),
    NameRegistryError,
>)
    requires
        old(reg)@.wf(),
    ensures
        final(reg)@.wf(),
        (final(reg)@, r) == accept_program_ownership_step(old(reg)@, *ctx),
{
    match reg.config {
        None => Err(NameRegistryError::NotInitialized),
        Some(c) => {
            if c.pending_owner.is_zero() || !c.pending_owner.same_as(&ctx.pending_main_owner) {
                return Err(NameRegistryError::NotPendingContractOwner);
            }
            reg.config = Some(
                ProgramConfig {
                    owner: ctx.pending_main_owner,
                    pending_owner: Address::zero(),
                    ..c
                },
            );
            proof {
                lemma_wf_config_only(old(reg)@, reg@);
            }
            Ok(())
        },
    }
}

/// Registers `name` for the caller at time `now`: creates its name record
/// and the caller's address record, and returns the fee transfer that the
/// host performs with it.
pub fn register_name_at(reg: &mut Registry, ctx: &RegisterName, name: String, now: i64) -> (r:
    Result<FeeTransfer, NameRegistryError>)
    requires
        old(reg)@.wf(),
    ensures
        final(reg)@.wf(),
        (final(reg)@, r) == register_name_step(old(reg)@, *ctx, name@, now),
{
    if let Err(e) = validate_name(name.as_str()) {
        return Err(e);
    }
    let fee = match &reg.config {
        None => {
            return Err(NameRegistryError::NotInitialized);
        },
        Some(c) => c.registration_fee,
    };
    if reg.find_name(name.as_str()).is_some() {
        return Err(NameRegistryError::NameTaken);
    }
    if reg.find_identity(&ctx.registrant).is_some() {
        return Err(NameRegistryError::NameAlreadyRegistered);
    }
    if ctx.registrant_lamports < fee {
        return Err(NameRegistryError::InsufficientFee);
    }
    let ghost s0 = reg@;
    let record = NameAccount {
        is_initialized: true,
        owner: ctx.registrant,
        name: name.clone(),
        address: ctx.registrant,
        cooldown_until: now,
    };
    reg.names.push(record);
    reg.addresses.push(
        AddressSlot {
            identity: ctx.registrant,
            account: AddressAccount { is_initialized: true, name },
        },
    );
    let ghost s1 = register_name_step(s0, *ctx, name@, now).0;
    assert(reg@.names =~= s1.names);
    assert(reg@.addresses =~= s1.addresses);
    assert(reg@.pending =~= s1.pending);
    Ok(FeeTransfer { from: ctx.registrant, to: ctx.treasury, lamports: fee })
}

/// What requesting an address update at time `now` does to the state, and what it returns.
pub open spec fn request_address_update_step(
    s: RegistryState,
    ctx: RequestAddressUpdate,
    new_address: Address,
    now: i64,
) -> (RegistryState, Result<(), NameRegistryError>) {
    let n = ctx.name_account@;
    if new_address == zero_address() {
        (s, Err(NameRegistryError::InvalidAddress))
    } else if !s.has_name(n) {
        (s, Err(NameRegistryError::NotInitialized))
    } else if s.names[s.name_index(n)].owner != ctx.owner {
        (s, Err(NameRegistryError::NotNameOwner))
    } else if !cooldown_over(s.names[s.name_index(n)].cooldown_until, now) {
        (s, Err(NameRegistryError::CooldownNotOver))
    } else if s.has_pending(n) {
        (s, Err(NameRegistryError::AlreadyInitialized))
    } else {
        (
            RegistryState {
                config: s.config,
                names: s.names,
                addresses: s.addresses,
                pending: s.pending.push(PendingEntry { name: n, is_initialized: true, new_address }),
            },
            Ok(()),
        )
    }
}

/// What completing an address update at time `now` does to the state, and what it returns.
pub open spec fn complete_address_update_step(
    s: RegistryState,
    ctx: CompleteAddressUpdate,
    now: i64,
) -> (RegistryState, Result<(), NameRegistryError>) {
    let n = ctx.name_account@;
    if !s.has_name(n) {
        (s, Err(NameRegistryError::NotInitialized))
    } else if !s.has_pending(n) {
        (s, Err(NameRegistryError::NoPendingUpdate))
    } else if s.pending[s.pending_index(n)].new_address != ctx.new_owner {
        (s, Err(NameRegistryError::NotPendingAddress))
    } else {
        let i = s.name_index(n);
        (
            RegistryState {
                config: s.config,
                names: s.names.update(
                    i,
                    NameRecord {
                        owner: ctx.new_owner,
                        address: ctx.new_owner,
                        cooldown_until: now,
                        ..s.names[i]
                    },
                ),
                addresses: s.addresses,
                pending: s.pending.remove(s.pending_index(n)),
            },
            Ok(()),
        )
    }
}

/// What renaming at time `now` does to the state, and what it returns.
pub open spec fn rename_name_step(
    s: RegistryState,
    ctx: RenameName,
    new_name: Seq<char>,
    now: i64,
) -> (RegistryState, Result<(), NameRegistryError>) {
    let old_name = ctx.old_name_account@;
    if !valid_name(new_name) {
        (s, Err(NameRegistryError::InvalidNameFormat))
    } else if !s.has_name(old_name) {
        (s, Err(NameRegistryError::NotInitialized))
    } else if s.names[s.name_index(old_name)].owner != ctx.owner {
        (s, Err(NameRegistryError::NotNameOwner))
    } else if !cooldown_over(s.names[s.name_index(old_name)].cooldown_until, now) {
        (s, Err(NameRegistryError::CooldownNotOver))
    } else if !s.has_identity(ctx.owner) {
        (s, Err(NameRegistryError::NotInitialized))
    } else if s.has_name(new_name) {
        (s, Err(NameRegistryError::NameTaken))
    } else {
        let i = s.name_index(old_name);
        let a = s.identity_index(ctx.owner);
        (
            RegistryState {
                config: s.config,
                names: s.names.update(
                    i,
                    NameRecord {
                        is_initialized: true,
                        owner: s.names[i].owner,
                        name: new_name,
                        address: s.names[i].address,
                        cooldown_until: now,
                    },
                ),
                addresses: s.addresses.update(a, AddressEntry { name: new_name, ..s.addresses[a] }),
                pending: s.pending,
            },
            Ok(()),
        )
    }
}

/// Registers `name` for the caller at the host's current time.
pub fn register_name(reg: &mut Registry, ctx: &RegisterName, name: String) -> (r: Result<
    FeeTransfer,
    NameRegistryError,
>)
    requires
        old(reg)@.wf(),
    ensures
        final(reg)@.wf(),
        !valid_name(name@) ==> r == Err::<FeeTransfer, NameRegistryError>(
            NameRegistryError::InvalidNameFormat,
        ) && final(reg)@ == old(reg)@,
        (r == Err::<FeeTransfer, NameRegistryError>(NameRegistryError::ClockUnavailable)
            && final(reg)@ == old(reg)@) || exists|now: i64|
            (final(reg)@, r) == #[trigger] register_name_step(old(reg)@, *ctx, name@, now),
{
    if let Err(e) = validate_name(name.as_str()) {
        assert(register_name_step(old(reg)@, *ctx, name@, 0) == (reg@, Err::<
            FeeTransfer,
            NameRegistryError,
        >(e)));
        return Err(e);
    }
    let now = match current_time() {
        Ok(t) => t,
        Err(e) => {
            return Err(e);
        },
    };
    register_name_at(reg, ctx, name, now)
}

/// Records, at time `now`, that the record of `ctx.name_account` is to move
/// to `new_address` once that address confirms.
pub fn request_address_update_at(
    reg: &mut Registry,
    ctx: &RequestAddressUpdate,
    new_address: Address,
    now: i64,
) -> (r: Result<(), NameRegistryError>)
    requires
        old(reg)@.wf(),
    ensures
        final(reg)@.wf(),
        (final(reg)@, r) == request_address_update_step(old(reg)@, *ctx, new_address, now),
{
    if let Err(e) = validate_address(&new_address) {
        return Err(e);
    }
    let i = match reg.find_name(ctx.name_account.as_str()) {
        None => {
            return Err(NameRegistryError::NotInitialized);
        },
        Some(i) => i,
    };
    if !reg.names[i].owner.same_as(&ctx.owner) {
        return Err(NameRegistryError::NotNameOwner);
    }
    if let Err(e) = check_cooldown(reg.names[i].cooldown_until, now) {
        return Err(e);
    }
    if reg.find_pending(ctx.name_account.as_str()).is_some() {
        return Err(NameRegistryError::AlreadyInitialized);
    }
    let ghost s0 = reg@;
    reg.pending.push(
        PendingSlot {
            name: ctx.name_account.clone(),
            account: PendingUpdateAccount { is_initialized: true, new_address },
        },
    );
    let ghost s1 = request_address_update_step(s0, *ctx, new_address, now).0;
    assert(reg@.names =~= s1.names);
    assert(reg@.addresses =~= s1.addresses);
    assert(reg@.pending =~= s1.pending);
    Ok(())
}

/// `request_address_update_at` at the host's current time.
pub fn request_address_update(
    reg: &mut Registry,
    ctx: &RequestAddressUpdate,
    new_address: Address,
) -> (r: Result<(), NameRegistryError>)
    requires
        old(reg)@.wf(),
    ensures
        final(reg)@.wf(),
        new_address == zero_address() ==> r == Err::<(), NameRegistryError>(
            NameRegistryError::InvalidAddress,
        ) && final(reg)@ == old(reg)@,
        (r == Err::<(), NameRegistryError>(NameRegistryError::ClockUnavailable) && final(reg)@
            == old(reg)@) || exists|now: i64|
            (final(reg)@, r) == #[trigger] request_address_update_step(
                old(reg)@,
                *ctx,
                new_address,
                now,
            ),
{
    if let Err(e) = validate_address(&new_address) {
        assert(request_address_update_step(old(reg)@, *ctx, new_address, 0) == (reg@, Err::<
            (),
            NameRegistryError,
        >(e)));
        return Err(e);
    }
    let now = match current_time() {
        Ok(t) => t,
        Err(e) => {
            return Err(e);
        },
    };
    request_address_update_at(reg, ctx, new_address, now)
}

/// Removing one slot keeps the pending slots' keys distinct.
pub proof fn lemma_wf_pending_remove(a: RegistryState, b: RegistryState, k: int)
    requires
        a.wf(),
        0 <= k < a.pending.len(),
        b.names == a.names,
        b.addresses == a.addresses,
        b.pending == a.pending.remove(k),
    ensures
        b.wf(),
{
    assert forall|i: int, j: int|
        0 <= i < b.pending.len() && 0 <= j < b.pending.len() && b.pending[i].name
            == b.pending[j].name implies i == j by {
        let oi = if i < k {
            i
        } else {
            i + 1
        };
        let oj = if j < k {
            j
        } else {
            j + 1
        };
        assert(b.pending[i] == a.pending[oi]);
        assert(b.pending[j] == a.pending[oj]);
    }
}

/// Confirms, at time `now`, the pending update of `ctx.name_account`: the
/// caller, who must be the pending address, becomes the record's address
/// and owner, the cooldown restarts, and the pending slot is closed.
pub fn complete_address_update_at(reg: &mut Registry, ctx: &CompleteAddressUpdate, now: i64) -> (r:
    Result<(), NameRegistryError>)
    requires
        old(reg)@.wf(),
    ensures
        final(reg)@.wf(),
        (final(reg)@, r) == complete_address_update_step(old(reg)@, *ctx, now),
{
    let i = match reg.find_name(ctx.name_account.as_str()) {
        None => {
            return Err(NameRegistryError::NotInitialized);
        },
        Some(i) => i,
    };
    let p = match reg.find_pending(ctx.name_account.as_str()) {
        None => {
            return Err(NameRegistryError::NoPendingUpdate);
        },
        Some(p) => p,
    };
    if !reg.pending[p].account.new_address.same_as(&ctx.new_owner) {
        return Err(NameRegistryError::NotPendingAddress);
    }
    let ghost s0 = reg@;
    let record = NameAccount {
        is_initialized: reg.names[i].is_initialized,
        owner: ctx.new_owner,
        name: reg.names[i].name.clone(),
        address: ctx.new_owner,
        cooldown_until: now,
    };
    reg.names.set(i, record);
    reg.pending.remove(p);
    let ghost s1 = complete_address_update_step(s0, *ctx, now).0;
    assert(reg@.names =~= s1.names);
    assert(reg@.addresses =~= s1.addresses);
    assert(reg@.pending =~= s1.pending);
    proof {
        let mid = RegistryState {
            config: s0.config,
            names: s0.names,
            addresses: s0.addresses,
            pending: s1.pending,
        };
        lemma_wf_pending_remove(s0, mid, p as int);
        assert forall|a: int, b: int|
            0 <= a < s1.names.len() && 0 <= b < s1.names.len() && s1.names[a].name
                == s1.names[b].name implies a == b by {
            assert(s1.names[a].name == s0.names[a].name);
            assert(s1.names[b].name == s0.names[b].name);
        }
    }
    Ok(())
}

/// `complete_address_update_at` at the host's current time.
pub fn complete_address_update(reg: &mut Registry, ctx: &CompleteAddressUpdate) -> (r: Result<
    (),
    NameRegistryError,
>)
    requires
        old(reg)@.wf(),
    ensures
        final(reg)@.wf(),
        (r == Err::<(), NameRegistryError>(NameRegistryError::ClockUnavailable) && final(reg)@
            == old(reg)@) || exists|now: i64|
            (final(reg)@, r) == #[trigger] complete_address_update_step(old(reg)@, *ctx, now),
{
    let now = match current_time() {
        Ok(t) => t,
        Err(e) => {
            return Err(e);
        },
    };
    complete_address_update_at(reg, ctx, now)
}

/// Moves, at time `now`, the caller's record from `ctx.old_name_account` to
/// `new_name_string`: the record under the new name keeps the owner and
/// address with a fresh cooldown, the old name's slot is closed, and the
/// caller's address record names the new name.
pub fn rename_name_at(reg: &mut Registry, ctx: &RenameName, new_name_string: String, now: i64) -> (r:
    Result<(), NameRegistryError>)
    requires
        old(reg)@.wf(),
    ensures
        final(reg)@.wf(),
        (final(reg)@, r) == rename_name_step(old(reg)@, *ctx, new_name_string@, now),
{
    if let Err(e) = validate_name(new_name_string.as_str()) {
        return Err(e);
    }
    let i = match reg.find_name(ctx.old_name_account.as_str()) {
        None => {
            return Err(NameRegistryError::NotInitialized);
        },
        Some(i) => i,
    };
    if !reg.names[i].owner.same_as(&ctx.owner) {
        return Err(NameRegistryError::NotNameOwner);
    }
    if let Err(e) = check_cooldown(reg.names[i].cooldown_until, now) {
        return Err(e);
    }
    let a = match reg.find_identity(&ctx.owner) {
        None => {
            return Err(NameRegistryError::NotInitialized);
        },
        Some(a) => a,
    };
    if reg.find_name(new_name_string.as_str()).is_some() {
        return Err(NameRegistryError::NameTaken);
    }
    let ghost s0 = reg@;
    let record = NameAccount {
        is_initialized: true,
        owner: reg.names[i].owner,
        name: new_name_string.clone(),
        address: reg.names[i].address,
        cooldown_until: now,
    };
    reg.names.set(i, record);
    let slot = AddressSlot {
        identity: reg.addresses[a].identity,
        account: AddressAccount {
            is_initialized: reg.addresses[a].account.is_initialized,
            name: new_name_string,
        },
    };
    reg.addresses.set(a, slot);
    let ghost s1 = rename_name_step(s0, *ctx, new_name_string@, now).0;
    assert(reg@.names =~= s1.names);
    assert(reg@.addresses =~= s1.addresses);
    assert(reg@.pending =~= s1.pending);
    proof {
        assert forall|x: int, y: int|
            0 <= x < s1.names.len() && 0 <= y < s1.names.len() && s1.names[x].name
                == s1.names[y].name implies x == y by {
            if x != i && y != i {
                assert(s1.names[x] == s0.names[x]);
                assert(s1.names[y] == s0.names[y]);
            } else if x != i {
                assert(s1.names[x] == s0.names[x]);
            } else if y != i {
                assert(s1.names[y] == s0.names[y]);
            }
        }
        assert forall|x: int, y: int|
            0 <= x < s1.addresses.len() && 0 <= y < s1.addresses.len()
                && s1.addresses[x].identity == s1.addresses[y].identity implies x == y by {
            assert(s1.addresses[x].identity == s0.addresses[x].identity);
            assert(s1.addresses[y].identity == s0.addresses[y].identity);
        }
    }
    Ok(())
}

/// `rename_name_at` at the host's current time.
pub fn rename_name(reg: &mut Registry, ctx: &RenameName, new_name_string: String) -> (r: Result<
    (),
    NameRegistryError,
>)
    requires
        old(reg)@.wf(),
    ensures
        final(reg)@.wf(),
        !valid_name(new_name_string@) ==> r == Err::<(), NameRegistryError>(
            NameRegistryError::InvalidNameFormat,
        ) && final(reg)@ == old(reg)@,
        (r == Err::<(), NameRegistryError>(NameRegistryError::ClockUnavailable) && final(reg)@
            == old(reg)@) || exists|now: i64|
            (final(reg)@, r) == #[trigger] rename_name_step(
                old(reg)@,
                *ctx,
                new_name_string@,
                now,
            ),
{
    if let Err(e) = validate_name(new_name_string.as_str()) {
        assert(rename_name_step(old(reg)@, *ctx, new_name_string@, 0) == (reg@, Err::<
            (),
            NameRegistryError,
        >(e)));
        return Err(e);
    }
    let now = match current_time() {
        Ok(t) => t,
        Err(e) => {
            return Err(e);
        },
    };
    rename_name_at(reg, ctx, new_name_string, now)
}

} // verus!
