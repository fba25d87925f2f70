//! Properties that hold across operations of the registry.
use crate::error::NameRegistryError;
use crate::registry::{
    accept_program_ownership_step, change_program_owner_step, complete_address_update_step,
    lemma_wf_pending_remove, register_name_step, rename_name_step, request_address_update_step,
    AcceptProgramOwnership, ChangeProgramOwner, CompleteAddressUpdate, RegisterName, RenameName,
    RequestAddressUpdate,
};
use crate::state::{
    lemma_address_record_at, lemma_name_record_at, zero_address, Address, NameRecord,
    RegistryState,
};
use crate::validation::valid_name;
use vstd::prelude::*;

verus! {

/// A successful registration creates the one record of `name`, owned by
/// and pointing at the caller, with its cooldown set to `now`, and the
/// caller's address record naming it; any later registration of `name`,
/// by any caller, fails with `NameTaken`.
pub proof fn lemma_register_name_exclusive(
    s: RegistryState,
    first: RegisterName,
    second: RegisterName,
    name: Seq<char>,
    now: i64,
    later: i64,
)
    requires
        s.wf(),
        register_name_step(s, first, name, now).1 is Ok,
    ensures
        ({
            let s1 = register_name_step(s, first, name, now).0;
            &&& s1.wf()
            &&& s1.name_record(name) == Some(
                NameRecord {
                    is_initialized: true,
                    owner: first.registrant,
                    name,
                    address: first.registrant,
                    cooldown_until: now,
                },
            )
            &&& s1.address_record(first.registrant) matches Some(e) && e.name == name
            &&& register_name_step(s1, second, name, later).1 == Err::<
                crate::registry::FeeTransfer,
                NameRegistryError,
            >(NameRegistryError::NameTaken)
        }),
{
    let s1 = register_name_step(s, first, name, now).0;
    assert forall|i: int, j: int|
        0 <= i < s1.names.len() && 0 <= j < s1.names.len() && s1.names[i].name
            == s1.names[j].name implies i == j by {
        if i < s.names.len() {
            assert(s1.names[i] == s.names[i]);
        }
        if j < s.names.len() {
            assert(s1.names[j] == s.names[j]);
        }
    }
    assert forall|i: int, j: int|
        0 <= i < s1.addresses.len() && 0 <= j < s1.addresses.len()
            && s1.addresses[i].identity == s1.addresses[j].identity implies i == j by {
        if i < s.addresses.len() {
            assert(s1.addresses[i] == s.addresses[i]);
        }
        if j < s.addresses.len() {
            assert(s1.addresses[j] == s.addresses[j]);
        }
    }
    lemma_name_record_at(s1, s.names.len() as int);
    lemma_address_record_at(s1, s.addresses.len() as int);
}

/// Completing an address update succeeds only for the caller named by the
/// pending update; afterwards that caller is both owner and address of the
/// record, its cooldown restarts at `now`, and no pending update remains.
pub proof fn lemma_complete_address_update(s: RegistryState, ctx: CompleteAddressUpdate, now: i64)
    requires
        s.wf(),
    ensures
        ({
            let (s1, r) = complete_address_update_step(s, ctx, now);
            let n = ctx.name_account@;
            r is Ok ==> {
                &&& s.pending_record(n) matches Some(p) && p.new_address == ctx.new_owner
                &&& s1.wf()
                &&& s1.name_record(n) matches Some(rec) && rec.owner == ctx.new_owner
                    && rec.address == ctx.new_owner && rec.cooldown_until == now
                &&& s1.pending_record(n) is None
            }
        }),
{
    let (s1, r) = complete_address_update_step(s, ctx, now);
    let n = ctx.name_account@;
    if r is Ok {
        let i = s.name_index(n);
        let k = s.pending_index(n);
        let mid = RegistryState {
            config: s.config,
            names: s.names,
            addresses: s.addresses,
            pending: s1.pending,
        };
        lemma_wf_pending_remove(s, mid, k);
        assert forall|a: int, b: int|
            0 <= a < s1.names.len() && 0 <= b < s1.names.len() && s1.names[a].name
                == s1.names[b].name implies a == b by {
            assert(s1.names[a].name == s.names[a].name);
            assert(s1.names[b].name == s.names[b].name);
        }
        assert(s1.names[i].name == n);
        lemma_name_record_at(s1, i);
        assert forall|j: int| 0 <= j < s1.pending.len() implies #[trigger] s1.pending[j].name
            != n by {
            let oj = if j < k {
                j
            } else {
                j + 1
            };
            assert(s1.pending[j] == s.pending[oj]);
        }
    }
}

/// A successful rename is a move: the record under the new name has the old
/// record's owner and address and a cooldown of `now`, the old name has no
/// record, every other name keeps its record, and the owner's address record
/// names the new name.
pub proof fn lemma_rename_name_effect(
    s: RegistryState,
    ctx: RenameName,
    new_name: Seq<char>,
    now: i64,
)
    requires
        s.wf(),
    ensures
        ({
            let (s1, r) = rename_name_step(s, ctx, new_name, now);
            let old_name = ctx.old_name_account@;
            r is Ok ==> {
                &&& s.name_record(old_name) is Some
                &&& s1.wf()
                &&& s1.name_record(new_name) == Some(
                    NameRecord {
                        is_initialized: true,
                        owner: s.name_record(old_name)->0.owner,
                        name: new_name,
                        address: s.name_record(old_name)->0.address,
                        cooldown_until: now,
                    },
                )
                &&& s1.name_record(old_name) is None
                &&& forall|m: Seq<char>|
                    m != old_name && m != new_name ==> #[trigger] s1.name_record(m)
                        == s.name_record(m)
                &&& s1.address_record(ctx.owner) matches Some(e) && e.name == new_name
                &&& s1.pending == s.pending
                &&& s1.config == s.config
            }
        }),
{
    let (s1, r) = rename_name_step(s, ctx, new_name, now);
    let old_name = ctx.old_name_account@;
    if r is Ok {
        let i = s.name_index(old_name);
        let a = s.identity_index(ctx.owner);
        assert forall|x: int, y: int|
            0 <= x < s1.names.len() && 0 <= y < s1.names.len() && s1.names[x].name
                == s1.names[y].name implies x == y by {
            if x != i {
                assert(s1.names[x] == s.names[x]);
            }
            if y != i {
                assert(s1.names[y] == s.names[y]);
            }
        }
        assert forall|x: int, y: int|
            0 <= x < s1.addresses.len() && 0 <= y < s1.addresses.len()
                && s1.addresses[x].identity == s1.addresses[y].identity implies x == y by {
            assert(s1.addresses[x].identity == s.addresses[x].identity);
            assert(s1.addresses[y].identity == s.addresses[y].identity);
        }
        lemma_name_record_at(s1, i);
        lemma_address_record_at(s1, a);
        assert forall|j: int| 0 <= j < s1.names.len() implies #[trigger] s1.names[j].name
            != old_name by {
            if j != i {
                assert(s1.names[j] == s.names[j]);
            }
        }
        assert forall|m: Seq<char>| m != old_name && m != new_name implies #[trigger] s1.name_record(
            m,
        ) == s.name_record(m) by {
            if s.has_name(m) {
                let j = s.name_index(m);
                assert(s1.names[j] == s.names[j]);
                lemma_name_record_at(s1, j);
            }
            if s1.has_name(m) {
                let j = s1.name_index(m);
                assert(s1.names[j] == s.names[j]);
            }
        }
    }
}

/// While a record's cooldown runs, that is at any time `t` before its
/// `cooldown_until`, both cooldown-gated operations by its owner fail with
/// `CooldownNotOver` (when their other arguments are well-formed).
pub proof fn lemma_cooldown_gate(
    s: RegistryState,
    request: RequestAddressUpdate,
    new_address: Address,
    rename: RenameName,
    new_name: Seq<char>,
    t: i64,
)
    requires
        s.wf(),
        request.name_account@ == rename.old_name_account@,
        s.name_record(request.name_account@) matches Some(rec) && t < rec.cooldown_until
            && request.owner == rec.owner && rename.owner == rec.owner,
        new_address != zero_address(),
        valid_name(new_name),
    ensures
        request_address_update_step(s, request, new_address, t).1 == Err::<(), NameRegistryError>(
            NameRegistryError::CooldownNotOver,
        ),
        rename_name_step(s, rename, new_name, t).1 == Err::<(), NameRegistryError>(
            NameRegistryError::CooldownNotOver,
        ),
{
}

/// After `name` is registered at `now`, its registrant's request for an
/// address update or rename of it at any time `t` before `now` fails with
/// `CooldownNotOver`.
pub proof fn lemma_cooldown_after_register(
    s: RegistryState,
    ctx: RegisterName,
    name: Seq<char>,
    now: i64,
    request: RequestAddressUpdate,
    new_address: Address,
    rename: RenameName,
    new_name: Seq<char>,
    t: i64,
)
    requires
        s.wf(),
        register_name_step(s, ctx, name, now).1 is Ok,
        request.name_account@ == name,
        rename.old_name_account@ == name,
        request.owner == ctx.registrant,
        rename.owner == ctx.registrant,
        new_address != zero_address(),
        valid_name(new_name),
        t < now,
    ensures
        ({
            let s1 = register_name_step(s, ctx, name, now).0;
            &&& request_address_update_step(s1, request, new_address, t).1 == Err::<
                (),
                NameRegistryError,
            >(NameRegistryError::CooldownNotOver)
            &&& rename_name_step(s1, rename, new_name, t).1 == Err::<(), NameRegistryError>(
                NameRegistryError::CooldownNotOver,
            )
        }),
{
    let s1 = register_name_step(s, ctx, name, now).0;
    lemma_register_name_exclusive(s, ctx, ctx, name, now, now);
    lemma_cooldown_gate(s1, request, new_address, rename, new_name, t);
}

/// Once an address update completes, the name belongs to the new address
/// alone: any other caller's request for an address update, or rename, of
/// that name is refused with `NotNameOwner`.
pub proof fn lemma_previous_owner_refused(
    s: RegistryState,
    done: CompleteAddressUpdate,
    now: i64,
    request: RequestAddressUpdate,
    new_address: Address,
    rename: RenameName,
    new_name: Seq<char>,
    t: i64,
)
    requires
        s.wf(),
        complete_address_update_step(s, done, now).1 is Ok,
        request.name_account@ == done.name_account@,
        rename.old_name_account@ == done.name_account@,
        request.owner != done.new_owner,
        rename.owner != done.new_owner,
        new_address != zero_address(),
        valid_name(new_name),
    ensures
        ({
            let s1 = complete_address_update_step(s, done, now).0;
            &&& request_address_update_step(s1, request, new_address, t).1 == Err::<
                (),
                NameRegistryError,
            >(NameRegistryError::NotNameOwner)
            &&& rename_name_step(s1, rename, new_name, t).1 == Err::<(), NameRegistryError>(
                NameRegistryError::NotNameOwner,
            )
        }),
{
    lemma_complete_address_update(s, done, now);
}

/// Renaming a name away and, once the cooldown is over, back again restores
/// its record's owner and address, leaves no record under the intermediate
/// name, and leaves the owner's address record naming the original name.
pub proof fn lemma_rename_round_trip(
    s: RegistryState,
    there: RenameName,
    new_name: Seq<char>,
    t1: i64,
    back: RenameName,
    t2: i64,
)
    requires
        s.wf(),
        rename_name_step(s, there, new_name, t1).1 is Ok,
        back.owner == there.owner,
        back.old_name_account@ == new_name,
        t1 <= t2,
    ensures
        ({
            let old_name = there.old_name_account@;
            let s1 = rename_name_step(s, there, new_name, t1).0;
            let (s2, r) = rename_name_step(s1, back, old_name, t2);
            &&& r is Ok
            &&& s2.name_record(old_name) == Some(
                NameRecord {
                    is_initialized: true,
                    owner: s.name_record(old_name)->0.owner,
                    name: old_name,
                    address: s.name_record(old_name)->0.address,
                    cooldown_until: t2,
                },
            )
            &&& s2.name_record(new_name) is None
            &&& s2.address_record(there.owner) matches Some(e) && e.name == old_name
        }),
{
    let old_name = there.old_name_account@;
    let s1 = rename_name_step(s, there, new_name, t1).0;
    lemma_rename_name_effect(s, there, new_name, t1);
    let k = s.name_index(old_name);
    assert(s.names[k].name == old_name);
    assert(valid_name(old_name));
    assert(s1.has_name(new_name));
    assert(s1.has_identity(there.owner));
    lemma_rename_name_effect(s1, back, old_name, t2);
}

/// Accepting the registry's ownership succeeds only for the nonzero
/// identity that is pending; afterwards it owns the registry and no
/// owner is pending.
pub proof fn lemma_accept_program_ownership(s: RegistryState, ctx: AcceptProgramOwnership)
    requires
        s.wf(),
    ensures
        ({
            let (s1, r) = accept_program_ownership_step(s, ctx);
            r is Ok ==> {
                &&& s.config matches Some(c) && c.pending_owner == ctx.pending_main_owner
                    && c.pending_owner != zero_address()
                &&& s1.config matches Some(c1) && c1.owner == ctx.pending_main_owner
                    && c1.pending_owner == zero_address()
            }
        }),
{
}

/// After the owner proposes `candidate`, acceptance succeeds exactly for
/// `candidate`.
pub proof fn lemma_change_then_accept(
    s: RegistryState,
    change: ChangeProgramOwner,
    candidate: Address,
    accept: AcceptProgramOwnership,
)
    requires
        s.wf(),
        change_program_owner_step(s, change, candidate).1 is Ok,
    ensures
        accept_program_ownership_step(change_program_owner_step(s, change, candidate).0, accept).1 is Ok
            <==> accept.pending_main_owner == candidate,
{
}

} // verus!
