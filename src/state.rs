//! The records kept in the host's storage slots, and the store that holds them.
use crate::validation::{valid_name, validate_name};
use vstd::prelude::*;

verus! {

/// Longest name that a record can hold.
pub const MAX_NAME_LENGTH: usize = 32;

/// An opaque fixed-width identity or address; all zero bytes means "unset".
#[derive(Debug, Clone, Copy)]
pub struct Address {
    pub bytes: [u8; 32],
}

/// The "unset" sentinel.
pub open spec fn zero_address() -> Address {
    Address { bytes: vstd::array::spec_array_fill_for_copy_type::<u8, 32>(0u8) }
}

impl Address {
    /// The "unset" sentinel.
    pub fn zero() -> (r: Address)
        ensures
            r == zero_address(),
    {
        Address { bytes: [0u8; 32] }
    }

    /// Whether two addresses hold the same bytes.
    pub fn same_as(&self, other: &Address) -> (r: bool)
        ensures
            r == (*self == *other),
    {
        let mut i: usize = 0;
        while i < 32
            invariant
                0 <= i <= 32,
                forall|j: int| 0 <= j < i ==> self.bytes[j] == other.bytes[j],
            decreases 32 - i,
        {
            if self.bytes[i] != other.bytes[i] {
                return false;
            }
            i = i + 1;
        }
        assert(self.bytes =~= other.bytes);
        true
    }

    /// Whether this is the "unset" sentinel.
    pub fn is_zero(&self) -> (r: bool)
        ensures
            r == (*self == zero_address()),
    {
        let z = Address::zero();
        self.same_as(&z)
    }
}

/// Whether two strings hold the same characters.
pub fn same_text(a: &str, b: &str) -> (r: bool)
    ensures
        r == (a@ == b@),
{
    let n = a.unicode_len();
    if n != b.unicode_len() {
        return false;
    }
    let mut i: usize = 0;
    while i < n
        invariant
            n == a@.len(),
            n == b@.len(),
            0 <= i <= n,
            forall|j: int| 0 <= j < i ==> a@[j] == b@[j],
        decreases n - i,
    {
        if a.get_char(i) != b.get_char(i) {
            return false;
        }
        i = i + 1;
    }
    assert(a@ =~= b@);
    true
}

/// The record of one registered name.
#[derive(Debug, Clone)]
pub struct NameAccount {
    pub is_initialized: bool,
    pub owner: Address,
    pub name: String,
    pub address: Address,
    pub cooldown_until: i64,
}

/// What a `NameAccount` holds, with its name as characters.
pub struct NameRecord {
    pub is_initialized: bool,
    pub owner: Address,
    pub name: Seq<char>,
    pub address: Address,
    pub cooldown_until: i64,
}

impl View for NameAccount {
    type V = NameRecord;

    open spec fn view(&self) -> NameRecord {
        NameRecord {
            is_initialized: self.is_initialized,
            owner: self.owner,
            name: self.name@,
            address: self.address,
            cooldown_until: self.cooldown_until,
        }
    }
}

/// The name currently associated with one identity.
#[derive(Debug, Clone)]
pub struct AddressAccount {
    pub is_initialized: bool,
    pub name: String,
}

/// An address update that waits for the new address to confirm it.
#[derive(Debug, Clone, Copy)]
pub struct PendingUpdateAccount {
    pub is_initialized: bool,
    pub new_address: Address,
}

/// The registry's single configuration record.
#[derive(Debug, Clone, Copy)]
pub struct ProgramConfig {
    pub is_initialized: bool,
    pub owner: Address,
    /// The proposed next owner, or the zero address when none is proposed.
    pub pending_owner: Address,
    pub registration_fee: u64,
}

/// The address slot of one identity.
#[derive(Debug, Clone)]
pub struct AddressSlot {
    pub identity: Address,
    pub account: AddressAccount,
}

/// What an `AddressSlot` holds.
pub struct AddressEntry {
    pub identity: Address,
    pub is_initialized: bool,
    pub name: Seq<char>,
}

impl View for AddressSlot {
    type V = AddressEntry;

    open spec fn view(&self) -> AddressEntry {
        AddressEntry {
            identity: self.identity,
            is_initialized: self.account.is_initialized,
            name: self.account.name@,
        }
    }
}

/// The pending-update slot of the name record called `name`.
#[derive(Debug, Clone)]
pub struct PendingSlot {
    pub name: String,
    pub account: PendingUpdateAccount,
}

/// What a `PendingSlot` holds.
pub struct PendingEntry {
    pub name: Seq<char>,
    pub is_initialized: bool,
    pub new_address: Address,
}

impl View for PendingSlot {
    type V = PendingEntry;

    open spec fn view(&self) -> PendingEntry {
        PendingEntry {
            name: self.name@,
            is_initialized: self.account.is_initialized,
            new_address: self.account.new_address,
        }
    }
}

/// Every storage slot of the registry: the configuration, and the name,
/// address and pending-update slots, each kind keyed by its derivation input.
#[derive(Debug, Clone)]
pub struct Registry {
    pub config: Option<ProgramConfig>,
    pub names: Vec<NameAccount>,
    pub addresses: Vec<AddressSlot>,
    pub pending: Vec<PendingSlot>,
}

/// The abstract state of a `Registry`.
pub struct RegistryState {
    pub config: Option<ProgramConfig>,
    pub names: Seq<NameRecord>,
    pub addresses: Seq<AddressEntry>,
    pub pending: Seq<PendingEntry>,
}

impl View for Registry {
    type V = RegistryState;

    open spec fn view(&self) -> RegistryState {
        RegistryState {
            config: self.config,
            names: self.names@.map_values(|a: NameAccount| a@),
            addresses: self.addresses@.map_values(|a: AddressSlot| a@),
            pending: self.pending@.map_values(|p: PendingSlot| p@),
        }
    }
}

impl RegistryState {
    /// Every name record holds a well-formed name, and slot creation is
    /// exclusive: no two slots of a kind share a key.
    pub open spec fn wf(self) -> bool {
        &&& forall|i: int| 0 <= i < self.names.len() ==> valid_name(#[trigger] self.names[i].name)
        &&& forall|i: int, j: int|
            #![trigger self.names[i], self.names[j]]
            0 <= i < self.names.len() && 0 <= j < self.names.len() && self.names[i].name
                == self.names[j].name ==> i == j
        &&& forall|i: int, j: int|
            #![trigger self.addresses[i], self.addresses[j]]
            0 <= i < self.addresses.len() && 0 <= j < self.addresses.len()
                && self.addresses[i].identity == self.addresses[j].identity
                ==> i == j
        &&& forall|i: int, j: int|
            #![trigger self.pending[i], self.pending[j]]
            0 <= i < self.pending.len() && 0 <= j < self.pending.len() && self.pending[i].name
                == self.pending[j].name ==> i == j
    }

    pub open spec fn has_name(self, n: Seq<char>) -> bool {
        exists|i: int| 0 <= i < self.names.len() && #[trigger] self.names[i].name == n
    }

    /// Position of the name slot keyed by `n` (meaningful when it exists).
    pub open spec fn name_index(self, n: Seq<char>) -> int {
        choose|i: int| 0 <= i < self.names.len() && #[trigger] self.names[i].name == n
    }

    /// The name record keyed by `n`, if that slot exists.
    pub open spec fn name_record(self, n: Seq<char>) -> Option<NameRecord> {
        if self.has_name(n) {
            Some(self.names[self.name_index(n)])
        } else {
            None
        }
    }

    pub open spec fn has_identity(self, a: Address) -> bool {
        exists|i: int| 0 <= i < self.addresses.len() && #[trigger] self.addresses[i].identity == a
    }

    pub open spec fn identity_index(self, a: Address) -> int {
        choose|i: int| 0 <= i < self.addresses.len() && #[trigger] self.addresses[i].identity == a
    }

    /// The address record of identity `a`, if that slot exists.
    pub open spec fn address_record(self, a: Address) -> Option<AddressEntry> {
        if self.has_identity(a) {
            Some(self.addresses[self.identity_index(a)])
        } else {
            None
        }
    }

    pub open spec fn has_pending(self, n: Seq<char>) -> bool {
        exists|i: int| 0 <= i < self.pending.len() && #[trigger] self.pending[i].name == n
    }

    pub open spec fn pending_index(self, n: Seq<char>) -> int {
        choose|i: int| 0 <= i < self.pending.len() && #[trigger] self.pending[i].name == n
    }

    /// The pending update of the name record keyed by `n`, if that slot exists.
    pub open spec fn pending_record(self, n: Seq<char>) -> Option<PendingEntry> {
        if self.has_pending(n) {
            Some(self.pending[self.pending_index(n)])
        } else {
            None
        }
    }
}

impl Registry {
    /// A registry with no slot at all.
    pub fn new() -> (r: Registry)
        ensures
            r@.config is None,
            r@.names.len() == 0,
            r@.addresses.len() == 0,
            r@.pending.len() == 0,
            r@.wf(),
    {
        Registry { config: None, names: Vec::new(), addresses: Vec::new(), pending: Vec::new() }
    }

    /// Position of the name slot keyed by `n`.
    pub fn find_name(&self, n: &str) -> (r: Option<usize>)
        requires
            self@.wf(),
        ensures
            r is None <==> !self@.has_name(n@),
            r matches Some(i) ==> i < self.names.len() && i == self@.name_index(n@)
                && self@.names[i as int].name == n@,
    {
        let mut i: usize = 0;
        while i < self.names.len()
            invariant
                self@.wf(),
                0 <= i <= self.names.len(),
                forall|j: int| 0 <= j < i ==> self@.names[j].name != n@,
            decreases self.names.len() - i,
        {
            if same_text(self.names[i].name.as_str(), n) {
                proof {
                    assert(self@.names[i as int].name == n@);
                    assert(self@.has_name(n@));
                    let k = self@.name_index(n@);
                    assert(self@.names[k].name == self@.names[i as int].name);
                }
                return Some(i);
            }
            i = i + 1;
        }
        None
    }
}

impl Registry {
    /// Position of the address slot of identity `a`.
    pub fn find_identity(&self, a: &Address) -> (r: Option<usize>)
        requires
            self@.wf(),
        ensures
            r is None <==> !self@.has_identity(*a),
            r matches Some(i) ==> i < self.addresses.len() && i == self@.identity_index(*a)
                && self@.addresses[i as int].identity == *a,
    {
        let mut i: usize = 0;
        while i < self.addresses.len()
            invariant
                self@.wf(),
                0 <= i <= self.addresses.len(),
                forall|j: int| 0 <= j < i ==> self@.addresses[j].identity != *a,
            decreases self.addresses.len() - i,
        {
            if self.addresses[i].identity.same_as(a) {
                proof {
                    assert(self@.addresses[i as int].identity == *a);
                    assert(self@.has_identity(*a));
                    let k = self@.identity_index(*a);
                    assert(self@.addresses[k].identity == self@.addresses[i as int].identity);
                }
                return Some(i);
            }
            i = i + 1;
        }
        None
    }

    /// Position of the pending-update slot of the name record keyed by `n`.
    pub fn find_pending(&self, n: &str) -> (r: Option<usize>)
        requires
            self@.wf(),
        ensures
            r is None <==> !self@.has_pending(n@),
            r matches Some(i) ==> i < self.pending.len() && i == self@.pending_index(n@)
                && self@.pending[i as int].name == n@,
    {
        let mut i: usize = 0;
        while i < self.pending.len()
            invariant
                self@.wf(),
                0 <= i <= self.pending.len(),
                forall|j: int| 0 <= j < i ==> self@.pending[j].name != n@,
            decreases self.pending.len() - i,
        {
            if same_text(self.pending[i].name.as_str(), n) {
                proof {
                    assert(self@.pending[i as int].name == n@);
                    assert(self@.has_pending(n@));
                    let k = self@.pending_index(n@);
                    assert(self@.pending[k].name == self@.pending[i as int].name);
                }
                return Some(i);
            }
            i = i + 1;
        }
        None
    }
}

impl Registry {
    /// Whether no two slots of a kind share a key.
    pub fn is_well_formed(&self) -> (r: bool)
        ensures
            r == self@.wf(),
    {
        let n = self.names.len();
        let mut i: usize = 0;
        while i < n
            invariant
                n == self.names.len(),
                0 <= i <= n,
                forall|a: int, b: int|
                    0 <= a < i && a < b < n ==> self@.names[a].name != self@.names[b].name,
            decreases n - i,
        {
            let mut j: usize = i + 1;
            while j < n
                invariant
                    n == self.names.len(),
                    0 <= i < n,
                    i + 1 <= j <= n,
                    forall|a: int, b: int|
                        0 <= a < i && a < b < n ==> self@.names[a].name != self@.names[b].name,
                    forall|b: int| i < b < j ==> self@.names[i as int].name != self@.names[b].name,
                decreases n - j,
            {
                if same_text(self.names[i].name.as_str(), self.names[j].name.as_str()) {
                    assert(self@.names[i as int].name == self@.names[j as int].name);
                    return false;
                }
                j = j + 1;
            }
            i = i + 1;
        }
        let m = self.addresses.len();
        let mut i: usize = 0;
        while i < m
            invariant
                m == self.addresses.len(),
                0 <= i <= m,
                forall|a: int, b: int|
                    0 <= a < i && a < b < m ==> self@.addresses[a].identity
                        != self@.addresses[b].identity,
            decreases m - i,
        {
            let mut j: usize = i + 1;
            while j < m
                invariant
                    m == self.addresses.len(),
                    0 <= i < m,
                    i + 1 <= j <= m,
                    forall|a: int, b: int|
                        0 <= a < i && a < b < m ==> self@.addresses[a].identity
                            != self@.addresses[b].identity,
                    forall|b: int|
                        i < b < j ==> self@.addresses[i as int].identity
                            != self@.addresses[b].identity,
                decreases m - j,
            {
                if self.addresses[i].identity.same_as(&self.addresses[j].identity) {
                    assert(self@.addresses[i as int].identity == self@.addresses[j as int].identity);
                    return false;
                }
                j = j + 1;
            }
            i = i + 1;
        }
        let k = self.pending.len();
        let mut i: usize = 0;
        while i < k
            invariant
                k == self.pending.len(),
                0 <= i <= k,
                forall|a: int, b: int|
                    0 <= a < i && a < b < k ==> self@.pending[a].name != self@.pending[b].name,
            decreases k - i,
        {
            let mut j: usize = i + 1;
            while j < k
                invariant
                    k == self.pending.len(),
                    0 <= i < k,
                    i + 1 <= j <= k,
                    forall|a: int, b: int|
                        0 <= a < i && a < b < k ==> self@.pending[a].name != self@.pending[b].name,
                    forall|b: int|
                        i < b < j ==> self@.pending[i as int].name != self@.pending[b].name,
                decreases k - j,
            {
                if same_text(self.pending[i].name.as_str(), self.pending[j].name.as_str()) {
                    assert(self@.pending[i as int].name == self@.pending[j as int].name);
                    return false;
                }
                j = j + 1;
            }
            i = i + 1;
        }
        let mut v: usize = 0;
        while v < n
            invariant
                n == self.names.len(),
                0 <= v <= n,
                forall|j: int| 0 <= j < v ==> valid_name(#[trigger] self@.names[j].name),
            decreases n - v,
        {
            if validate_name(self.names[v].name.as_str()).is_err() {
                assert(!valid_name(self@.names[v as int].name));
                return false;
            }
            v = v + 1;
        }
        proof {
            assert forall|a: int, b: int|
                #![trigger self@.names[a], self@.names[b]]
                0 <= a < n && 0 <= b < n && self@.names[a].name == self@.names[b].name implies a
                == b by {
                if a < b {
                } else if b < a {
                }
            }
            assert forall|a: int, b: int|
                #![trigger self@.addresses[a], self@.addresses[b]]
                0 <= a < m && 0 <= b < m && self@.addresses[a].identity
                    == self@.addresses[b].identity implies a == b by {
                if a < b {
                } else if b < a {
                }
            }
            assert forall|a: int, b: int|
                #![trigger self@.pending[a], self@.pending[b]]
                0 <= a < k && 0 <= b < k && self@.pending[a].name == self@.pending[b].name implies a
                == b by {
                if a < b {
                } else if b < a {
                }
            }
        }
        true
    }
}

/// In a well-formed state, looking a name up finds the slot that holds it.
pub proof fn lemma_name_record_at(s: RegistryState, i: int)
    requires
        s.wf(),
        0 <= i < s.names.len(),
    ensures
        s.has_name(s.names[i].name),
        s.name_index(s.names[i].name) == i,
        s.name_record(s.names[i].name) == Some(s.names[i]),
{
    assert(s.has_name(s.names[i].name));
    let k = s.name_index(s.names[i].name);
    assert(s.names[k].name == s.names[i].name);
}

/// In a well-formed state, looking an identity up finds the slot that holds it.
pub proof fn lemma_address_record_at(s: RegistryState, i: int)
    requires
        s.wf(),
        0 <= i < s.addresses.len(),
    ensures
        s.has_identity(s.addresses[i].identity),
        s.identity_index(s.addresses[i].identity) == i,
        s.address_record(s.addresses[i].identity) == Some(s.addresses[i]),
{
    assert(s.has_identity(s.addresses[i].identity));
    let k = s.identity_index(s.addresses[i].identity);
    assert(s.addresses[k].identity == s.addresses[i].identity);
}

} // verus!
