use vstd::prelude::*;

use crate::validation::{valid_btc_public_key, valid_name};

verus! {

/// An identity on the host ledger: 32 raw bytes. Stands both for the signing
/// identities the host hands to a request and for derived account addresses.
#[derive(Clone, Copy, Debug, PartialEq, Eq, Hash)]
pub struct Pubkey {
    pub bytes: [u8; 32],
}

impl View for Pubkey {
    type V = Seq<u8>;

    open spec fn view(&self) -> Seq<u8> {
        self.bytes@
    }
}

impl Pubkey {
    /// Compares two identities byte for byte.
    pub fn key_eq(&self, other: &Pubkey) -> (r: bool)
        ensures
            r <==> self@ == other@,
    {
        let mut i: usize = 0;
        while i < 32
            invariant
                0 <= i <= 32,
                forall|j: int| 0 <= j < i ==> self.bytes@[j] == other.bytes@[j],
            decreases 32 - i,
        {
            if self.bytes[i] != other.bytes[i] {
                return false;
            }
            i += 1;
        }
        proof {
            assert(self@ =~= other@);
        }
        true
    }
}

/// The registry of operators: one record per deployment authority, holding
/// the admission floor and the aggregate counters.
#[derive(Clone, Debug, PartialEq, Eq)]
pub struct Registry {
    /// The identity permitted to change registry-wide settings.
    pub authority: Pubkey,
    /// The stake floor for operator admission; positive by construction.
    pub min_stake_weight: u64,
    /// How many operators have been registered; never decremented.
    pub operator_count: u64,
    /// The aggregate stake across operators; never decremented.
    pub total_stake: u64,
}

impl Registry {
    /// The registry invariant: the admission floor is positive.
    pub open spec fn wf(&self) -> bool {
        self.min_stake_weight > 0
    }

    /// The bytes the provisioning collaborator must allocate for a registry
    /// record: the type discriminator, the authority, and three u64 fields.
    pub fn account_size() -> (r: u64)
        ensures
            r == 8 + 32 + 8 + 8 + 8,
    {
        8 + 32 + 8 + 8 + 8
    }
}

/// A registered application: a participant record under one authority.
#[derive(Clone, Debug, PartialEq, Eq)]
pub struct App {
    /// The identity controlling this record; immutable after creation.
    pub authority: Pubkey,
    /// The application's name; non-empty and at most 32 characters.
    pub name: String,
    /// Free-form metadata describing the application.
    pub metadata: String,
    /// The registrant's Bitcoin public key, where it registered one;
    /// validated at creation when present.
    pub btc_public_key: Option<String>,
    /// Whether the application is currently active.
    pub is_active: bool,
    /// When the record was created; immutable after creation.
    pub created_at: i64,
}

impl App {
    /// The application invariant: the name passed validation, and so did the
    /// Bitcoin public key where one was registered.
    pub open spec fn wf(&self) -> bool {
        &&& valid_name(self.name@)
        &&& (self.btc_public_key matches Some(k) ==> valid_btc_public_key(k@))
    }

    /// The bytes the provisioning collaborator must allocate for an
    /// application record: the type discriminator, the authority, the fixed
    /// budgets for the name and the metadata, the active flag, and the
    /// creation timestamp.
    pub fn account_size() -> (r: u64)
        ensures
            r == 8 + 32 + 32 + 200 + 1 + 8,
    {
        8 + 32 + 32 + 200 + 1 + 8
    }
}

/// A custodial Bitcoin pod: a balance account bound to one owner and one
/// Bitcoin-side custody key.
#[derive(Clone, Debug, PartialEq, Eq)]
pub struct Pod {
    /// The owning identity; immutable after creation.
    pub authority: Pubkey,
    /// The 66-digit hexadecimal compressed Bitcoin public key.
    pub btc_public_key: String,
    /// Whether the pod accepts deposits.
    pub is_active: bool,
    /// The confirmed balance; only ever increased, with checked addition.
    pub balance: u64,
    /// When the pod was created; immutable after creation.
    pub created_at: i64,
    /// Refreshed on every mutating operation.
    pub last_updated: i64,
}

impl Pod {
    /// The pod invariant: the stored key passed validation.
    pub open spec fn wf(&self) -> bool {
        valid_btc_public_key(self.btc_public_key@)
    }

    /// The bytes the provisioning collaborator must allocate for a pod
    /// record: the type discriminator, the authority, the length-prefixed
    /// 66-digit key, the active flag, the balance, and the two timestamps.
    pub fn account_size() -> (r: u64)
        ensures
            r == 8 + 32 + (4 + 66) + 1 + 8 + 8 + 8,
    {
        8 + 32 + (4 + 66) + 1 + 8 + 8 + 8
    }
}

/// The request to create a Bitcoin pod: the signing owner together with the
/// custody key the pod is to be bound to.
pub struct CreateBitcoinPod {
    /// The identity that signed the request and will own the pod.
    pub owner: Pubkey,
    /// The claimed Bitcoin public key, validated before the pod is created.
    pub btc_public_key: String,
}

} // verus!
