use vstd::prelude::*;

use crate::address::{key_prefix, key_prefix_bytes, pod_pda, verify_pod_address};
use crate::errors::BitDSMError;
use crate::state::{App, CreateBitcoinPod, Pod, Pubkey, Registry};
use crate::validation::{
    checked_add, valid_btc_public_key, valid_name, validate_btc_public_key, validate_name,
    validate_positive, MAX_NAME_LEN,
};

verus! {

/// Creates the registry for the given authority: counters at zero, the given
/// admission floor. A zero floor is rejected with `InvalidStakeWeight`.
pub fn initialize_registry(authority: &Pubkey, min_stake_weight: u64) -> (r: Result<
    Registry,
    BitDSMError,
>)
    ensures
        r is Ok <==> min_stake_weight > 0,
        (match r {
            Ok(reg) => reg == (Registry {
                authority: *authority,
                min_stake_weight,
                operator_count: 0,
                total_stake: 0,
            }) && reg.wf(),
            Err(e) => e == BitDSMError::InvalidStakeWeight,
        }),
{
    if min_stake_weight == 0 {
        return Err(BitDSMError::InvalidStakeWeight);
    }
    Ok(Registry { authority: *authority, min_stake_weight, operator_count: 0, total_stake: 0 })
}

/// Whether an optional registrant key passes validation: a missing key
/// always does, a present one must be 66 hexadecimal digits.
pub open spec fn valid_optional_key(key: Option<String>) -> bool {
    match key {
        Some(k) => valid_btc_public_key(k@),
        None => true,
    }
}

/// Registers an application under the signing authority: active, created
/// now. The name must be non-empty and within the length bound, and the
/// Bitcoin public key, where the registrant supplies one, must be 66
/// hexadecimal digits.
pub fn register_app(
    authority: &Pubkey,
    app_name: String,
    app_metadata: String,
    btc_public_key: Option<String>,
    now: i64,
) -> (r: Result<App, BitDSMError>)
    ensures
        r is Ok <==> valid_name(app_name@) && valid_optional_key(btc_public_key),
        (match r {
            Ok(app) => app == (App {
                authority: *authority,
                name: app_name,
                metadata: app_metadata,
                btc_public_key,
                is_active: true,
                created_at: now,
            }) && app.wf(),
            Err(e) => {
                &&& (app_name@.len() == 0 ==> e == BitDSMError::InvalidAppName)
                &&& (app_name@.len() > MAX_NAME_LEN ==> e == BitDSMError::AppNameTooLong)
                &&& (valid_name(app_name@) ==> e == BitDSMError::InvalidBtcKey)
            },
        }),
{
    match validate_name(app_name.as_str()) {
        Ok(()) => {},
        Err(e) => {
            return Err(e);
        },
    }
    match &btc_public_key {
        Some(k) => {
            match validate_btc_public_key(k.as_str()) {
                Ok(()) => {},
                Err(e) => {
                    return Err(e);
                },
            }
        },
        None => {},
    }
    Ok(
        App {
            authority: *authority,
            name: app_name,
            metadata: app_metadata,
            btc_public_key,
            is_active: true,
            created_at: now,
        },
    )
}

/// Creates the pod the request asks for: balance zero, active, both
/// timestamps now, bound to the requesting owner and the validated key.
/// Succeeds exactly when the key is 66 hexadecimal digits.
pub fn create_pod(req: CreateBitcoinPod, now: i64) -> (r: Result<Pod, BitDSMError>)
    ensures
        r is Ok <==> valid_btc_public_key(req.btc_public_key@),
        (match r {
            Ok(pod) => pod == (Pod {
                authority: req.owner,
                btc_public_key: req.btc_public_key,
                is_active: true,
                balance: 0,
                created_at: now,
                last_updated: now,
            }) && pod.wf(),
            Err(e) => e == BitDSMError::InvalidBtcKey,
        }),
{
    match validate_btc_public_key(req.btc_public_key.as_str()) {
        Ok(()) => Ok(
            Pod {
                authority: req.owner,
                btc_public_key: req.btc_public_key,
                is_active: true,
                balance: 0,
                created_at: now,
                last_updated: now,
            },
        ),
        Err(e) => Err(e),
    }
}

/// What a deposit confirmation must do to a pod: reject a signer other than
/// the owner, a deactivated pod, a zero amount, and an overflowing sum, in
/// that order and without touching the pod; otherwise add the amount to the
/// balance and refresh the update timestamp, leaving every other field as it
/// was.
pub open spec fn deposit_outcome(
    old_pod: Pod,
    new_pod: Pod,
    signer: Seq<u8>,
    amount: u64,
    now: i64,
    r: Result<(), BitDSMError>,
) -> bool {
    if old_pod.authority@ != signer {
        r == Err::<(), BitDSMError>(BitDSMError::Unauthorized) && new_pod == old_pod
    } else if !old_pod.is_active {
        r == Err::<(), BitDSMError>(BitDSMError::InactivePod) && new_pod == old_pod
    } else if amount == 0 {
        r == Err::<(), BitDSMError>(BitDSMError::InvalidAmount) && new_pod == old_pod
    } else if old_pod.balance + amount > u64::MAX {
        r == Err::<(), BitDSMError>(BitDSMError::Overflow) && new_pod == old_pod
    } else {
        r == Ok::<(), BitDSMError>(()) && new_pod == (Pod {
            balance: (old_pod.balance + amount) as u64,
            last_updated: now,
            ..old_pod
        })
    }
}

/// A deposit confirmed by a signer other than the owner is rejected as
/// unauthorized and leaves the pod unchanged, whatever its balance and
/// whatever the amount.
pub proof fn lemma_deposit_unauthorized(
    old_pod: Pod,
    new_pod: Pod,
    signer: Seq<u8>,
    amount: u64,
    now: i64,
    r: Result<(), BitDSMError>,
)
    requires
        deposit_outcome(old_pod, new_pod, signer, amount, now, r),
        old_pod.authority@ != signer,
    ensures
        r == Err::<(), BitDSMError>(BitDSMError::Unauthorized),
        new_pod == old_pod,
{
}

/// A deposit into a deactivated pod owned by the signer is rejected as
/// inactive and leaves the pod unchanged, whatever the amount.
pub proof fn lemma_deposit_inactive(
    old_pod: Pod,
    new_pod: Pod,
    signer: Seq<u8>,
    amount: u64,
    now: i64,
    r: Result<(), BitDSMError>,
)
    requires
        deposit_outcome(old_pod, new_pod, signer, amount, now, r),
        old_pod.authority@ == signer,
        !old_pod.is_active,
    ensures
        r == Err::<(), BitDSMError>(BitDSMError::InactivePod),
        new_pod == old_pod,
{
}

/// A zero deposit into an active pod owned by the signer is rejected as an
/// invalid amount and leaves the pod unchanged.
pub proof fn lemma_deposit_zero_amount(
    old_pod: Pod,
    new_pod: Pod,
    signer: Seq<u8>,
    now: i64,
    r: Result<(), BitDSMError>,
)
    requires
        deposit_outcome(old_pod, new_pod, signer, 0, now, r),
        old_pod.authority@ == signer,
        old_pod.is_active,
    ensures
        r == Err::<(), BitDSMError>(BitDSMError::InvalidAmount),
        new_pod == old_pod,
{
}

/// A positive deposit into an active pod owned by the signer, whose sum
/// fits, succeeds: the balance becomes exactly the old balance plus the
/// amount and the update timestamp moves to now, with every other field as
/// it was.
pub proof fn lemma_deposit_success(
    old_pod: Pod,
    new_pod: Pod,
    signer: Seq<u8>,
    amount: u64,
    now: i64,
    r: Result<(), BitDSMError>,
)
    requires
        deposit_outcome(old_pod, new_pod, signer, amount, now, r),
        old_pod.authority@ == signer,
        old_pod.is_active,
        amount > 0,
        old_pod.balance + amount <= u64::MAX,
    ensures
        r == Ok::<(), BitDSMError>(()),
        new_pod.balance == old_pod.balance + amount,
        new_pod.last_updated == now,
        new_pod.authority == old_pod.authority,
        new_pod.btc_public_key == old_pod.btc_public_key,
        new_pod.is_active == old_pod.is_active,
        new_pod.created_at == old_pod.created_at,
{
}

/// A deposit that would push the balance past the largest representable
/// value is rejected as an overflow and leaves the balance at its prior
/// value.
pub proof fn lemma_deposit_overflow(
    old_pod: Pod,
    new_pod: Pod,
    signer: Seq<u8>,
    amount: u64,
    now: i64,
    r: Result<(), BitDSMError>,
)
    requires
        deposit_outcome(old_pod, new_pod, signer, amount, now, r),
        old_pod.authority@ == signer,
        old_pod.is_active,
        amount > 0,
        old_pod.balance + amount > u64::MAX,
    ensures
        r == Err::<(), BitDSMError>(BitDSMError::Overflow),
        new_pod == old_pod,
{
}

/// Confirms a deposit into the pod. Exactly when the signer owns the pod,
/// the pod is active, the amount is positive and the new balance fits, the
/// balance grows by the amount and the update timestamp moves to now; on any
/// rejection the pod is left exactly as it was.
pub fn confirm_deposit(pod: &mut Pod, signer: &Pubkey, amount: u64, now: i64) -> (r: Result<
    (),
    BitDSMError,
>)
    ensures
        deposit_outcome(*old(pod), *final(pod), signer@, amount, now, r),
        final(pod).balance >= old(pod).balance,
        old(pod).wf() ==> final(pod).wf(),
{
    if !signer.key_eq(&pod.authority) {
        return Err(BitDSMError::Unauthorized);
    }
    if !pod.is_active {
        return Err(BitDSMError::InactivePod);
    }
    match validate_positive(amount) {
        Ok(()) => {},
        Err(e) => {
            return Err(e);
        },
    }
    let new_balance = match checked_add(pod.balance, amount) {
        Ok(b) => b,
        Err(e) => {
            return Err(e);
        },
    };
    pod.balance = new_balance;
    pod.last_updated = now;
    Ok(())
}

/// Confirms a deposit into a pod reached through its account address: first
/// recomputes the derivation from the signer and the stored key prefix and
/// rejects a supplied account that does not match, then proceeds as
/// `confirm_deposit` does. The pod is untouched on any rejection.
pub fn confirm_deposit_at(
    program_id: &Pubkey,
    pod_address: &Pubkey,
    pod: &mut Pod,
    signer: &Pubkey,
    amount: u64,
    now: i64,
) -> (r: Result<(), BitDSMError>)
    requires
        old(pod).wf(),
    ensures
        (match pod_pda(program_id@, signer@, key_prefix(old(pod).btc_public_key@)) {
            Some(p) => {
                if p.0 == pod_address@ {
                    deposit_outcome(*old(pod), *final(pod), signer@, amount, now, r)
                } else {
                    r == Err::<(), BitDSMError>(BitDSMError::AddressMismatch) && *final(pod)
                        == *old(pod)
                }
            },
            None => r == Err::<(), BitDSMError>(BitDSMError::AddressMismatch) && *final(pod)
                == *old(pod),
        }),
        final(pod).balance >= old(pod).balance,
        final(pod).wf(),
{
    let prefix = key_prefix_bytes(pod.btc_public_key.as_str());
    match verify_pod_address(program_id, pod_address, signer, &prefix) {
        Ok(_bump) => confirm_deposit(pod, signer, amount, now),
        Err(e) => Err(e),
    }
}

} // verus!
