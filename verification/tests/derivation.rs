use bitdsm_solana::address::{derive_pod_address, key_prefix_bytes, verify_pod_address};
use bitdsm_solana::errors::BitDSMError;
use bitdsm_solana::handlers::{confirm_deposit_at, create_pod};
use bitdsm_solana::state::{CreateBitcoinPod, Pod, Pubkey};

fn pk(b: u8) -> Pubkey {
    Pubkey { bytes: [b; 32] }
}

fn valid_key() -> String {
    let mut s = String::from("02");
    s.push_str(&"a".repeat(64));
    s
}

fn derived_for(program_id: &Pubkey, owner: &Pubkey, key: &str) -> (Pubkey, u8) {
    let prefix = key_prefix_bytes(key);
    derive_pod_address(program_id, owner, &prefix).expect("a bump seed must be found")
}

#[test]
fn derivation_is_idempotent() {
    let program_id = pk(7);
    let owner = pk(1);
    let key = valid_key();
    let first = derived_for(&program_id, &owner, &key);
    let second = derived_for(&program_id, &owner, &key);
    assert_eq!(first.0, second.0);
    assert_eq!(first.1, second.1);
}

#[test]
fn different_owners_get_different_addresses() {
    let program_id = pk(7);
    let key = valid_key();
    let a = derived_for(&program_id, &pk(1), &key);
    let b = derived_for(&program_id, &pk(2), &key);
    assert_ne!(a.0, b.0);
}

#[test]
fn different_prefixes_get_different_addresses() {
    let program_id = pk(7);
    let owner = pk(1);
    let mut other_key = String::from("03");
    other_key.push_str(&"b".repeat(64));
    let a = derived_for(&program_id, &owner, &valid_key());
    let b = derived_for(&program_id, &owner, &other_key);
    assert_ne!(a.0, b.0);
}

#[test]
fn derivation_matches_the_ledger_scheme() {
    let program_id = pk(7);
    let owner = pk(1);
    let key = valid_key();
    let (addr, bump) = derived_for(&program_id, &owner, &key);

    let host_pid = anchor_lang::prelude::Pubkey::new_from_array(program_id.bytes);
    let host_owner = anchor_lang::prelude::Pubkey::new_from_array(owner.bytes);
    let (host_addr, host_bump) = anchor_lang::prelude::Pubkey::find_program_address(
        &[b"pod", host_owner.as_ref(), &key.as_bytes()[0..8]],
        &host_pid,
    );
    assert_eq!(addr.bytes, host_addr.to_bytes());
    assert_eq!(bump, host_bump);
}

#[test]
fn verify_accepts_the_derived_address_only() {
    let program_id = pk(7);
    let owner = pk(1);
    let key = valid_key();
    let (addr, bump) = derived_for(&program_id, &owner, &key);
    let prefix = key_prefix_bytes(&key);
    assert_eq!(
        verify_pod_address(&program_id, &addr, &owner, &prefix),
        Ok(bump)
    );
    assert_eq!(
        verify_pod_address(&program_id, &pk(8), &owner, &prefix),
        Err(BitDSMError::AddressMismatch)
    );
}

#[test]
fn deposit_at_the_derived_address_succeeds() {
    let program_id = pk(7);
    let owner = pk(1);
    let key = valid_key();
    let (addr, _bump) = derived_for(&program_id, &owner, &key);
    let req = CreateBitcoinPod {
        owner,
        btc_public_key: key,
    };
    let mut pod: Pod = create_pod(req, 10).expect("pod must be created");
    let r = confirm_deposit_at(&program_id, &addr, &mut pod, &owner, 50, 11);
    assert_eq!(r, Ok(()));
    assert_eq!(pod.balance, 50);
    assert_eq!(pod.last_updated, 11);
}

#[test]
fn deposit_at_a_wrong_address_is_rejected() {
    let program_id = pk(7);
    let owner = pk(1);
    let req = CreateBitcoinPod {
        owner,
        btc_public_key: valid_key(),
    };
    let mut pod: Pod = create_pod(req, 10).expect("pod must be created");
    let r = confirm_deposit_at(&program_id, &pk(8), &mut pod, &owner, 50, 11);
    assert_eq!(r, Err(BitDSMError::AddressMismatch));
    assert_eq!(pod.balance, 0);
    assert_eq!(pod.last_updated, 10);
}

#[test]
fn deposit_at_with_a_foreign_signer_is_rejected() {
    let program_id = pk(7);
    let owner = pk(1);
    let stranger = pk(2);
    let key = valid_key();
    let (addr, _bump) = derived_for(&program_id, &owner, &key);
    let req = CreateBitcoinPod {
        owner,
        btc_public_key: key,
    };
    let mut pod: Pod = create_pod(req, 10).expect("pod must be created");
    // The derivation is recomputed from the signer, so a stranger's
    // derivation does not reach the pod's account.
    let r = confirm_deposit_at(&program_id, &addr, &mut pod, &stranger, 50, 11);
    assert_eq!(r, Err(BitDSMError::AddressMismatch));
    assert_eq!(pod.balance, 0);
}

#[test]
fn key_prefix_is_the_first_eight_bytes() {
    let key = valid_key();
    let prefix = key_prefix_bytes(&key);
    assert_eq!(prefix, key.as_bytes()[0..8].to_vec());
    assert_eq!(prefix, vec![b'0', b'2', b'a', b'a', b'a', b'a', b'a', b'a']);
}
