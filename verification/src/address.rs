use vstd::prelude::*;

use crate::errors::BitDSMError;
use crate::state::Pubkey;
use vstd::slice::slice_to_vec;

verus! {

/// What `Pubkey::try_find_program_address` returns for given seeds and
/// program id: a 32-byte derived address with its bump seed, or nothing when
/// no bump seed yields a valid address.
pub uninterp spec fn pda_of(seeds: Seq<Seq<u8>>, program_id: Seq<u8>) -> Option<(Seq<u8>, u8)>;

/// Relies on `Pubkey::try_find_program_address` (solana-pubkey, re-exported
/// through anchor_lang): the result depends on the seeds and the program id
/// alone; it is `None` only when no bump seed yields a valid derived address,
/// and it never panics.
#[verifier::external_body]
fn try_find_program_address(seeds: &Vec<Vec<u8>>, program_id: &Pubkey) -> (r: Option<(
    Pubkey,
    u8,
)>)
    ensures
        (match r {
            Some(p) => pda_of(seeds@.map_values(|s: Vec<u8>| s@), program_id@) == Some(
                (p.0@, p.1),
            ),
            None => pda_of(seeds@.map_values(|s: Vec<u8>| s@), program_id@) is None,
        }),
{
    let seed_refs: Vec<&[u8]> = seeds.iter().map(|s| s.as_slice()).collect();
    let pid = anchor_lang::prelude::Pubkey::new_from_array(program_id.bytes);
    anchor_lang::prelude::Pubkey::try_find_program_address(&seed_refs, &pid).map(
        |p: (anchor_lang::prelude::Pubkey, u8)| (Pubkey { bytes: p.0.to_bytes() }, p.1),
    )
}

/// The constant first seed of every pod address: the bytes of "pod".
pub open spec fn pod_seed_tag() -> Seq<u8> {
    seq![112u8, 111u8, 100u8]
}

/// The seeds a pod address is derived from: the tag, the owner's bytes, and
/// the first eight bytes of the pod's Bitcoin public key.
pub open spec fn pod_seeds(owner: Seq<u8>, key_prefix: Seq<u8>) -> Seq<Seq<u8>> {
    seq![pod_seed_tag(), owner, key_prefix]
}

/// The one address a pod of this owner and key prefix may live at, with its
/// bump seed.
pub open spec fn pod_pda(program_id: Seq<u8>, owner: Seq<u8>, key_prefix: Seq<u8>) -> Option<
    (Seq<u8>, u8),
> {
    pda_of(pod_seeds(owner, key_prefix), program_id)
}

/// The first eight characters of a validated key, read as bytes.
pub open spec fn key_prefix(s: Seq<char>) -> Seq<u8> {
    Seq::new(8, |i: int| s[i] as u8)
}

/// Extracts the eight-byte derivation prefix from a key string.
pub fn key_prefix_bytes(key: &str) -> (r: Vec<u8>)
    requires
        key@.len() >= 8,
    ensures
        r@ == key_prefix(key@),
        r@.len() == 8,
{
    let mut out: Vec<u8> = Vec::new();
    let mut i: usize = 0;
    while i < 8
        invariant
            key@.len() >= 8,
            0 <= i <= 8,
            out@.len() == i,
            forall|j: int| 0 <= j < i ==> out@[j] == key@[j] as u8,
        decreases 8 - i,
    {
        let c = key.get_char(i);
        out.push(c as u8);
        i += 1;
    }
    proof {
        assert(out@ =~= key_prefix(key@));
    }
    out
}

fn pod_tag_bytes() -> (r: Vec<u8>)
    ensures
        r@ == pod_seed_tag(),
{
    let mut v: Vec<u8> = Vec::new();
    v.push(112);
    v.push(111);
    v.push(100);
    proof {
        assert(v@ =~= pod_seed_tag());
    }
    v
}

/// Derives the account address for a pod of this owner and key prefix. The
/// result is fixed by the three inputs alone, so deriving twice from the
/// same inputs yields the same address and bump seed.
pub fn derive_pod_address(program_id: &Pubkey, owner: &Pubkey, key_prefix: &Vec<u8>) -> (r: Option<
    (Pubkey, u8),
>)
    requires
        key_prefix@.len() == 8,
    ensures
        (match r {
            Some(p) => pod_pda(program_id@, owner@, key_prefix@) == Some((p.0@, p.1)),
            None => pod_pda(program_id@, owner@, key_prefix@) is None,
        }),
{
    let mut seeds: Vec<Vec<u8>> = Vec::new();
    seeds.push(pod_tag_bytes());
    seeds.push(slice_to_vec(owner.bytes.as_slice()));
    seeds.push(slice_to_vec(key_prefix.as_slice()));
    proof {
        assert(seeds@.map_values(|s: Vec<u8>| s@) =~~= pod_seeds(owner@, key_prefix@));
    }
    try_find_program_address(&seeds, program_id)
}

/// Derivation is deterministic: any two results of the derivation for the
/// same program id, owner and key prefix are the same address and bump seed.
pub proof fn lemma_derivation_deterministic(
    program_id: Seq<u8>,
    owner: Seq<u8>,
    key_prefix: Seq<u8>,
    r1: Option<(Seq<u8>, u8)>,
    r2: Option<(Seq<u8>, u8)>,
)
    requires
        r1 == pod_pda(program_id, owner, key_prefix),
        r2 == pod_pda(program_id, owner, key_prefix),
    ensures
        r1 == r2,
{
}

/// Recomputes the pod derivation for the claimed owner and key prefix and
/// rejects the request when the supplied account is not the derived address.
pub fn verify_pod_address(
    program_id: &Pubkey,
    supplied: &Pubkey,
    owner: &Pubkey,
    key_prefix: &Vec<u8>,
) -> (r: Result<u8, BitDSMError>)
    requires
        key_prefix@.len() == 8,
    ensures
        (match pod_pda(program_id@, owner@, key_prefix@) {
            Some(p) => r == if p.0 == supplied@ {
                Ok::<u8, BitDSMError>(p.1)
            } else {
                Err::<u8, BitDSMError>(BitDSMError::AddressMismatch)
            },
            None => r == Err::<u8, BitDSMError>(BitDSMError::AddressMismatch),
        }),
{
    match derive_pod_address(program_id, owner, key_prefix) {
        Some(p) => {
            if supplied.key_eq(&p.0) {
                Ok(p.1)
            } else {
                Err(BitDSMError::AddressMismatch)
            }
        },
        None => Err(BitDSMError::AddressMismatch),
    }
}

} // verus!
