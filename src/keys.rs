//! Opaque 32-byte account identities and the derivation of the pool's
//! keyless signer.
use vstd::prelude::*;

verus! {

/// A 32-byte account identity.
#[derive(Clone, Copy, Debug)]
pub struct Pubkey {
    pub bytes: [u8; 32],
}

impl View for Pubkey {
    type V = Seq<u8>;

    open spec fn view(&self) -> Seq<u8> {
        self.bytes@
    }
}

impl Pubkey {
    pub fn new_from_array(bytes: [u8; 32]) -> (r: Pubkey)
        ensures
            r.bytes@ == bytes@,
    {
        Pubkey { bytes }
    }

    /// Byte-wise comparison of two identities.
    pub fn same_as(&self, other: &Pubkey) -> (r: bool)
        ensures
            r == (self@ == other@),
    {
        let mut i: usize = 0;
        while i < 32
            invariant
                i <= 32,
                forall|j: int| 0 <= j < i ==> self.bytes@[j] == other.bytes@[j],
            decreases 32 - i,
        {
            if self.bytes[i] != other.bytes[i] {
                return false;
            }
            i = i + 1;
        }
        assert(self.bytes@ =~= other.bytes@);
        true
    }
}

/// The program-derived address of the seeds `[seed, [nonce]]` under
/// `program_id`, or none where that hash is a point of the ed25519 curve.
pub uninterp spec fn program_address(seed: Seq<u8>, nonce: u8, program_id: Seq<u8>) -> Option<Seq<u8>>;

/// Whether `signer` is the keyless identity derived from `seed` and `nonce`.
pub open spec fn derives(seed: Seq<u8>, nonce: u8, program_id: Seq<u8>, signer: Seq<u8>) -> bool {
    program_address(seed, nonce, program_id) == Some(signer)
}

/// Relies on `Pubkey::create_program_address` of solana_program, as anchor_lang
/// re-exports it: the address derived from the seeds `[seed, [nonce]]` and the
/// program id, a function of those bytes alone, or an error where the hash is
/// a curve point. Both seeds are within its 32-byte limit, so it fails for no
/// other reason.
#[verifier::external_body]
fn create_program_address(seed: &Pubkey, nonce: u8, program_id: &Pubkey) -> (r: Option<Pubkey>)
    ensures
        match r {
            Some(k) => program_address(seed@, nonce, program_id@) == Some(k@),
            None => program_address(seed@, nonce, program_id@) is None,
        },
{
    let seeds: [&[u8]; 2] = [&seed.bytes, &[nonce]];
    let id = anchor_lang::prelude::Pubkey::new_from_array(program_id.bytes);
    match anchor_lang::prelude::Pubkey::create_program_address(&seeds, &id) {
        Ok(k) => Some(Pubkey { bytes: k.to_bytes() }),
        Err(_) => None,
    }
}

/// Whether a derived address (none where the derivation failed) is `signer`.
pub fn signer_matches(derived: Option<Pubkey>, signer: &Pubkey) -> (r: bool)
    ensures
        r == (derived is Some && derived->0@ == signer@),
{
    match derived {
        Some(k) => k.same_as(signer),
        None => false,
    }
}

/// Whether `signer` is the keyless identity that `seed` and `nonce` derive
/// under `program_id`.
pub fn is_derived_signer(seed: &Pubkey, nonce: u8, program_id: &Pubkey, signer: &Pubkey) -> (r:
    bool)
    ensures
        r == derives(seed@, nonce, program_id@, signer@),
{
    let derived = create_program_address(seed, nonce, program_id);
    signer_matches(derived, signer)
}

} // verus!
