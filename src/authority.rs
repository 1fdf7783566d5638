use vstd::prelude::*;

use crate::address::Address;

verus! {

/// Seed from which the custody authority is derived: `streamflow-airdrop`.
pub const PDA_SEED: [u8; 18] = [115, 116, 114, 101, 97, 109, 102, 108, 111, 119, 45, 97, 105, 114, 100, 114, 111, 112];

/// The program-derived address (and its bump byte) that the ledger computes
/// for one seed under one program identity, or `None` when no bump yields an
/// address off the signing curve.
pub uninterp spec fn program_address(seed: Seq<u8>, program_id: Seq<u8>) -> Option<(Seq<u8>, u8)>;

/// Relies on `Pubkey::try_find_program_address` of solana-program: it hashes
/// the seed with each bump and the program identity, and so depends on those
/// values alone. A seed is at most 32 bytes long.
#[verifier::external_body]
fn find_program_address(seed: &[u8], program_id: &Address) -> (r: Option<(Address, u8)>)
    requires
        seed@.len() <= 32,
    ensures
        match r {
            Some(found) => program_address(seed@, program_id@) == Some((found.0@, found.1)),
            None => program_address(seed@, program_id@) is None,
        },
{
    let program = anchor_lang::solana_program::pubkey::Pubkey::new_from_array(program_id.bytes);
    anchor_lang::solana_program::pubkey::Pubkey::try_find_program_address(&[seed], &program)
        .map(|(key, bump)| (Address { bytes: key.to_bytes() }, bump))
}

/// The custody authority of a program: a key-less address that only this
/// program can authorize for, with the bump byte that re-derives it.
pub open spec fn custody_authority(program_id: Seq<u8>) -> Option<(Seq<u8>, u8)> {
    program_address(PDA_SEED@, program_id)
}

/// Derives the custody authority of `program_id`.
pub fn derive_custody_authority(program_id: &Address) -> (r: Option<(Address, u8)>)
    ensures
        match r {
            Some(found) => custody_authority(program_id@) == Some((found.0@, found.1)),
            None => custody_authority(program_id@) is None,
        },
{
    let seed: [u8; 18] = PDA_SEED;
    find_program_address(seed.as_slice(), program_id)
}

} // verus!
