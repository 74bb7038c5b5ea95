use vstd::prelude::*;

verus! {

/// The identity this ledger's deployed instance declares; record addresses
/// are derived under it.
pub const PROGRAM_ID: [u8; 32] = [
    157, 74, 151, 120, 0, 249, 206, 64, 22, 63, 7, 54, 82, 17, 134, 138, 14, 186, 20, 210, 83,
    145, 2, 73, 38, 48, 250, 255, 78, 91, 44, 202,
];

/// What the runtime's address derivation yields for a key under a program
/// identity: the 32-byte record address together with its bump, or nothing
/// when no bump yields a valid address. The result depends on the key and
/// the identity alone, so every caller re-derives the same address.
pub uninterp spec fn derived_record_address(url: Seq<char>, program: Seq<u8>) -> Option<
    (Seq<u8>, u8),
>;

/// Whether an address can be derived for this key under this crate's
/// program identity. False whenever the key's byte form is longer than the
/// derivation's maximum seed length, and in the statistically improbable
/// event that every bump lands on the curve.
pub open spec fn derivable(url: Seq<char>) -> bool {
    derived_record_address(url, PROGRAM_ID@) is Some
}

/// Relies on `Pubkey::try_find_program_address` (re-exported by
/// anchor_lang) with the key's bytes as the single seed: its result is a
/// pure function of the seed bytes and the program id.
#[verifier::external_body]
pub(crate) fn find_record_address(url: &str, program: &[u8; 32]) -> (r: Option<([u8; 32], u8)>)
    ensures
        (match r {
            Some(p) => derived_record_address(url@, program@) == Some((p.0@, p.1)),
            None => derived_record_address(url@, program@) is None,
        }),
{
    let program_key = anchor_lang::prelude::Pubkey::new_from_array(*program);
    match anchor_lang::prelude::Pubkey::try_find_program_address(&[url.as_bytes()], &program_key)
    {
        Some((address, bump)) => Some((address.to_bytes(), bump)),
        None => None,
    }
}

} // verus!
