//! Deterministic program-derived addresses.
//!
//! The associated-account address and the swap authority are pure functions
//! of their input addresses. Each derivation is named by an uninterpreted
//! spec function, so contracts downstream can say exactly which address an
//! operation records without restating the derivation itself.

use vstd::prelude::*;
use crate::addr::Address;

verus! {

/// The address of the associated token account binding a wallet to a mint:
/// a function of the two addresses alone.
pub uninterp spec fn associated_address_of(wallet: (u64, u64, u64, u64), mint: (u64, u64, u64, u64)) -> (u64, u64, u64, u64);

/// The swap authority the swap program derives for a swap account: a function
/// of the swap account's address and the swap program's address alone, `None`
/// when the pair has no derived address.
pub uninterp spec fn swap_authority_of(swap: (u64, u64, u64, u64), program: (u64, u64, u64, u64)) -> Option<((u64, u64, u64, u64), u8)>;

/// Relies on spl_associated_token_account::get_associated_token_address: it
/// derives the associated token account address for (wallet, mint), reading
/// nothing but its two arguments and the two programs' fixed ids. Per its
/// documentation the underlying bump-seed search always succeeds.
#[verifier::external_body]
pub(crate) fn derived_associated_address(wallet: &Address, mint: &Address) -> (r: Address)
    ensures
        r@ == associated_address_of(wallet@, mint@),
{
    let p = spl_associated_token_account::get_associated_token_address(
        &crate::realize::pubkey_of(wallet),
        &crate::realize::pubkey_of(mint),
    );
    let b = p.to_bytes();
    Address {
        w0: u64::from_le_bytes(b[0..8].try_into().unwrap()),
        w1: u64::from_le_bytes(b[8..16].try_into().unwrap()),
        w2: u64::from_le_bytes(b[16..24].try_into().unwrap()),
        w3: u64::from_le_bytes(b[24..32].try_into().unwrap()),
    }
}

/// Relies on Pubkey::try_find_program_address with the swap account's bytes
/// as the one seed: the result is a function of the seed and the program id
/// alone.
#[verifier::external_body]
pub(crate) fn derived_swap_authority(swap: &Address, program: &Address) -> (r: Option<(Address, u8)>)
    ensures
        r matches Some(p) ==> swap_authority_of(swap@, program@) == Some((p.0@, p.1)),
        r is None ==> swap_authority_of(swap@, program@) is None,
{
    let seed = crate::realize::pubkey_of(swap).to_bytes();
    match solana_sdk::pubkey::Pubkey::try_find_program_address(&[&seed], &crate::realize::pubkey_of(program)) {
        None => None,
        Some((p, nonce)) => {
            let b = p.to_bytes();
            Some((Address {
                w0: u64::from_le_bytes(b[0..8].try_into().unwrap()),
                w1: u64::from_le_bytes(b[8..16].try_into().unwrap()),
                w2: u64::from_le_bytes(b[16..24].try_into().unwrap()),
                w3: u64::from_le_bytes(b[24..32].try_into().unwrap()),
            }, nonce))
        }
    }
}

/// The associated token account address depends on the recipient wallet and
/// the mint alone: deriving it independently for the same pair always yields
/// the same address the create operation records.
pub proof fn law_associated_address_deterministic(w1: Address, m1: Address, w2: Address, m2: Address)
    requires
        w1 == w2,
        m1 == m2,
    ensures
        associated_address_of(w1@, m1@) == associated_address_of(w2@, m2@),
{
}

} // verus!
