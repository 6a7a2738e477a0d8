//! Where a record is kept: the address derived from its owner's key.

use vstd::prelude::*;
use crate::pubkey::Pubkey;

verus! {

/// The text `favorites`, the first seed of every record's address.
pub const FAVORITES_SEED: [u8; 9] = [102, 97, 118, 111, 114, 105, 116, 101, 115];

/// What the ledger's search for a program address returns for a list of
/// seeds and a program: the address with the bump seed that completes it, or
/// `None` where the search finds no address.
pub uninterp spec fn program_address(seeds: Seq<Seq<u8>>, program_id: Seq<u8>) -> Option<
    (Seq<u8>, u8),
>;

/// The seeds of the record that belongs to `user`.
pub open spec fn favorites_seeds(user: Seq<u8>) -> Seq<Seq<u8>> {
    seq![FAVORITES_SEED@, user]
}

/// Calls `Pubkey::try_find_program_address`, which `anchor_lang` hands on
/// from `solana_pubkey`, on the seeds `first` and `second`.
///
/// Trusted, not proved: the call hashes its arguments and reads nothing
/// else, so what it returns is `program_address` of them. It returns `None`
/// rather than panic where it finds no address. Nothing more is claimed of
/// the address.
#[verifier::external_body]
fn try_find_program_address(first: &[u8], second: &[u8], program_id: &Pubkey) -> (found: Option<
    (Pubkey, u8),
>)
    ensures
        match found {
            Some((address, bump)) => program_address(seq![first@, second@], program_id@)
                == Some((address@, bump)),
            None => program_address(seq![first@, second@], program_id@) is None,
        },
{
    let program_id = anchor_lang::prelude::Pubkey::new_from_array(program_id.bytes);
    match anchor_lang::prelude::Pubkey::try_find_program_address(&[first, second], &program_id) {
        Some((address, bump)) => Some((Pubkey { bytes: address.to_bytes() }, bump)),
        None => None,
    }
}

/// The address of the record that belongs to `user` under the program
/// `program_id`, and its bump seed.
pub fn favorites_address(user: &Pubkey, program_id: &Pubkey) -> (found: Option<(Pubkey, u8)>)
    ensures
        match found {
            Some((address, bump)) => program_address(favorites_seeds(user@), program_id@)
                == Some((address@, bump)),
            None => program_address(favorites_seeds(user@), program_id@) is None,
        },
{
    try_find_program_address(FAVORITES_SEED.as_slice(), user.bytes.as_slice(), program_id)
}

} // verus!
