use crate::record::byte_len;
use anchor_lang::prelude::{Pubkey, Rent};
use vstd::prelude::*;

verus! {

/// The address derived from a blog key, an owner and the program's id, when
/// one exists.
pub uninterp spec fn program_address_of(key: Seq<char>, owner: Seq<u8>, program_id: Seq<u8>) -> Option<
    Seq<u8>,
>;

/// Relies on `Pubkey::try_find_program_address` (solana-address), with the
/// seeds `[key bytes, owner bytes]`: the result is a function of the seeds and
/// the program id, and is `None` when a seed is longer than 32 bytes.
#[verifier::external_body]
pub(crate) fn derive_address(key: &str, owner: &[u8; 32], program_id: &[u8; 32]) -> (r: Option<
    [u8; 32],
>)
    ensures
        r matches Some(a) ==> program_address_of(key@, owner@, program_id@) == Some(a@),
        r is None ==> program_address_of(key@, owner@, program_id@) is None,
        byte_len(key@) > 32 ==> r is None,
{
    let program = Pubkey::new_from_array(*program_id);
    Pubkey::try_find_program_address(&[key.as_bytes(), owner.as_ref()], &program).map(
        |found| found.0.to_bytes(),
    )
}

/// Relies on `Rent::minimum_balance` of the default `Rent` (solana-rent): 3480
/// lamports per byte-year over the data and 128 bytes of overhead, times an
/// exemption threshold of two years.
#[verifier::external_body]
pub(crate) fn rent_exempt_minimum(data_len: usize) -> (r: u64)
    requires
        data_len <= 1_000_000,
    ensures
        r == (128 + data_len) * 6960,
{
    Rent::default().minimum_balance(data_len)
}

} // verus!
