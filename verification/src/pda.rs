//! Address derivation: from a pool, a bin or a wallet to the address of the account that
//! belongs to it.
//!
//! Every derived address is a program address: the runtime hashes a list of seeds with a
//! program's address and searches for a bump seed that takes the hash off the signature
//! curve. The search is the runtime library's; this module fixes the seeds.

use crate::codec::{le_bytes, push_i64, twos_complement};
use crate::pubkey::{
    array_to_vec, associated_token_program, lb_clmm_program, token_metadata_program,
    token_program, Pubkey, ASSOCIATED_TOKEN_PROGRAM_ID, LB_CLMM_PROGRAM_ID,
    TOKEN_METADATA_PROGRAM_ID, TOKEN_PROGRAM_ID,
};
use vstd::prelude::*;

verus! {

/// The number of bins that one bin array holds.
pub const MAX_BIN_PER_ARRAY: i32 = 70;

/// The widest bin range that one position may cover.
pub const MAX_BIN_PER_POSITION: i32 = 70;

/// The text `bin_array`.
pub const BIN_ARRAY_SEED: [u8; 9] = [98, 105, 110, 95, 97, 114, 114, 97, 121];

/// The text `bitmap`.
pub const BIN_ARRAY_BITMAP_SEED: [u8; 6] = [98, 105, 116, 109, 97, 112];

/// The text `__event_authority`.
pub const EVENT_AUTHORITY_SEED: [u8; 17] = [
    95, 95, 101, 118, 101, 110, 116, 95, 97, 117, 116, 104, 111, 114, 105, 116, 121,
];

/// The text `metadata`.
pub const METADATA_SEED: [u8; 8] = [109, 101, 116, 97, 100, 97, 116, 97];

/// The program address that the runtime library finds for `seeds` under `program_id`, with its
/// bump seed; `None` where it finds none.
pub uninterp spec fn program_address(seeds: Seq<Seq<u8>>, program_id: Seq<u8>) -> Option<
    (Seq<u8>, u8),
>;

/// A list of seeds as the sequence of their bytes.
pub open spec fn seeds_view(seeds: Seq<Vec<u8>>) -> Seq<Seq<u8>> {
    Seq::new(seeds.len(), |i: int| seeds[i]@)
}

/// A found address and bump seed, the address by its bytes.
pub open spec fn found_view(found: Option<(Pubkey, u8)>) -> Option<(Seq<u8>, u8)> {
    match found {
        Some((key, bump)) => Some((key@, bump)),
        None => None,
    }
}

/// Calls `Pubkey::try_find_program_address` of the runtime library: the search for a program
/// address. Its result is a function of the seeds and the program address alone; the contract
/// names it and says nothing of its value.
#[verifier::external_body]
fn try_find_program_address(seeds: &Vec<Vec<u8>>, program_id: &Pubkey) -> (found: Option<
    (Pubkey, u8),
>)
    ensures
        found_view(found) == program_address(seeds_view(seeds@), program_id@),
{
    let slices: Vec<&[u8]> = seeds.iter().map(|seed| seed.as_slice()).collect();
    let program = anchor_lang::solana_program::pubkey::Pubkey::new_from_array(program_id.bytes);
    anchor_lang::solana_program::pubkey::Pubkey::try_find_program_address(&slices, &program).map(
        |(key, bump)| (Pubkey { bytes: key.to_bytes() }, bump),
    )
}

/// Finds the program address for `seeds` under `program_id`, with its bump seed, where
/// there is one.
pub fn find_program_address(seeds: &Vec<Vec<u8>>, program_id: &Pubkey) -> (found: Option<
    (Pubkey, u8),
>)
    ensures
        found_view(found) == program_address(seeds_view(seeds@), program_id@),
{
    try_find_program_address(seeds, program_id)
}

/// The index of the bin array that holds bin `bin_id`: bins `70 * k` to `70 * k + 69` lie in
/// array `k`, for negative `k` too.
pub open spec fn spec_bin_array_index(bin_id: int) -> int {
    bin_id / (MAX_BIN_PER_ARRAY as int)
}

/// The event authority of the liquidity program.
pub open spec fn spec_event_authority() -> Option<(Seq<u8>, u8)> {
    program_address(seq![EVENT_AUTHORITY_SEED@], LB_CLMM_PROGRAM_ID@)
}

/// The bin array of pool `lb_pair` with index `index`.
pub open spec fn spec_bin_array(lb_pair: Seq<u8>, index: int) -> Option<(Seq<u8>, u8)> {
    program_address(
        seq![BIN_ARRAY_SEED@, lb_pair, le_bytes(twos_complement(index, 8), 8)],
        LB_CLMM_PROGRAM_ID@,
    )
}

/// The bitmap extension of pool `lb_pair`.
pub open spec fn spec_bin_array_bitmap_extension(lb_pair: Seq<u8>) -> Option<(Seq<u8>, u8)> {
    program_address(seq![BIN_ARRAY_BITMAP_SEED@, lb_pair], LB_CLMM_PROGRAM_ID@)
}

/// The token account that `wallet` holds for `mint` under the token program.
pub open spec fn spec_associated_token_address(wallet: Seq<u8>, mint: Seq<u8>) -> Option<
    (Seq<u8>, u8),
> {
    program_address(seq![wallet, TOKEN_PROGRAM_ID@, mint], ASSOCIATED_TOKEN_PROGRAM_ID@)
}

/// The metadata account of `mint`.
pub open spec fn spec_metadata(mint: Seq<u8>) -> Option<(Seq<u8>, u8)> {
    program_address(
        seq![METADATA_SEED@, TOKEN_METADATA_PROGRAM_ID@, mint],
        TOKEN_METADATA_PROGRAM_ID@,
    )
}

/// The two bin arrays that an operation on a position names: the one that holds the
/// position's lowest bin, and the next.
pub open spec fn spec_bin_arrays(lb_pair: Seq<u8>, lower_bin_id: int) -> Option<
    (Seq<u8>, Seq<u8>),
> {
    let index = spec_bin_array_index(lower_bin_id);
    match (spec_bin_array(lb_pair, index), spec_bin_array(lb_pair, index + 1)) {
        (Some((lower, _)), Some((upper, _))) => Some((lower, upper)),
        _ => None,
    }
}

/// A pair of addresses by their bytes.
pub open spec fn pair_view(pair: Option<(Pubkey, Pubkey)>) -> Option<(Seq<u8>, Seq<u8>)> {
    match pair {
        Some((lower, upper)) => Some((lower@, upper@)),
        None => None,
    }
}

/// The index of the bin array that holds bin `bin_id`.
pub fn bin_id_to_bin_array_index(bin_id: i32) -> (index: i32)
    ensures
        index == spec_bin_array_index(bin_id as int),
        index * MAX_BIN_PER_ARRAY <= bin_id < (index + 1) * MAX_BIN_PER_ARRAY,
{
    let quotient: i32 = bin_id / MAX_BIN_PER_ARRAY;
    let remainder: i32 = bin_id % MAX_BIN_PER_ARRAY;
    if remainder < 0 {
        quotient - 1
    } else {
        quotient
    }
}

/// Derives the event authority of the liquidity program.
pub fn derive_event_authority_pda() -> (found: Option<(Pubkey, u8)>)
    ensures
        found_view(found) == spec_event_authority(),
{
    let seeds: Vec<Vec<u8>> = vec![array_to_vec(&EVENT_AUTHORITY_SEED)];
    assert(seeds_view(seeds@) =~= seq![EVENT_AUTHORITY_SEED@]);
    try_find_program_address(&seeds, &lb_clmm_program())
}

/// Derives the bin array of pool `lb_pair` with index `bin_array_index`.
pub fn derive_bin_array_pda(lb_pair: Pubkey, bin_array_index: i64) -> (found: Option<
    (Pubkey, u8),
>)
    ensures
        found_view(found) == spec_bin_array(lb_pair@, bin_array_index as int),
{
    let mut index_bytes: Vec<u8> = Vec::new();
    push_i64(&mut index_bytes, bin_array_index);
    assert(index_bytes@ =~= le_bytes(twos_complement(bin_array_index as int, 8), 8));
    let seeds: Vec<Vec<u8>> = vec![array_to_vec(&BIN_ARRAY_SEED), lb_pair.to_vec(), index_bytes];
    assert(seeds_view(seeds@) =~= seq![
        BIN_ARRAY_SEED@,
        lb_pair@,
        le_bytes(twos_complement(bin_array_index as int, 8), 8),
    ]);
    try_find_program_address(&seeds, &lb_clmm_program())
}

/// Derives the bitmap extension of pool `lb_pair`.
pub fn derive_bin_array_bitmap_extension(lb_pair: Pubkey) -> (found: Option<(Pubkey, u8)>)
    ensures
        found_view(found) == spec_bin_array_bitmap_extension(lb_pair@),
{
    let seeds: Vec<Vec<u8>> = vec![array_to_vec(&BIN_ARRAY_BITMAP_SEED), lb_pair.to_vec()];
    assert(seeds_view(seeds@) =~= seq![BIN_ARRAY_BITMAP_SEED@, lb_pair@]);
    try_find_program_address(&seeds, &lb_clmm_program())
}

/// Derives the token account that `wallet` holds for `mint`.
pub fn get_associated_token_address(wallet: &Pubkey, mint: &Pubkey) -> (found: Option<
    (Pubkey, u8),
>)
    ensures
        found_view(found) == spec_associated_token_address(wallet@, mint@),
{
    let seeds: Vec<Vec<u8>> = vec![wallet.to_vec(), token_program().to_vec(), mint.to_vec()];
    assert(seeds_view(seeds@) =~= seq![wallet@, TOKEN_PROGRAM_ID@, mint@]);
    try_find_program_address(&seeds, &associated_token_program())
}

/// Derives the metadata account of `mint`.
pub fn find_metadata_pda(mint: &Pubkey) -> (found: Option<(Pubkey, u8)>)
    ensures
        found_view(found) == spec_metadata(mint@),
{
    let seeds: Vec<Vec<u8>> = vec![
        array_to_vec(&METADATA_SEED),
        token_metadata_program().to_vec(),
        mint.to_vec(),
    ];
    assert(seeds_view(seeds@) =~= seq![METADATA_SEED@, TOKEN_METADATA_PROGRAM_ID@, mint@]);
    try_find_program_address(&seeds, &token_metadata_program())
}

/// Derives the two bin arrays for a position of pool `lb_pair` whose lowest bin is
/// `lower_bin_id`.
pub fn get_bin_arrays_for_pair(lb_pair: Pubkey, lower_bin_id: i32) -> (pair: Option<
    (Pubkey, Pubkey),
>)
    ensures
        pair_view(pair) == spec_bin_arrays(lb_pair@, lower_bin_id as int),
{
    let lower_index: i32 = bin_id_to_bin_array_index(lower_bin_id);
    let upper_index: i32 = lower_index + 1;
    let lower = derive_bin_array_pda(lb_pair, lower_index as i64);
    let upper = derive_bin_array_pda(lb_pair, upper_index as i64);
    match (lower, upper) {
        (Some((lower_key, _)), Some((upper_key, _))) => Some((lower_key, upper_key)),
        _ => None,
    }
}

/// Whether a position of `width` bins from `lower_bin_id` on ends within the bin array that
/// follows the one of its lowest bin.
pub open spec fn fits_two_bin_arrays(lower_bin_id: int, width: int) -> bool {
    lower_bin_id + width <= (spec_bin_array_index(lower_bin_id) + 2) * MAX_BIN_PER_ARRAY
}

/// The bins of a position lie in the two bin arrays that are resolved for it exactly when
/// the position ends within the second: every bin of `lower_bin_id .. lower_bin_id + width`
/// then has the index of the array of the lowest bin or the next index, and of no other
/// position is that so.
pub proof fn lemma_bin_arrays_cover_position(lower_bin_id: int, width: int)
    ensures
        fits_two_bin_arrays(lower_bin_id, width) <==> (forall|bin_id: int|
            lower_bin_id <= bin_id < lower_bin_id + width ==> spec_bin_array_index(lower_bin_id)
                <= #[trigger] spec_bin_array_index(bin_id) <= spec_bin_array_index(lower_bin_id)
                + 1),
{
    let lower = spec_bin_array_index(lower_bin_id);
    lemma_bin_array_bounds(lower_bin_id);
    if fits_two_bin_arrays(lower_bin_id, width) {
        assert forall|bin_id: int| lower_bin_id <= bin_id < lower_bin_id + width implies lower
            <= #[trigger] spec_bin_array_index(bin_id) <= lower + 1 by {
            lemma_bin_array_bounds(bin_id);
        }
    } else {
        let last = lower_bin_id + width - 1;
        lemma_bin_array_bounds(last);
        assert(lower_bin_id <= last < lower_bin_id + width);
        assert(spec_bin_array_index(last) > lower + 1);
    }
}

/// A bin lies in the bin array of its index: array `k` holds the seventy bins from `70 * k`.
pub proof fn lemma_bin_array_bounds(bin_id: int)
    ensures
        spec_bin_array_index(bin_id) * MAX_BIN_PER_ARRAY <= bin_id < (spec_bin_array_index(bin_id)
            + 1) * MAX_BIN_PER_ARRAY,
{
    vstd::arithmetic::div_mod::lemma_fundamental_div_mod(bin_id, 70);
    vstd::arithmetic::div_mod::lemma_mod_bound(bin_id, 70);
}

/// A position of at most [`MAX_BIN_PER_POSITION`] bins ends within the second of its two
/// bin arrays.
pub proof fn lemma_position_fits_two_bin_arrays(lower_bin_id: int, width: int)
    requires
        width <= MAX_BIN_PER_POSITION,
    ensures
        fits_two_bin_arrays(lower_bin_id, width),
{
    lemma_bin_array_bounds(lower_bin_id);
}

} // verus!
