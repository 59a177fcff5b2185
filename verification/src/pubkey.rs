//! Account addresses as plain 32-byte values, and the addresses of the programs and
//! well-known accounts that position transactions name.

use vstd::prelude::*;
use vstd::std_specs::cmp::PartialEqSpecImpl;

verus! {

/// The liquidity program, `LBUZKhRxPF3XUpBCjp4YzTKgLccjZhTSDM9YuVaPwxo`.
pub const LB_CLMM_PROGRAM_ID: [u8; 32] = [
    4, 233, 225, 47, 188, 132, 232, 38, 201, 50, 204, 233, 226, 100, 12, 206, 21, 89, 12, 28, 98,
    115, 176, 146, 87, 8, 186, 59, 133, 32, 176, 188,
];

/// The token program, `TokenkegQfeZyiNwAJbNbGKPFXCWuBvf9Ss623VQ5DA`.
pub const TOKEN_PROGRAM_ID: [u8; 32] = [
    6, 221, 246, 225, 215, 101, 161, 147, 217, 203, 225, 70, 206, 235, 121, 172, 28, 180, 133,
    237, 95, 91, 55, 145, 58, 140, 245, 133, 126, 255, 0, 169,
];

/// The associated-token-account program, `ATokenGPvbdGVxr1b2hvZbsiqW5xWH25efTNsLJA8knL`.
pub const ASSOCIATED_TOKEN_PROGRAM_ID: [u8; 32] = [
    140, 151, 37, 143, 78, 36, 137, 241, 187, 61, 16, 41, 20, 142, 13, 131, 11, 90, 19, 153, 218,
    255, 16, 132, 4, 142, 123, 216, 219, 233, 248, 89,
];

/// The token-metadata program, `metaqbxxUerdq28cj1RbAWkYQm3ybzjb6a8bt518x1s`.
pub const TOKEN_METADATA_PROGRAM_ID: [u8; 32] = [
    11, 112, 101, 177, 227, 209, 124, 69, 56, 157, 82, 127, 107, 4, 195, 205, 88, 184, 108, 115,
    26, 160, 253, 181, 73, 182, 209, 188, 3, 248, 41, 70,
];

/// The compute-budget program, `ComputeBudget111111111111111111111111111111`.
pub const COMPUTE_BUDGET_PROGRAM_ID: [u8; 32] = [
    3, 6, 70, 111, 229, 33, 23, 50, 255, 236, 173, 186, 114, 195, 155, 231, 188, 140, 229, 187,
    197, 247, 18, 107, 44, 67, 155, 58, 64, 0, 0, 0,
];

/// The system program, `11111111111111111111111111111111`.
pub const SYSTEM_PROGRAM_ID: [u8; 32] = [
    0, 0, 0, 0, 0, 0, 0, 0, 0, 0, 0, 0, 0, 0, 0, 0, 0, 0, 0, 0, 0, 0, 0, 0, 0, 0, 0, 0, 0, 0, 0, 0,
];

/// The rent sysvar, `SysvarRent111111111111111111111111111111111`.
pub const RENT_SYSVAR_ID: [u8; 32] = [
    6, 167, 213, 23, 25, 44, 92, 81, 33, 140, 201, 76, 61, 74, 241, 127, 88, 218, 238, 8, 155,
    161, 253, 68, 227, 219, 217, 138, 0, 0, 0, 0,
];

/// The mint of the wrapped native token, `So11111111111111111111111111111111111111112`.
pub const WRAPPED_NATIVE_MINT: [u8; 32] = [
    6, 155, 136, 87, 254, 171, 129, 132, 251, 104, 127, 99, 70, 24, 192, 53, 218, 196, 57, 220,
    26, 235, 59, 85, 152, 160, 240, 0, 0, 0, 0, 1,
];

/// An account address.
#[derive(Clone, Copy, Debug)]
pub struct Pubkey {
    pub bytes: [u8; 32],
}

impl View for Pubkey {
    type V = Seq<u8>;

    open spec fn view(&self) -> Seq<u8> {
        self.bytes@
    }
}

impl PartialEq for Pubkey {
    fn eq(&self, other: &Pubkey) -> (r: bool) {
        let mut i: usize = 0;
        while i < 32
            invariant
                i <= 32,
                forall|j: int| 0 <= j < i ==> self.bytes@[j] == other.bytes@[j],
            decreases 32 - i,
        {
            if self.bytes[i] != other.bytes[i] {
                return false;
            }
            i += 1;
        }
        assert(self.bytes =~= other.bytes);
        true
    }
}

impl Eq for Pubkey {

}

impl PartialEqSpecImpl for Pubkey {
    open spec fn obeys_eq_spec() -> bool {
        true
    }

    open spec fn eq_spec(&self, other: &Pubkey) -> bool {
        *self == *other
    }
}

impl Pubkey {
    pub fn new_from_array(bytes: [u8; 32]) -> (key: Pubkey)
        ensures
            key.bytes == bytes,
    {
        Pubkey { bytes }
    }

    pub fn to_bytes(&self) -> (bytes: [u8; 32])
        ensures
            bytes == self.bytes,
    {
        self.bytes
    }

    /// The address as a byte vector, for use as a derivation seed.
    pub fn to_vec(&self) -> (out: Vec<u8>)
        ensures
            out@ == self@,
    {
        array_to_vec(&self.bytes)
    }

    /// Whether this is the mint of the wrapped native token.
    pub fn is_wrapped_native_mint(&self) -> (r: bool)
        ensures
            r == (self@ == WRAPPED_NATIVE_MINT@),
    {
        let mint = Pubkey::new_from_array(WRAPPED_NATIVE_MINT);
        proof {
            lemma_same_bytes_same_key(*self, mint);
        }
        *self == mint
    }
}

/// Two addresses are the same address exactly when their bytes agree.
pub proof fn lemma_same_bytes_same_key(a: Pubkey, b: Pubkey)
    ensures
        a@ == b@ <==> a == b,
        a@.len() == 32,
{
    if a@ == b@ {
        assert(a.bytes =~= b.bytes);
    }
}

/// The bytes of an array, as a vector.
pub fn array_to_vec<const N: usize>(bytes: &[u8; N]) -> (out: Vec<u8>)
    ensures
        out@ == bytes@,
{
    let mut out: Vec<u8> = Vec::new();
    let mut i: usize = 0;
    while i < N
        invariant
            i <= N,
            out@ == bytes@.subrange(0, i as int),
        decreases N - i,
    {
        out.push(bytes[i]);
        assert(bytes@.subrange(0, i as int).push(bytes@[i as int]) =~= bytes@.subrange(
            0,
            i + 1,
        ));
        i += 1;
    }
    assert(bytes@.subrange(0, N as int) =~= bytes@);
    out
}

pub fn lb_clmm_program() -> (key: Pubkey)
    ensures
        key@ == LB_CLMM_PROGRAM_ID@,
{
    Pubkey::new_from_array(LB_CLMM_PROGRAM_ID)
}

pub fn token_program() -> (key: Pubkey)
    ensures
        key@ == TOKEN_PROGRAM_ID@,
{
    Pubkey::new_from_array(TOKEN_PROGRAM_ID)
}

pub fn associated_token_program() -> (key: Pubkey)
    ensures
        key@ == ASSOCIATED_TOKEN_PROGRAM_ID@,
{
    Pubkey::new_from_array(ASSOCIATED_TOKEN_PROGRAM_ID)
}

pub fn token_metadata_program() -> (key: Pubkey)
    ensures
        key@ == TOKEN_METADATA_PROGRAM_ID@,
{
    Pubkey::new_from_array(TOKEN_METADATA_PROGRAM_ID)
}

pub fn compute_budget_program() -> (key: Pubkey)
    ensures
        key@ == COMPUTE_BUDGET_PROGRAM_ID@,
{
    Pubkey::new_from_array(COMPUTE_BUDGET_PROGRAM_ID)
}

pub fn system_program() -> (key: Pubkey)
    ensures
        key@ == SYSTEM_PROGRAM_ID@,
{
    Pubkey::new_from_array(SYSTEM_PROGRAM_ID)
}

pub fn rent_sysvar() -> (key: Pubkey)
    ensures
        key@ == RENT_SYSVAR_ID@,
{
    Pubkey::new_from_array(RENT_SYSVAR_ID)
}

pub fn wrapped_native_mint() -> (key: Pubkey)
    ensures
        key@ == WRAPPED_NATIVE_MINT@,
{
    Pubkey::new_from_array(WRAPPED_NATIVE_MINT)
}

} // verus!
