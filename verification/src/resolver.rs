//! Account-set resolution: from what an operation names and what was read of the chain to
//! the exact accounts that its instructions need.
//!
//! Reading the chain is the caller's part. It hands in what it read: the pool's state, the
//! position's state, and whether the accounts that are only sometimes there exist. An account
//! that may be absent is absent or present, never an error; a state that is needed and could
//! not be read is an error, handed back as it came.

use crate::accounts::{
    ClaimFee, ClaimFeeView, ClosePosition, ClosePositionView, InitializePosition,
    InitializePositionView, ModifyLiquidity, ModifyLiquidityView,
};
use crate::builders::{NftAccounts, NftAccountsView};
use crate::pda::{
    derive_bin_array_bitmap_extension, derive_event_authority_pda, find_metadata_pda,
    get_associated_token_address, get_bin_arrays_for_pair, spec_associated_token_address,
    spec_bin_array_bitmap_extension, spec_bin_arrays, spec_event_authority, spec_metadata,
};
use crate::pubkey::{
    lemma_same_bytes_same_key, rent_sysvar, system_program, token_program,
    wrapped_native_mint, Pubkey, RENT_SYSVAR_ID, SYSTEM_PROGRAM_ID, TOKEN_PROGRAM_ID,
    WRAPPED_NATIVE_MINT,
};
use vstd::prelude::*;

verus! {

/// Why a read of the chain gave no state: the transport failed, or nothing is stored at the
/// address. The text is the reader's.
#[derive(Clone, Debug, PartialEq, Eq)]
pub struct FetchFailure {
    pub message: String,
}

/// What is read of a pool's state.
#[derive(Clone, Copy, Debug, PartialEq, Eq)]
pub struct LbPair {
    /// The pool's account for token X.
    pub reserve_x: Pubkey,
    /// The pool's account for token Y.
    pub reserve_y: Pubkey,
    pub token_x_mint: Pubkey,
    pub token_y_mint: Pubkey,
    /// The bin that holds the current price.
    pub active_id: i32,
}

/// What is read of a position's state.
#[derive(Clone, Copy, Debug, PartialEq, Eq)]
pub struct PositionV2 {
    /// The pool that the position belongs to.
    pub lb_pair: Pubkey,
    pub owner: Pubkey,
    /// The lowest bin of the position.
    pub lower_bin_id: i32,
    /// How many bins the position covers.
    pub width: i32,
}

/// An account whose address is derived.
#[derive(Clone, Copy, Debug, PartialEq, Eq, Structural)]
pub enum DerivedAccount {
    BinArrays,
    UserTokenX,
    UserTokenY,
    BitmapExtension,
    EventAuthority,
    WrappedNativeAccount,
}

/// A required account or state could not be had.
#[derive(Clone, Debug, PartialEq, Eq)]
pub enum AccountResolutionError {
    /// The pool's state could not be read.
    PoolUnavailable(FetchFailure),
    /// The position's state could not be read.
    PositionUnavailable(FetchFailure),
    /// The position belongs to another pool than the one named.
    PositionPoolMismatch,
    /// The seeds of the account have no program address.
    AddressNotFound(DerivedAccount),
}

/// The parameters do not fit together.
#[derive(Clone, Copy, Debug, PartialEq, Eq, Structural)]
pub enum ShapeError {
    /// A token mint was given whose token account has no address.
    NftTokenAccountUnresolvable,
    /// A token mint was given whose metadata has no address.
    NftMetadataUnresolvable,
}

/// Why no transaction was composed.
#[derive(Clone, Debug, PartialEq, Eq)]
pub enum CompositionError {
    Resolution(AccountResolutionError),
    Shape(ShapeError),
}

/// The error for an account without a program address.
pub open spec fn not_found(account: DerivedAccount) -> CompositionError {
    CompositionError::Resolution(AccountResolutionError::AddressNotFound(account))
}

/// A result with its value by its view.
pub open spec fn result_view<T: View>(result: Result<T, CompositionError>) -> Result<
    T::V,
    CompositionError,
> {
    match result {
        Ok(value) => Ok(value@),
        Err(error) => Err(error),
    }
}

/// The pool's state, or the failure of its read as the error.
pub open spec fn spec_require_pool(lb_pair_state: Result<LbPair, FetchFailure>) -> Result<
    LbPair,
    CompositionError,
> {
    match lb_pair_state {
        Ok(pool) => Ok(pool),
        Err(failure) => Err(
            CompositionError::Resolution(AccountResolutionError::PoolUnavailable(failure)),
        ),
    }
}

/// The position's state where it was read and the position belongs to pool `lb_pair`.
pub open spec fn spec_require_position(
    lb_pair: Seq<u8>,
    position_state: Result<PositionV2, FetchFailure>,
) -> Result<PositionV2, CompositionError> {
    match position_state {
        Ok(state) => if state.lb_pair@ == lb_pair {
            Ok(state)
        } else {
            Err(CompositionError::Resolution(AccountResolutionError::PositionPoolMismatch))
        },
        Err(failure) => Err(
            CompositionError::Resolution(AccountResolutionError::PositionUnavailable(failure)),
        ),
    }
}

/// The accounts for opening `position` on pool `lb_pair`: the payer owns it.
pub open spec fn spec_resolve_initialize_position(
    lb_pair: Seq<u8>,
    payer: Seq<u8>,
    position: Seq<u8>,
) -> Result<InitializePositionView, CompositionError> {
    match spec_event_authority() {
        Some((event_authority, _)) => Ok(
            InitializePositionView {
                lb_pair,
                payer,
                position,
                owner: payer,
                rent: RENT_SYSVAR_ID@,
                system_program: SYSTEM_PROGRAM_ID@,
                event_authority,
            },
        ),
        None => Err(not_found(DerivedAccount::EventAuthority)),
    }
}

/// The token accounts for `nft_mint`, where one is given: the payer's token account for it
/// and its metadata.
pub open spec fn spec_resolve_nft_accounts(payer: Seq<u8>, nft_mint: Option<Pubkey>) -> Result<
    Option<NftAccountsView>,
    CompositionError,
> {
    match nft_mint {
        None => Ok(None),
        Some(mint) => match spec_associated_token_address(payer, mint@) {
            None => Err(CompositionError::Shape(ShapeError::NftTokenAccountUnresolvable)),
            Some((token_account, _)) => match spec_metadata(mint@) {
                None => Err(CompositionError::Shape(ShapeError::NftMetadataUnresolvable)),
                Some((metadata, _)) => Ok(Some(NftAccountsView { token_account, metadata })),
            },
        },
    }
}

/// The accounts for a deposit into, or a withdrawal from, `position` on pool `lb_pair`.
///
/// The bin arrays are those of the position's lowest bin. The sender's token accounts are its
/// associated accounts for the pool's two mints. The bitmap extension is named exactly when
/// it exists.
pub open spec fn spec_resolve_modify_liquidity(
    lb_pair: Seq<u8>,
    position: Seq<u8>,
    sender: Seq<u8>,
    lower_bin_id: int,
    pool: LbPair,
    bitmap_extension_exists: bool,
) -> Result<ModifyLiquidityView, CompositionError> {
    match spec_bin_arrays(lb_pair, lower_bin_id) {
        None => Err(not_found(DerivedAccount::BinArrays)),
        Some((bin_array_lower, bin_array_upper)) => match spec_associated_token_address(
            sender,
            pool.token_x_mint@,
        ) {
            None => Err(not_found(DerivedAccount::UserTokenX)),
            Some((user_token_x, _)) => match spec_associated_token_address(
                sender,
                pool.token_y_mint@,
            ) {
                None => Err(not_found(DerivedAccount::UserTokenY)),
                Some((user_token_y, _)) => match spec_bin_array_bitmap_extension(lb_pair) {
                    None => Err(not_found(DerivedAccount::BitmapExtension)),
                    Some((extension, _)) => match spec_event_authority() {
                        None => Err(not_found(DerivedAccount::EventAuthority)),
                        Some((event_authority, _)) => Ok(
                            ModifyLiquidityView {
                                bin_array_lower,
                                bin_array_upper,
                                lb_pair,
                                bin_array_bitmap_extension: if bitmap_extension_exists {
                                    Some(extension)
                                } else {
                                    None
                                },
                                position,
                                reserve_x: pool.reserve_x@,
                                reserve_y: pool.reserve_y@,
                                token_x_mint: pool.token_x_mint@,
                                token_y_mint: pool.token_y_mint@,
                                sender,
                                user_token_x,
                                user_token_y,
                                token_x_program: TOKEN_PROGRAM_ID@,
                                token_y_program: TOKEN_PROGRAM_ID@,
                                event_authority,
                            },
                        ),
                    },
                },
            },
        },
    }
}

/// The accounts for a fee claim that goes with a deposit or withdrawal on `accounts`: the
/// same bin arrays, pool, position, reserves, mints, sender and token accounts.
pub open spec fn spec_claim_fee_accounts(accounts: ModifyLiquidityView) -> ClaimFeeView {
    ClaimFeeView {
        bin_array_lower: accounts.bin_array_lower,
        bin_array_upper: accounts.bin_array_upper,
        lb_pair: accounts.lb_pair,
        position: accounts.position,
        sender: accounts.sender,
        reserve_x: accounts.reserve_x,
        reserve_y: accounts.reserve_y,
        token_x_mint: accounts.token_x_mint,
        token_y_mint: accounts.token_y_mint,
        token_program: TOKEN_PROGRAM_ID@,
        user_token_x: accounts.user_token_x,
        user_token_y: accounts.user_token_y,
        event_authority: accounts.event_authority,
    }
}

/// The accounts for closing the position that `accounts` is about: the same bin arrays, pool
/// and position; the sender gets the rent back.
pub open spec fn spec_close_position_accounts(accounts: ModifyLiquidityView) -> ClosePositionView {
    ClosePositionView {
        bin_array_lower: accounts.bin_array_lower,
        bin_array_upper: accounts.bin_array_upper,
        lb_pair: accounts.lb_pair,
        position: accounts.position,
        sender: accounts.sender,
        rent_receiver: accounts.sender,
        event_authority: accounts.event_authority,
    }
}

/// The accounts for closing `position` as its state describes it: the owner sends, and gets
/// the rent back unless another receiver is named.
pub open spec fn spec_resolve_close_position(
    position: Seq<u8>,
    state: PositionV2,
    rent_receiver: Option<Pubkey>,
) -> Result<ClosePositionView, CompositionError> {
    match spec_bin_arrays(state.lb_pair@, state.lower_bin_id as int) {
        None => Err(not_found(DerivedAccount::BinArrays)),
        Some((bin_array_lower, bin_array_upper)) => match spec_event_authority() {
            None => Err(not_found(DerivedAccount::EventAuthority)),
            Some((event_authority, _)) => Ok(
                ClosePositionView {
                    bin_array_lower,
                    bin_array_upper,
                    lb_pair: state.lb_pair@,
                    position,
                    sender: state.owner@,
                    rent_receiver: match rent_receiver {
                        Some(receiver) => receiver@,
                        None => state.owner@,
                    },
                    event_authority,
                },
            ),
        },
    }
}

/// Whether one of the pool's tokens is the wrapped native token.
pub open spec fn spec_has_wrapped_native(pool: LbPair) -> bool {
    pool.token_x_mint@ == WRAPPED_NATIVE_MINT@ || pool.token_y_mint@ == WRAPPED_NATIVE_MINT@
}

/// The payer's wrapped-native account, where the pool trades the wrapped native token and
/// the account exists; `None` where either is not so.
pub open spec fn spec_resolve_wrapped_native(
    payer: Seq<u8>,
    pool: LbPair,
    wrapped_native_exists: bool,
) -> Result<Option<Seq<u8>>, CompositionError> {
    if spec_has_wrapped_native(pool) {
        match spec_associated_token_address(payer, WRAPPED_NATIVE_MINT@) {
            None => Err(not_found(DerivedAccount::WrappedNativeAccount)),
            Some((account, _)) => if wrapped_native_exists {
                Ok(Some(account))
            } else {
                Ok(None)
            },
        }
    } else {
        Ok(None)
    }
}

/// An optional address by its bytes.
pub open spec fn key_view(key: Option<Pubkey>) -> Option<Seq<u8>> {
    match key {
        Some(key) => Some(key@),
        None => None,
    }
}

/// A result with an optional address, the address by its bytes.
pub open spec fn key_result_view(result: Result<Option<Pubkey>, CompositionError>) -> Result<
    Option<Seq<u8>>,
    CompositionError,
> {
    match result {
        Ok(key) => Ok(key_view(key)),
        Err(error) => Err(error),
    }
}

/// A result with optional token accounts by their view.
pub open spec fn nft_result_view(result: Result<Option<NftAccounts>, CompositionError>) -> Result<
    Option<NftAccountsView>,
    CompositionError,
> {
    match result {
        Ok(Some(accounts)) => Ok(Some(accounts@)),
        Ok(None) => Ok(None),
        Err(error) => Err(error),
    }
}

/// Hands the pool's state on, or the failure of its read as the error.
pub fn require_pool(lb_pair_state: Result<LbPair, FetchFailure>) -> (result: Result<
    LbPair,
    CompositionError,
>)
    ensures
        result == spec_require_pool(lb_pair_state),
{
    match lb_pair_state {
        Ok(pool) => Ok(pool),
        Err(failure) => Err(
            CompositionError::Resolution(AccountResolutionError::PoolUnavailable(failure)),
        ),
    }
}

/// Hands the position's state on where the position belongs to pool `lb_pair`.
pub fn require_position(
    lb_pair: &Pubkey,
    position_state: Result<PositionV2, FetchFailure>,
) -> (result: Result<PositionV2, CompositionError>)
    ensures
        result == spec_require_position(lb_pair@, position_state),
{
    match position_state {
        Ok(state) => {
            proof {
                lemma_same_bytes_same_key(state.lb_pair, *lb_pair);
            }
            if state.lb_pair == *lb_pair {
                Ok(state)
            } else {
                Err(CompositionError::Resolution(AccountResolutionError::PositionPoolMismatch))
            }
        },
        Err(failure) => Err(
            CompositionError::Resolution(AccountResolutionError::PositionUnavailable(failure)),
        ),
    }
}

/// Resolves the accounts for opening `position` on pool `lb_pair`.
pub fn resolve_initialize_position(lb_pair: Pubkey, payer: Pubkey, position: Pubkey) -> (result:
    Result<InitializePosition, CompositionError>)
    ensures
        result_view(result) == spec_resolve_initialize_position(lb_pair@, payer@, position@),
{
    match derive_event_authority_pda() {
        Some((event_authority, _)) => Ok(
            InitializePosition {
                lb_pair,
                payer,
                position,
                owner: payer,
                rent: rent_sysvar(),
                system_program: system_program(),
                event_authority,
            },
        ),
        None => Err(
            CompositionError::Resolution(
                AccountResolutionError::AddressNotFound(DerivedAccount::EventAuthority),
            ),
        ),
    }
}

/// Resolves the token accounts for `nft_mint`, where one is given.
pub fn resolve_nft_accounts(payer: &Pubkey, nft_mint: Option<Pubkey>) -> (result: Result<
    Option<NftAccounts>,
    CompositionError,
>)
    ensures
        nft_result_view(result) == spec_resolve_nft_accounts(payer@, nft_mint),
{
    match nft_mint {
        None => Ok(None),
        Some(mint) => match get_associated_token_address(payer, &mint) {
            None => Err(CompositionError::Shape(ShapeError::NftTokenAccountUnresolvable)),
            Some((token_account, _)) => match find_metadata_pda(&mint) {
                None => Err(CompositionError::Shape(ShapeError::NftMetadataUnresolvable)),
                Some((metadata, _)) => Ok(Some(NftAccounts { token_account, metadata })),
            },
        },
    }
}

/// Resolves the accounts for a deposit into, or a withdrawal from, `position` on pool
/// `lb_pair`.
pub fn resolve_modify_liquidity(
    lb_pair: Pubkey,
    position: Pubkey,
    sender: Pubkey,
    lower_bin_id: i32,
    pool: &LbPair,
    bitmap_extension_exists: bool,
) -> (result: Result<ModifyLiquidity, CompositionError>)
    ensures
        result_view(result) == spec_resolve_modify_liquidity(
            lb_pair@,
            position@,
            sender@,
            lower_bin_id as int,
            *pool,
            bitmap_extension_exists,
        ),
{
    let (bin_array_lower, bin_array_upper) = match get_bin_arrays_for_pair(lb_pair, lower_bin_id) {
        Some(pair) => pair,
        None => {
            return Err(
                CompositionError::Resolution(
                    AccountResolutionError::AddressNotFound(DerivedAccount::BinArrays),
                ),
            );
        },
    };
    let user_token_x = match get_associated_token_address(&sender, &pool.token_x_mint) {
        Some((key, _)) => key,
        None => {
            return Err(
                CompositionError::Resolution(
                    AccountResolutionError::AddressNotFound(DerivedAccount::UserTokenX),
                ),
            );
        },
    };
    let user_token_y = match get_associated_token_address(&sender, &pool.token_y_mint) {
        Some((key, _)) => key,
        None => {
            return Err(
                CompositionError::Resolution(
                    AccountResolutionError::AddressNotFound(DerivedAccount::UserTokenY),
                ),
            );
        },
    };
    let extension = match derive_bin_array_bitmap_extension(lb_pair) {
        Some((key, _)) => key,
        None => {
            return Err(
                CompositionError::Resolution(
                    AccountResolutionError::AddressNotFound(DerivedAccount::BitmapExtension),
                ),
            );
        },
    };
    let event_authority = match derive_event_authority_pda() {
        Some((key, _)) => key,
        None => {
            return Err(
                CompositionError::Resolution(
                    AccountResolutionError::AddressNotFound(DerivedAccount::EventAuthority),
                ),
            );
        },
    };
    Ok(
        ModifyLiquidity {
            bin_array_lower,
            bin_array_upper,
            lb_pair,
            bin_array_bitmap_extension: if bitmap_extension_exists {
                Some(extension)
            } else {
                None
            },
            position,
            reserve_x: pool.reserve_x,
            reserve_y: pool.reserve_y,
            token_x_mint: pool.token_x_mint,
            token_y_mint: pool.token_y_mint,
            sender,
            user_token_x,
            user_token_y,
            token_x_program: token_program(),
            token_y_program: token_program(),
            event_authority,
        },
    )
}

/// The accounts for a fee claim that goes with a deposit or withdrawal on `accounts`.
pub fn claim_fee_accounts(accounts: &ModifyLiquidity) -> (claim: ClaimFee)
    ensures
        claim@ == spec_claim_fee_accounts(accounts@),
{
    ClaimFee {
        bin_array_lower: accounts.bin_array_lower,
        bin_array_upper: accounts.bin_array_upper,
        lb_pair: accounts.lb_pair,
        position: accounts.position,
        sender: accounts.sender,
        reserve_x: accounts.reserve_x,
        reserve_y: accounts.reserve_y,
        token_x_mint: accounts.token_x_mint,
        token_y_mint: accounts.token_y_mint,
        token_program: token_program(),
        user_token_x: accounts.user_token_x,
        user_token_y: accounts.user_token_y,
        event_authority: accounts.event_authority,
    }
}

/// The accounts for closing the position that `accounts` is about.
pub fn close_position_accounts(accounts: &ModifyLiquidity) -> (close: ClosePosition)
    ensures
        close@ == spec_close_position_accounts(accounts@),
{
    ClosePosition {
        bin_array_lower: accounts.bin_array_lower,
        bin_array_upper: accounts.bin_array_upper,
        lb_pair: accounts.lb_pair,
        position: accounts.position,
        sender: accounts.sender,
        rent_receiver: accounts.sender,
        event_authority: accounts.event_authority,
    }
}

/// Resolves the accounts for closing `position` as its state describes it.
pub fn resolve_close_position(
    position: Pubkey,
    state: &PositionV2,
    rent_receiver: Option<Pubkey>,
) -> (result: Result<ClosePosition, CompositionError>)
    ensures
        result_view(result) == spec_resolve_close_position(position@, *state, rent_receiver),
{
    let (bin_array_lower, bin_array_upper) = match get_bin_arrays_for_pair(
        state.lb_pair,
        state.lower_bin_id,
    ) {
        Some(pair) => pair,
        None => {
            return Err(
                CompositionError::Resolution(
                    AccountResolutionError::AddressNotFound(DerivedAccount::BinArrays),
                ),
            );
        },
    };
    let event_authority = match derive_event_authority_pda() {
        Some((key, _)) => key,
        None => {
            return Err(
                CompositionError::Resolution(
                    AccountResolutionError::AddressNotFound(DerivedAccount::EventAuthority),
                ),
            );
        },
    };
    Ok(
        ClosePosition {
            bin_array_lower,
            bin_array_upper,
            lb_pair: state.lb_pair,
            position,
            sender: state.owner,
            rent_receiver: match rent_receiver {
                Some(receiver) => receiver,
                None => state.owner,
            },
            event_authority,
        },
    )
}

/// Whether one of the pool's tokens is the wrapped native token.
pub fn has_wrapped_native(pool: &LbPair) -> (r: bool)
    ensures
        r == spec_has_wrapped_native(*pool),
{
    pool.token_x_mint.is_wrapped_native_mint() || pool.token_y_mint.is_wrapped_native_mint()
}

/// Resolves the payer's wrapped-native account for the cleanup at the end of a transaction:
/// it is named exactly when the pool trades the wrapped native token and the account exists.
pub fn resolve_wrapped_native(payer: &Pubkey, pool: &LbPair, wrapped_native_exists: bool) -> (result:
    Result<Option<Pubkey>, CompositionError>)
    ensures
        key_result_view(result) == spec_resolve_wrapped_native(
            payer@,
            *pool,
            wrapped_native_exists,
        ),
{
    if has_wrapped_native(pool) {
        match get_associated_token_address(payer, &wrapped_native_mint()) {
            None => Err(
                CompositionError::Resolution(
                    AccountResolutionError::AddressNotFound(DerivedAccount::WrappedNativeAccount),
                ),
            ),
            Some((account, _)) => if wrapped_native_exists {
                Ok(Some(account))
            } else {
                Ok(None)
            },
        }
    } else {
        Ok(None)
    }
}

} // verus!
