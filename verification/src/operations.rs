//! The operations on a position, each composed into one transaction: open, deposit by
//! strategy, withdraw all, close, and the two compound ones.
//!
//! An operation here is a function from what the caller names and what it read of the chain
//! to the transaction that is to be submitted. It reads nothing itself and keeps nothing
//! between calls.

use crate::args::{LiquidityParameterByStrategy, StrategyParameters};
use crate::builders::{
    add_liquidity_by_strategy_ix, claim_fee_ix, close_position_ix, initialize_position_ix,
    remove_all_liquidity_ix, spec_add_liquidity_by_strategy_ix, spec_claim_fee_ix,
    spec_close_position_ix, spec_initialize_position_ix, spec_remove_all_liquidity_ix,
};
use crate::composer::{
    cleanup_ix, compose, keys_view, spec_cleanup, spec_compose, TransactionBundle,
    TransactionBundleView, TransactionConfig,
};
use crate::instruction::{instructions_view, optional_view, Instruction};
use crate::pubkey::Pubkey;
use crate::resolver::{
    claim_fee_accounts, close_position_accounts, require_pool, require_position,
    resolve_close_position, resolve_initialize_position, resolve_modify_liquidity,
    resolve_nft_accounts, resolve_wrapped_native, result_view, spec_claim_fee_accounts,
    spec_close_position_accounts, spec_require_pool, spec_require_position,
    spec_resolve_close_position, spec_resolve_initialize_position,
    spec_resolve_modify_liquidity, spec_resolve_nft_accounts, spec_resolve_wrapped_native,
    AccountResolutionError, CompositionError, FetchFailure, LbPair, PositionV2,
};
use vstd::prelude::*;

verus! {

/// What to open: a position of `width` bins from `lower_bin_id` on, on pool `lb_pair`.
#[derive(Clone, Copy, Debug)]
pub struct InitPositionParameters {
    pub lb_pair: Pubkey,
    pub lower_bin_id: i32,
    pub width: i32,
    /// The mint of a token whose ownership the position is to be tied to.
    pub nft_mint: Option<Pubkey>,
}

/// What to deposit, into which position, and how to spread it.
#[derive(Clone, Copy, Debug)]
pub struct AddLiquidityByStrategyParameter {
    pub lb_pair: Pubkey,
    pub position: Pubkey,
    pub amount_x: u64,
    pub amount_y: u64,
    /// The active bin that the depositor saw.
    pub active_id: i32,
    /// How far the active bin may have moved since.
    pub max_active_bin_slippage: i32,
    pub strategy_parameters: StrategyParameters,
}

/// What to open and what to deposit into it at once.
#[derive(Clone, Copy, Debug)]
pub struct InitPositionAndAddLiquidityByStrategyParameters {
    pub lb_pair: Pubkey,
    pub amount_x: u64,
    pub amount_y: u64,
    pub active_id: i32,
    pub max_active_bin_slippage: i32,
    pub strategy_parameters: StrategyParameters,
    pub lower_bin_id: i32,
    pub width: i32,
    pub nft_mint: Option<Pubkey>,
}

/// The position to withdraw everything from.
#[derive(Clone, Copy, Debug)]
pub struct RemoveAllLiquidityParameters {
    pub lb_pair: Pubkey,
    pub position: Pubkey,
}

/// The position to withdraw everything from and to close.
#[derive(Clone, Copy, Debug)]
pub struct RemoveAllLiquidityAndClosePositionParameters {
    pub lb_pair: Pubkey,
    pub position: Pubkey,
}

/// What the caller read of the chain for an operation on a pool, just before composing.
#[derive(Debug)]
pub struct PoolReads {
    /// The pool's state, or why it could not be read.
    pub lb_pair_state: Result<LbPair, FetchFailure>,
    /// Whether the pool's bitmap extension exists.
    pub bitmap_extension_exists: bool,
    /// Whether the payer's wrapped-native account exists.
    pub wrapped_native_exists: bool,
}

/// The arguments of a deposit.
pub open spec fn spec_liquidity_parameter(
    amount_x: u64,
    amount_y: u64,
    active_id: i32,
    max_active_bin_slippage: i32,
    strategy_parameters: StrategyParameters,
) -> LiquidityParameterByStrategy {
    LiquidityParameterByStrategy {
        amount_x,
        amount_y,
        active_id,
        max_active_bin_slippage,
        strategy_parameters,
    }
}

/// The transaction that opens a position: the compute budget, the open instruction, then
/// the priority fee if one is given. The new position signs. A token mint that does not fit
/// is reported before anything else.
pub open spec fn spec_initialize_position(
    params: InitPositionParameters,
    payer: Seq<u8>,
    position: Seq<u8>,
    transaction_config: TransactionConfig,
    compute_unit_price: Option<Instruction>,
) -> Result<TransactionBundleView, CompositionError> {
    match spec_resolve_nft_accounts(payer, params.nft_mint) {
        Err(error) => Err(error),
        Ok(nft) => match spec_resolve_initialize_position(params.lb_pair@, payer, position) {
            Err(error) => Err(error),
            Ok(accounts) => Ok(
                spec_compose(
                    seq![
                        spec_initialize_position_ix(
                            accounts,
                            nft,
                            params.lower_bin_id,
                            params.width,
                        ),
                    ],
                    optional_view(compute_unit_price),
                    None,
                    seq![position],
                    transaction_config,
                ),
            ),
        },
    }
}

/// The transaction that deposits by strategy: the compute budget, the deposit, the priority
/// fee if one is given, and the cleanup of the wrapped-native account if it is due.
pub open spec fn spec_add_liquidity_by_strategy(
    params: AddLiquidityByStrategyParameter,
    payer: Seq<u8>,
    reads: PoolReads,
    position_state: Result<PositionV2, FetchFailure>,
    transaction_config: TransactionConfig,
    compute_unit_price: Option<Instruction>,
) -> Result<TransactionBundleView, CompositionError> {
    match spec_require_pool(reads.lb_pair_state) {
        Err(error) => Err(error),
        Ok(pool) => match spec_require_position(params.lb_pair@, position_state) {
            Err(error) => Err(error),
            Ok(state) => match spec_resolve_modify_liquidity(
                params.lb_pair@,
                params.position@,
                payer,
                state.lower_bin_id as int,
                pool,
                reads.bitmap_extension_exists,
            ) {
                Err(error) => Err(error),
                Ok(accounts) => match spec_resolve_wrapped_native(
                    payer,
                    pool,
                    reads.wrapped_native_exists,
                ) {
                    Err(error) => Err(error),
                    Ok(wrapped_native) => Ok(
                        spec_compose(
                            seq![
                                spec_add_liquidity_by_strategy_ix(
                                    accounts,
                                    spec_liquidity_parameter(
                                        params.amount_x,
                                        params.amount_y,
                                        params.active_id,
                                        params.max_active_bin_slippage,
                                        params.strategy_parameters,
                                    ),
                                ),
                            ],
                            optional_view(compute_unit_price),
                            spec_cleanup(payer, wrapped_native),
                            Seq::empty(),
                            transaction_config,
                        ),
                    ),
                },
            },
        },
    }
}

/// The transaction that withdraws all liquidity of a position: the compute budget, the
/// withdrawal, and the cleanup of the wrapped-native account if it is due.
pub open spec fn spec_remove_all_liquidity(
    params: RemoveAllLiquidityParameters,
    payer: Seq<u8>,
    reads: PoolReads,
    position_state: Result<PositionV2, FetchFailure>,
    transaction_config: TransactionConfig,
) -> Result<TransactionBundleView, CompositionError> {
    match spec_require_pool(reads.lb_pair_state) {
        Err(error) => Err(error),
        Ok(pool) => match spec_require_position(params.lb_pair@, position_state) {
            Err(error) => Err(error),
            Ok(state) => match spec_resolve_modify_liquidity(
                params.lb_pair@,
                params.position@,
                payer,
                state.lower_bin_id as int,
                pool,
                reads.bitmap_extension_exists,
            ) {
                Err(error) => Err(error),
                Ok(accounts) => match spec_resolve_wrapped_native(
                    payer,
                    pool,
                    reads.wrapped_native_exists,
                ) {
                    Err(error) => Err(error),
                    Ok(wrapped_native) => Ok(
                        spec_compose(
                            seq![spec_remove_all_liquidity_ix(accounts)],
                            None,
                            spec_cleanup(payer, wrapped_native),
                            Seq::empty(),
                            transaction_config,
                        ),
                    ),
                },
            },
        },
    }
}

/// The transaction that empties a position and closes it: the compute budget, then the
/// withdrawal, the fee claim and the close in this order and on one account set, then the
/// priority fee if one is given, and the cleanup of the wrapped-native account if it is due.
pub open spec fn spec_remove_all_liquidity_and_close_position(
    params: RemoveAllLiquidityAndClosePositionParameters,
    payer: Seq<u8>,
    reads: PoolReads,
    position_state: Result<PositionV2, FetchFailure>,
    transaction_config: TransactionConfig,
    compute_unit_price: Option<Instruction>,
) -> Result<TransactionBundleView, CompositionError> {
    match spec_require_pool(reads.lb_pair_state) {
        Err(error) => Err(error),
        Ok(pool) => match spec_require_position(params.lb_pair@, position_state) {
            Err(error) => Err(error),
            Ok(state) => match spec_resolve_modify_liquidity(
                params.lb_pair@,
                params.position@,
                payer,
                state.lower_bin_id as int,
                pool,
                reads.bitmap_extension_exists,
            ) {
                Err(error) => Err(error),
                Ok(accounts) => match spec_resolve_wrapped_native(
                    payer,
                    pool,
                    reads.wrapped_native_exists,
                ) {
                    Err(error) => Err(error),
                    Ok(wrapped_native) => Ok(
                        spec_compose(
                            seq![
                                spec_remove_all_liquidity_ix(accounts),
                                spec_claim_fee_ix(spec_claim_fee_accounts(accounts)),
                                spec_close_position_ix(spec_close_position_accounts(accounts)),
                            ],
                            optional_view(compute_unit_price),
                            spec_cleanup(payer, wrapped_native),
                            Seq::empty(),
                            transaction_config,
                        ),
                    ),
                },
            },
        },
    }
}

/// The transaction that closes a position: the compute budget, the close, then the priority
/// fee if one is given. The position's owner sends and gets the rent back.
pub open spec fn spec_close_position(
    position: Seq<u8>,
    position_state: Result<PositionV2, FetchFailure>,
    transaction_config: TransactionConfig,
    compute_unit_price: Option<Instruction>,
) -> Result<TransactionBundleView, CompositionError> {
    match position_state {
        Err(failure) => Err(
            CompositionError::Resolution(
                AccountResolutionError::PositionUnavailable(failure),
            ),
        ),
        Ok(state) => match spec_resolve_close_position(position, state, None) {
            Err(error) => Err(error),
            Ok(accounts) => Ok(
                spec_compose(
                    seq![spec_close_position_ix(accounts)],
                    optional_view(compute_unit_price),
                    None,
                    Seq::empty(),
                    transaction_config,
                ),
            ),
        },
    }
}

/// The transaction that opens a position and deposits into it: the compute budget, then the
/// open instruction and after it the deposit, then the priority fee if one is given, and
/// the cleanup of the wrapped-native account if it is due. The new position signs. A token
/// mint that does not fit is reported before anything that was read of the chain.
pub open spec fn spec_initialize_position_and_add_liquidity_by_strategy(
    params: InitPositionAndAddLiquidityByStrategyParameters,
    payer: Seq<u8>,
    position: Seq<u8>,
    reads: PoolReads,
    transaction_config: TransactionConfig,
    compute_unit_price: Option<Instruction>,
) -> Result<TransactionBundleView, CompositionError> {
    match spec_resolve_nft_accounts(payer, params.nft_mint) {
        Err(error) => Err(error),
        Ok(nft) => match spec_require_pool(reads.lb_pair_state) {
            Err(error) => Err(error),
            Ok(pool) => match spec_resolve_initialize_position(params.lb_pair@, payer, position) {
                Err(error) => Err(error),
                Ok(open_accounts) => match spec_resolve_modify_liquidity(
                    params.lb_pair@,
                    position,
                    payer,
                    params.lower_bin_id as int,
                    pool,
                    reads.bitmap_extension_exists,
                ) {
                    Err(error) => Err(error),
                    Ok(accounts) => match spec_resolve_wrapped_native(
                        payer,
                        pool,
                        reads.wrapped_native_exists,
                    ) {
                        Err(error) => Err(error),
                        Ok(wrapped_native) => Ok(
                            spec_compose(
                                seq![
                                    spec_initialize_position_ix(
                                        open_accounts,
                                        nft,
                                        params.lower_bin_id,
                                        params.width,
                                    ),
                                    spec_add_liquidity_by_strategy_ix(
                                        accounts,
                                        spec_liquidity_parameter(
                                            params.amount_x,
                                            params.amount_y,
                                            params.active_id,
                                            params.max_active_bin_slippage,
                                            params.strategy_parameters,
                                        ),
                                    ),
                                ],
                                optional_view(compute_unit_price),
                                spec_cleanup(payer, wrapped_native),
                                seq![position],
                                transaction_config,
                            ),
                        ),
                    },
                },
            },
        },
    }
}

/// Composes the transaction that opens `position`, a fresh account of the caller's making,
/// on the pool that `params` names. The payer pays for it and owns it.
pub fn initialize_position(
    params: InitPositionParameters,
    payer: Pubkey,
    position: Pubkey,
    transaction_config: TransactionConfig,
    compute_unit_price: Option<Instruction>,
) -> (result: Result<TransactionBundle, CompositionError>)
    ensures
        result_view(result) == spec_initialize_position(
            params,
            payer@,
            position@,
            transaction_config,
            compute_unit_price,
        ),
{
    let nft = match resolve_nft_accounts(&payer, params.nft_mint) {
        Ok(nft) => nft,
        Err(error) => {
            return Err(error);
        },
    };
    let accounts = match resolve_initialize_position(params.lb_pair, payer, position) {
        Ok(accounts) => accounts,
        Err(error) => {
            return Err(error);
        },
    };
    let body = vec![initialize_position_ix(&accounts, nft, params.lower_bin_id, params.width)];
    let signers = vec![position];
    assert(instructions_view(body@) =~= seq![body@[0]@]);
    assert(keys_view(signers@) =~= seq![position@]);
    Ok(compose(body, compute_unit_price, None, signers, transaction_config))
}

/// Composes the transaction that deposits into a position by strategy.
pub fn add_liquidity_by_strategy(
    params: AddLiquidityByStrategyParameter,
    payer: Pubkey,
    reads: PoolReads,
    position_state: Result<PositionV2, FetchFailure>,
    transaction_config: TransactionConfig,
    compute_unit_price: Option<Instruction>,
) -> (result: Result<TransactionBundle, CompositionError>)
    ensures
        result_view(result) == spec_add_liquidity_by_strategy(
            params,
            payer@,
            reads,
            position_state,
            transaction_config,
            compute_unit_price,
        ),
{
    let pool = match require_pool(reads.lb_pair_state) {
        Ok(pool) => pool,
        Err(error) => {
            return Err(error);
        },
    };
    let state = match require_position(&params.lb_pair, position_state) {
        Ok(state) => state,
        Err(error) => {
            return Err(error);
        },
    };
    let accounts = match resolve_modify_liquidity(
        params.lb_pair,
        params.position,
        payer,
        state.lower_bin_id,
        &pool,
        reads.bitmap_extension_exists,
    ) {
        Ok(accounts) => accounts,
        Err(error) => {
            return Err(error);
        },
    };
    let wrapped_native = match resolve_wrapped_native(&payer, &pool, reads.wrapped_native_exists) {
        Ok(account) => account,
        Err(error) => {
            return Err(error);
        },
    };
    let liquidity = LiquidityParameterByStrategy {
        amount_x: params.amount_x,
        amount_y: params.amount_y,
        active_id: params.active_id,
        max_active_bin_slippage: params.max_active_bin_slippage,
        strategy_parameters: params.strategy_parameters,
    };
    let body = vec![add_liquidity_by_strategy_ix(&accounts, &liquidity)];
    let signers: Vec<Pubkey> = Vec::new();
    assert(instructions_view(body@) =~= seq![body@[0]@]);
    assert(keys_view(signers@) =~= Seq::<Seq<u8>>::empty());
    Ok(
        compose(
            body,
            compute_unit_price,
            cleanup_ix(&payer, wrapped_native),
            signers,
            transaction_config,
        ),
    )
}

/// Composes the transaction that withdraws all liquidity of a position.
pub fn remove_all_liquidity(
    params: RemoveAllLiquidityParameters,
    payer: Pubkey,
    reads: PoolReads,
    position_state: Result<PositionV2, FetchFailure>,
    transaction_config: TransactionConfig,
) -> (result: Result<TransactionBundle, CompositionError>)
    ensures
        result_view(result) == spec_remove_all_liquidity(
            params,
            payer@,
            reads,
            position_state,
            transaction_config,
        ),
{
    let pool = match require_pool(reads.lb_pair_state) {
        Ok(pool) => pool,
        Err(error) => {
            return Err(error);
        },
    };
    let state = match require_position(&params.lb_pair, position_state) {
        Ok(state) => state,
        Err(error) => {
            return Err(error);
        },
    };
    let accounts = match resolve_modify_liquidity(
        params.lb_pair,
        params.position,
        payer,
        state.lower_bin_id,
        &pool,
        reads.bitmap_extension_exists,
    ) {
        Ok(accounts) => accounts,
        Err(error) => {
            return Err(error);
        },
    };
    let wrapped_native = match resolve_wrapped_native(&payer, &pool, reads.wrapped_native_exists) {
        Ok(account) => account,
        Err(error) => {
            return Err(error);
        },
    };
    let body = vec![remove_all_liquidity_ix(&accounts)];
    let signers: Vec<Pubkey> = Vec::new();
    assert(instructions_view(body@) =~= seq![body@[0]@]);
    assert(keys_view(signers@) =~= Seq::<Seq<u8>>::empty());
    Ok(compose(body, None, cleanup_ix(&payer, wrapped_native), signers, transaction_config))
}

/// Composes the transaction that withdraws all liquidity of a position, claims its fees and
/// closes it.
pub fn remove_all_liquidity_and_close_position(
    params: RemoveAllLiquidityAndClosePositionParameters,
    payer: Pubkey,
    reads: PoolReads,
    position_state: Result<PositionV2, FetchFailure>,
    transaction_config: TransactionConfig,
    compute_unit_price: Option<Instruction>,
) -> (result: Result<TransactionBundle, CompositionError>)
    ensures
        result_view(result) == spec_remove_all_liquidity_and_close_position(
            params,
            payer@,
            reads,
            position_state,
            transaction_config,
            compute_unit_price,
        ),
{
    let pool = match require_pool(reads.lb_pair_state) {
        Ok(pool) => pool,
        Err(error) => {
            return Err(error);
        },
    };
    let state = match require_position(&params.lb_pair, position_state) {
        Ok(state) => state,
        Err(error) => {
            return Err(error);
        },
    };
    let accounts = match resolve_modify_liquidity(
        params.lb_pair,
        params.position,
        payer,
        state.lower_bin_id,
        &pool,
        reads.bitmap_extension_exists,
    ) {
        Ok(accounts) => accounts,
        Err(error) => {
            return Err(error);
        },
    };
    let wrapped_native = match resolve_wrapped_native(&payer, &pool, reads.wrapped_native_exists) {
        Ok(account) => account,
        Err(error) => {
            return Err(error);
        },
    };
    let body = vec![
        remove_all_liquidity_ix(&accounts),
        claim_fee_ix(&claim_fee_accounts(&accounts)),
        close_position_ix(&close_position_accounts(&accounts)),
    ];
    let signers: Vec<Pubkey> = Vec::new();
    assert(instructions_view(body@) =~= seq![body@[0]@, body@[1]@, body@[2]@]);
    assert(keys_view(signers@) =~= Seq::<Seq<u8>>::empty());
    Ok(
        compose(
            body,
            compute_unit_price,
            cleanup_ix(&payer, wrapped_native),
            signers,
            transaction_config,
        ),
    )
}

/// Composes the transaction that closes `position`.
pub fn close_position(
    position: Pubkey,
    position_state: Result<PositionV2, FetchFailure>,
    transaction_config: TransactionConfig,
    compute_unit_price: Option<Instruction>,
) -> (result: Result<TransactionBundle, CompositionError>)
    ensures
        result_view(result) == spec_close_position(
            position@,
            position_state,
            transaction_config,
            compute_unit_price,
        ),
{
    let state = match position_state {
        Ok(state) => state,
        Err(failure) => {
            return Err(
                CompositionError::Resolution(
                    AccountResolutionError::PositionUnavailable(failure),
                ),
            );
        },
    };
    let accounts = match resolve_close_position(position, &state, None) {
        Ok(accounts) => accounts,
        Err(error) => {
            return Err(error);
        },
    };
    let body = vec![close_position_ix(&accounts)];
    let signers: Vec<Pubkey> = Vec::new();
    assert(instructions_view(body@) =~= seq![body@[0]@]);
    assert(keys_view(signers@) =~= Seq::<Seq<u8>>::empty());
    Ok(compose(body, compute_unit_price, None, signers, transaction_config))
}

/// Composes the transaction that opens `position`, a fresh account of the caller's making,
/// and deposits into it.
pub fn initialize_position_and_add_liquidity_by_strategy(
    params: InitPositionAndAddLiquidityByStrategyParameters,
    payer: Pubkey,
    position: Pubkey,
    reads: PoolReads,
    transaction_config: TransactionConfig,
    compute_unit_price: Option<Instruction>,
) -> (result: Result<TransactionBundle, CompositionError>)
    ensures
        result_view(result) == spec_initialize_position_and_add_liquidity_by_strategy(
            params,
            payer@,
            position@,
            reads,
            transaction_config,
            compute_unit_price,
        ),
{
    let nft = match resolve_nft_accounts(&payer, params.nft_mint) {
        Ok(nft) => nft,
        Err(error) => {
            return Err(error);
        },
    };
    let pool = match require_pool(reads.lb_pair_state) {
        Ok(pool) => pool,
        Err(error) => {
            return Err(error);
        },
    };
    let open_accounts = match resolve_initialize_position(params.lb_pair, payer, position) {
        Ok(accounts) => accounts,
        Err(error) => {
            return Err(error);
        },
    };
    let accounts = match resolve_modify_liquidity(
        params.lb_pair,
        position,
        payer,
        params.lower_bin_id,
        &pool,
        reads.bitmap_extension_exists,
    ) {
        Ok(accounts) => accounts,
        Err(error) => {
            return Err(error);
        },
    };
    let wrapped_native = match resolve_wrapped_native(&payer, &pool, reads.wrapped_native_exists) {
        Ok(account) => account,
        Err(error) => {
            return Err(error);
        },
    };
    let liquidity = LiquidityParameterByStrategy {
        amount_x: params.amount_x,
        amount_y: params.amount_y,
        active_id: params.active_id,
        max_active_bin_slippage: params.max_active_bin_slippage,
        strategy_parameters: params.strategy_parameters,
    };
    let body = vec![
        initialize_position_ix(&open_accounts, nft, params.lower_bin_id, params.width),
        add_liquidity_by_strategy_ix(&accounts, &liquidity),
    ];
    let signers = vec![position];
    assert(instructions_view(body@) =~= seq![body@[0]@, body@[1]@]);
    assert(keys_view(signers@) =~= seq![position@]);
    Ok(
        compose(
            body,
            compute_unit_price,
            cleanup_ix(&payer, wrapped_native),
            signers,
            transaction_config,
        ),
    )
}

} // verus!
