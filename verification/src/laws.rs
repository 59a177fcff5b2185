//! What holds of every composed transaction, proved from the contracts of the operations.

use crate::accounts::{ClaimFeeView, ClosePositionView, InitializePositionView, ModifyLiquidityView};
use crate::args::{
    LiquidityParameterByStrategy, ADD_LIQUIDITY_BY_STRATEGY_DISCRIMINATOR,
    CLAIM_FEE_DISCRIMINATOR, CLOSE_POSITION_DISCRIMINATOR, INITIALIZE_POSITION_DISCRIMINATOR,
    REMOVE_ALL_LIQUIDITY_DISCRIMINATOR,
};
use crate::builders::{
    spec_add_liquidity_by_strategy_ix, spec_claim_fee_ix, spec_close_position_ix,
    spec_initialize_position_ix, spec_remove_all_liquidity_ix, NftAccountsView,
};
use crate::composer::{
    optional_seq, spec_cleanup, spec_close_account_ix, spec_compute_unit_limit_ix,
    TransactionBundleView, TransactionConfig, COMPUTE_UNIT_LIMIT,
};
use crate::instruction::{optional_view, readonly, writable, Instruction, InstructionView};
use crate::lifecycle::{
    spec_execute, spec_operation_of, spec_step, Holdings, Operation, Phase, Rejection,
};
use crate::operations::{
    spec_add_liquidity_by_strategy, spec_close_position, spec_initialize_position,
    spec_initialize_position_and_add_liquidity_by_strategy, spec_remove_all_liquidity,
    spec_remove_all_liquidity_and_close_position, AddLiquidityByStrategyParameter,
    InitPositionAndAddLiquidityByStrategyParameters, InitPositionParameters, PoolReads,
    RemoveAllLiquidityAndClosePositionParameters, RemoveAllLiquidityParameters,
};
use crate::pda::{
    fits_two_bin_arrays, lemma_bin_arrays_cover_position, pair_view,
    spec_associated_token_address, spec_bin_array, spec_bin_array_bitmap_extension,
    spec_bin_array_index, spec_bin_arrays,
};
use crate::pubkey::{
    lemma_same_bytes_same_key, Pubkey, COMPUTE_BUDGET_PROGRAM_ID, LB_CLMM_PROGRAM_ID,
    TOKEN_PROGRAM_ID, WRAPPED_NATIVE_MINT,
};
use crate::resolver::{
    spec_has_wrapped_native, spec_resolve_close_position, spec_resolve_modify_liquidity,
    spec_resolve_wrapped_native, FetchFailure, LbPair, PositionV2,
};
use vstd::prelude::*;

verus! {

/// The bin arrays that are resolved for a position are the two that cover its bins. The
/// account set of a deposit or withdrawal names first the array that holds the lowest bin
/// and then the next one, and every bin of a position that ends within the second lies in
/// one of the two.
pub proof fn lemma_resolved_bin_arrays_cover_position(
    lb_pair: Seq<u8>,
    position: Seq<u8>,
    sender: Seq<u8>,
    lower_bin_id: int,
    width: int,
    pool: LbPair,
    bitmap_extension_exists: bool,
)
    requires
        fits_two_bin_arrays(lower_bin_id, width),
    ensures
        spec_resolve_modify_liquidity(
            lb_pair,
            position,
            sender,
            lower_bin_id,
            pool,
            bitmap_extension_exists,
        ) matches Ok(accounts) ==> {
            let index = spec_bin_array_index(lower_bin_id);
            &&& spec_bin_array(lb_pair, index) matches Some((lower, _))
            &&& spec_bin_array(lb_pair, index + 1) matches Some((upper, _))
            &&& accounts.bin_array_lower == lower
            &&& accounts.bin_array_upper == upper
            &&& accounts.account_metas()[0] == writable(lower, false)
            &&& accounts.account_metas()[1] == writable(upper, false)
            &&& forall|bin_id: int|
                lower_bin_id <= bin_id < lower_bin_id + width ==> index
                    <= #[trigger] spec_bin_array_index(bin_id) <= index + 1
        },
{
    lemma_bin_arrays_cover_position(lower_bin_id, width);
}

/// The bin arrays that are resolved for closing a position are the two that cover its bins,
/// as they are for a deposit or a withdrawal.
pub proof fn lemma_close_names_the_covering_bin_arrays(
    position: Seq<u8>,
    state: PositionV2,
    rent_receiver: Option<Pubkey>,
)
    requires
        fits_two_bin_arrays(state.lower_bin_id as int, state.width as int),
    ensures
        spec_resolve_close_position(position, state, rent_receiver) matches Ok(accounts) ==> {
            let index = spec_bin_array_index(state.lower_bin_id as int);
            &&& spec_bin_array(state.lb_pair@, index) matches Some((lower, _))
            &&& spec_bin_array(state.lb_pair@, index + 1) matches Some((upper, _))
            &&& accounts.bin_array_lower == lower
            &&& accounts.bin_array_upper == upper
            &&& forall|bin_id: int|
                state.lower_bin_id <= bin_id < state.lower_bin_id + state.width ==> index
                    <= #[trigger] spec_bin_array_index(bin_id) <= index + 1
        },
{
    lemma_bin_arrays_cover_position(state.lower_bin_id as int, state.width as int);
}

/// Resolving the bin arrays of a position again gives the same two addresses: whatever two
/// resolutions for the same pool and the same lowest bin return, they return the same.
pub proof fn lemma_bin_arrays_are_determined(
    first: Option<(Pubkey, Pubkey)>,
    second: Option<(Pubkey, Pubkey)>,
    lb_pair: Pubkey,
    lower_bin_id: i32,
)
    requires
        pair_view(first) == spec_bin_arrays(lb_pair@, lower_bin_id as int),
        pair_view(second) == spec_bin_arrays(lb_pair@, lower_bin_id as int),
    ensures
        first == second,
{
    if let (Some((first_lower, first_upper)), Some((second_lower, second_upper))) = (first, second) {
        lemma_same_bytes_same_key(first_lower, second_lower);
        lemma_same_bytes_same_key(first_upper, second_upper);
    }
}

/// Whether an account list names the bitmap extension depends on its existence alone. For
/// the same pool, position and sender, the resolution succeeds or fails alike whether the
/// extension exists or not. Where it does not exist, the list has its fourteen references
/// and none for the extension. Where it exists, the list is that list with one reference to
/// the extension put in behind the pool.
pub proof fn lemma_bitmap_extension_inclusion(
    lb_pair: Seq<u8>,
    position: Seq<u8>,
    sender: Seq<u8>,
    lower_bin_id: int,
    pool: LbPair,
)
    ensures
        match (
            spec_resolve_modify_liquidity(lb_pair, position, sender, lower_bin_id, pool, false),
            spec_resolve_modify_liquidity(lb_pair, position, sender, lower_bin_id, pool, true),
        ) {
            (Ok(absent), Ok(present)) => {
                &&& absent.bin_array_bitmap_extension is None
                &&& absent.account_metas().len() == 14
                &&& spec_bin_array_bitmap_extension(lb_pair) matches Some((extension, _))
                &&& present.bin_array_bitmap_extension == Some(extension)
                &&& present.account_metas() == absent.account_metas().insert(
                    3,
                    writable(extension, false),
                )
            },
            (Err(without), Err(with)) => without == with,
            _ => false,
        },
{
    let without = spec_resolve_modify_liquidity(lb_pair, position, sender, lower_bin_id, pool, false);
    let with = spec_resolve_modify_liquidity(lb_pair, position, sender, lower_bin_id, pool, true);
    if let (Ok(absent), Ok(present)) = (without, with) {
        let extension = present.bin_array_bitmap_extension->0;
        assert(absent.leading_metas() == present.leading_metas());
        assert(absent.trailing_metas() == present.trailing_metas());
        assert(present.account_metas() =~= absent.account_metas().insert(
            3,
            writable(extension, false),
        ));
    }
}

/// A new position signs the transaction that opens it, and the accounts of a token come
/// together or not at all. The open instruction names the position as a written signer and
/// the transaction asks for its signature and no other. Without a token mint the
/// instruction has its seven accounts; with one it has two more, both read-only and neither
/// a signer.
pub proof fn lemma_new_position_signs(
    params: InitPositionParameters,
    payer: Seq<u8>,
    position: Seq<u8>,
    transaction_config: TransactionConfig,
    compute_unit_price: Option<Instruction>,
)
    ensures
        spec_initialize_position(params, payer, position, transaction_config, compute_unit_price)
            matches Ok(bundle) ==> {
            let open = bundle.instructions[1];
            &&& bundle.signers == seq![position]
            &&& bundle.config == transaction_config
            &&& spec_operation_of(open) == Some(Operation::InitializePosition)
            &&& open.accounts[1] == writable(payer, true)
            &&& open.accounts[2] == writable(position, true)
            &&& open.accounts[3] == readonly(payer, true)
            &&& params.nft_mint is None ==> open.accounts.len() == 7
            &&& params.nft_mint is Some ==> {
                &&& open.accounts.len() == 9
                &&& !open.accounts[7].is_signer && !open.accounts[7].is_writable
                &&& !open.accounts[8].is_signer && !open.accounts[8].is_writable
            }
        },
{
    let composed = spec_initialize_position(
        params,
        payer,
        position,
        transaction_config,
        compute_unit_price,
    );
    if let Ok(bundle) = composed {
        let open = bundle.instructions[1];
        assert(open.data.subrange(0, 8) =~= INITIALIZE_POSITION_DISCRIMINATOR@);
    }
}

/// What was read of the chain, with the existence of the bitmap extension set to `exists`.
pub open spec fn with_bitmap_extension(reads: PoolReads, exists: bool) -> PoolReads {
    PoolReads {
        lb_pair_state: reads.lb_pair_state,
        bitmap_extension_exists: exists,
        wrapped_native_exists: reads.wrapped_native_exists,
    }
}

/// Two transactions that differ in the bitmap extension alone: the second is the first with
/// one reference to `extension`, written and no signer, put into the account list of
/// instruction `at` behind the pool, and the first names fourteen accounts there.
pub open spec fn differ_by_bitmap_extension(
    without: TransactionBundleView,
    with: TransactionBundleView,
    at: int,
    extension: Seq<u8>,
) -> bool {
    &&& without.instructions.len() == with.instructions.len()
    &&& without.signers == with.signers
    &&& without.config == with.config
    &&& forall|i: int|
        0 <= i < with.instructions.len() && i != at ==> without.instructions[i]
            == with.instructions[i]
    &&& without.instructions[at].program_id == with.instructions[at].program_id
    &&& without.instructions[at].data == with.instructions[at].data
    &&& without.instructions[at].accounts.len() == 14
    &&& with.instructions[at].accounts == without.instructions[at].accounts.insert(
        3,
        writable(extension, false),
    )
}

/// A deposit names the bitmap extension exactly when it exists. With everything else the
/// same, the deposit is composed or refused alike; where the extension does not exist the
/// deposit instruction leaves it out, and where it exists the instruction names it once.
pub proof fn lemma_deposit_names_bitmap_extension_when_it_exists(
    params: AddLiquidityByStrategyParameter,
    payer: Seq<u8>,
    reads: PoolReads,
    position_state: Result<PositionV2, FetchFailure>,
    transaction_config: TransactionConfig,
    compute_unit_price: Option<Instruction>,
)
    ensures
        match (
            spec_add_liquidity_by_strategy(
                params,
                payer,
                with_bitmap_extension(reads, false),
                position_state,
                transaction_config,
                compute_unit_price,
            ),
            spec_add_liquidity_by_strategy(
                params,
                payer,
                with_bitmap_extension(reads, true),
                position_state,
                transaction_config,
                compute_unit_price,
            ),
        ) {
            (Ok(without), Ok(with)) => spec_bin_array_bitmap_extension(params.lb_pair@)
                matches Some((extension, _)) && differ_by_bitmap_extension(
                without,
                with,
                1,
                extension,
            ),
            (Err(first), Err(second)) => first == second,
            _ => false,
        },
{
    let absent = spec_add_liquidity_by_strategy(
        params,
        payer,
        with_bitmap_extension(reads, false),
        position_state,
        transaction_config,
        compute_unit_price,
    );
    let present = spec_add_liquidity_by_strategy(
        params,
        payer,
        with_bitmap_extension(reads, true),
        position_state,
        transaction_config,
        compute_unit_price,
    );
    if let (Ok(without), Ok(with)) = (absent, present) {
        let pool = reads.lb_pair_state->Ok_0;
        let state = position_state->Ok_0;
        lemma_bitmap_extension_inclusion(
            params.lb_pair@,
            params.position@,
            payer,
            state.lower_bin_id as int,
            pool,
        );
    }
}

/// A withdrawal names the bitmap extension exactly when it exists. With everything else the
/// same, the withdrawal is composed or refused alike; where the extension does not exist the
/// withdraw instruction leaves it out, and where it exists the instruction names it once.
pub proof fn lemma_withdrawal_names_bitmap_extension_when_it_exists(
    params: RemoveAllLiquidityParameters,
    payer: Seq<u8>,
    reads: PoolReads,
    position_state: Result<PositionV2, FetchFailure>,
    transaction_config: TransactionConfig,
)
    ensures
        match (
            spec_remove_all_liquidity(
                params,
                payer,
                with_bitmap_extension(reads, false),
                position_state,
                transaction_config,
            ),
            spec_remove_all_liquidity(
                params,
                payer,
                with_bitmap_extension(reads, true),
                position_state,
                transaction_config,
            ),
        ) {
            (Ok(without), Ok(with)) => spec_bin_array_bitmap_extension(params.lb_pair@)
                matches Some((extension, _)) && differ_by_bitmap_extension(
                without,
                with,
                1,
                extension,
            ),
            (Err(first), Err(second)) => first == second,
            _ => false,
        },
{
    let absent = spec_remove_all_liquidity(
        params,
        payer,
        with_bitmap_extension(reads, false),
        position_state,
        transaction_config,
    );
    let present = spec_remove_all_liquidity(
        params,
        payer,
        with_bitmap_extension(reads, true),
        position_state,
        transaction_config,
    );
    if let (Ok(without), Ok(with)) = (absent, present) {
        let pool = reads.lb_pair_state->Ok_0;
        let state = position_state->Ok_0;
        lemma_bitmap_extension_inclusion(
            params.lb_pair@,
            params.position@,
            payer,
            state.lower_bin_id as int,
            pool,
        );
    }
}

/// The compute-budget instruction is none of the liquidity program's.
pub proof fn lemma_compute_budget_is_no_operation()
    ensures
        spec_operation_of(spec_compute_unit_limit_ix(COMPUTE_UNIT_LIMIT)) is None,
{
    assert(COMPUTE_BUDGET_PROGRAM_ID@[0] != LB_CLMM_PROGRAM_ID@[0]);
}

/// The cleanup instruction is none of the liquidity program's.
pub proof fn lemma_cleanup_is_no_operation(account: Seq<u8>, owner: Seq<u8>)
    ensures
        spec_operation_of(spec_close_account_ix(account, owner)) is None,
{
    assert(TOKEN_PROGRAM_ID@[0] != LB_CLMM_PROGRAM_ID@[0]);
}

/// Each instruction that a builder builds asks for the operation that the builder is for.
pub proof fn lemma_builders_name_their_operation(
    open: InitializePositionView,
    nft: Option<NftAccountsView>,
    lower_bin_id: i32,
    width: i32,
    modify: ModifyLiquidityView,
    liquidity: LiquidityParameterByStrategy,
    claim: ClaimFeeView,
    close: ClosePositionView,
)
    ensures
        spec_operation_of(spec_initialize_position_ix(open, nft, lower_bin_id, width)) == Some(
            Operation::InitializePosition,
        ),
        spec_operation_of(spec_add_liquidity_by_strategy_ix(modify, liquidity)) == Some(
            Operation::AddLiquidity,
        ),
        spec_operation_of(spec_remove_all_liquidity_ix(modify)) == Some(
            Operation::RemoveAllLiquidity,
        ),
        spec_operation_of(spec_claim_fee_ix(claim)) == Some(Operation::ClaimFee),
        spec_operation_of(spec_close_position_ix(close)) == Some(Operation::ClosePosition),
{
    let open_data = spec_initialize_position_ix(open, nft, lower_bin_id, width).data;
    assert(open_data.subrange(0, 8) =~= INITIALIZE_POSITION_DISCRIMINATOR@);
    let add_data = spec_add_liquidity_by_strategy_ix(modify, liquidity).data;
    assert(add_data.subrange(0, 8) =~= ADD_LIQUIDITY_BY_STRATEGY_DISCRIMINATOR@);
    assert(add_data.subrange(0, 8)[0] != INITIALIZE_POSITION_DISCRIMINATOR@[0]);
    let remove_data = spec_remove_all_liquidity_ix(modify).data;
    assert(remove_data.subrange(0, 8) =~= REMOVE_ALL_LIQUIDITY_DISCRIMINATOR@);
    assert(remove_data.subrange(0, 8)[0] != INITIALIZE_POSITION_DISCRIMINATOR@[0]);
    assert(remove_data.subrange(0, 8)[0] != ADD_LIQUIDITY_BY_STRATEGY_DISCRIMINATOR@[0]);
    let claim_data = spec_claim_fee_ix(claim).data;
    assert(claim_data.subrange(0, 8) =~= CLAIM_FEE_DISCRIMINATOR@);
    assert(claim_data.subrange(0, 8)[0] != INITIALIZE_POSITION_DISCRIMINATOR@[0]);
    assert(claim_data.subrange(0, 8)[0] != ADD_LIQUIDITY_BY_STRATEGY_DISCRIMINATOR@[0]);
    assert(claim_data.subrange(0, 8)[0] != REMOVE_ALL_LIQUIDITY_DISCRIMINATOR@[0]);
    let close_data = spec_close_position_ix(close).data;
    assert(close_data.subrange(0, 8) =~= CLOSE_POSITION_DISCRIMINATOR@);
    assert(close_data.subrange(0, 8)[0] != INITIALIZE_POSITION_DISCRIMINATOR@[0]);
    assert(close_data.subrange(0, 8)[0] != ADD_LIQUIDITY_BY_STRATEGY_DISCRIMINATOR@[0]);
    assert(close_data.subrange(0, 8)[0] != REMOVE_ALL_LIQUIDITY_DISCRIMINATOR@[0]);
    assert(close_data.subrange(0, 8)[0] != CLAIM_FEE_DISCRIMINATOR@[0]);
}

/// In the transaction that opens a position and deposits into it, the open instruction
/// stands before the deposit: behind the compute budget come the open instruction and then
/// the deposit, whatever else the transaction holds.
pub proof fn lemma_open_precedes_deposit(
    params: InitPositionAndAddLiquidityByStrategyParameters,
    payer: Seq<u8>,
    position: Seq<u8>,
    reads: PoolReads,
    transaction_config: TransactionConfig,
    compute_unit_price: Option<Instruction>,
)
    ensures
        spec_initialize_position_and_add_liquidity_by_strategy(
            params,
            payer,
            position,
            reads,
            transaction_config,
            compute_unit_price,
        ) matches Ok(bundle) ==> {
            &&& bundle.instructions.len() >= 3
            &&& bundle.instructions[0] == spec_compute_unit_limit_ix(COMPUTE_UNIT_LIMIT)
            &&& spec_operation_of(bundle.instructions[1]) == Some(Operation::InitializePosition)
            &&& spec_operation_of(bundle.instructions[2]) == Some(Operation::AddLiquidity)
            &&& bundle.signers == seq![position]
        },
{
    let composed = spec_initialize_position_and_add_liquidity_by_strategy(
        params,
        payer,
        position,
        reads,
        transaction_config,
        compute_unit_price,
    );
    if let Ok(bundle) = composed {
        let open = bundle.instructions[1];
        let deposit = bundle.instructions[2];
        assert(open.data.subrange(0, 8) =~= INITIALIZE_POSITION_DISCRIMINATOR@);
        assert(deposit.data.subrange(0, 8) =~= ADD_LIQUIDITY_BY_STRATEGY_DISCRIMINATOR@);
        assert(deposit.data.subrange(0, 8)[0] != INITIALIZE_POSITION_DISCRIMINATOR@[0]);
    }
}

/// Whether the cleanup of the wrapped-native account is due: one of the pool's tokens is
/// the wrapped native token, and the payer's wrapped-native account exists.
pub open spec fn cleanup_due(pool: LbPair, wrapped_native_exists: bool) -> bool {
    spec_has_wrapped_native(pool) && wrapped_native_exists
}

/// A transaction whose first `leading` instructions are the compute budget, the operation's
/// own and the priority fee holds one instruction more, the cleanup, where the cleanup is
/// due, and none more where it is not.
pub open spec fn cleanup_exactly_when_due(
    bundle: TransactionBundleView,
    leading: nat,
    payer: Seq<u8>,
    pool: LbPair,
    wrapped_native_exists: bool,
) -> bool {
    if cleanup_due(pool, wrapped_native_exists) {
        &&& bundle.instructions.len() == leading + 1
        &&& spec_associated_token_address(payer, WRAPPED_NATIVE_MINT@) matches Some((account, _))
        &&& bundle.instructions[leading as int] == spec_close_account_ix(account, payer)
    } else {
        bundle.instructions.len() == leading
    }
}

/// How many instructions an optional priority fee adds.
pub open spec fn priority_fee_count(compute_unit_price: Option<Instruction>) -> nat {
    match compute_unit_price {
        Some(_) => 1,
        None => 0,
    }
}

/// A deposit ends with the cleanup of the wrapped-native account exactly when it is due.
pub proof fn lemma_cleanup_after_deposit(
    params: AddLiquidityByStrategyParameter,
    payer: Seq<u8>,
    reads: PoolReads,
    position_state: Result<PositionV2, FetchFailure>,
    transaction_config: TransactionConfig,
    compute_unit_price: Option<Instruction>,
)
    ensures
        spec_add_liquidity_by_strategy(
            params,
            payer,
            reads,
            position_state,
            transaction_config,
            compute_unit_price,
        ) matches Ok(bundle) ==> reads.lb_pair_state matches Ok(pool)
            && cleanup_exactly_when_due(
            bundle,
            2 + priority_fee_count(compute_unit_price),
            payer,
            pool,
            reads.wrapped_native_exists,
        ),
{
}

/// A withdrawal ends with the cleanup of the wrapped-native account exactly when it is due.
pub proof fn lemma_cleanup_after_withdrawal(
    params: RemoveAllLiquidityParameters,
    payer: Seq<u8>,
    reads: PoolReads,
    position_state: Result<PositionV2, FetchFailure>,
    transaction_config: TransactionConfig,
)
    ensures
        spec_remove_all_liquidity(params, payer, reads, position_state, transaction_config)
            matches Ok(bundle) ==> reads.lb_pair_state matches Ok(pool)
            && cleanup_exactly_when_due(bundle, 2, payer, pool, reads.wrapped_native_exists),
{
}

/// A withdrawal with close ends with the cleanup of the wrapped-native account exactly when
/// it is due.
pub proof fn lemma_cleanup_after_withdrawal_and_close(
    params: RemoveAllLiquidityAndClosePositionParameters,
    payer: Seq<u8>,
    reads: PoolReads,
    position_state: Result<PositionV2, FetchFailure>,
    transaction_config: TransactionConfig,
    compute_unit_price: Option<Instruction>,
)
    ensures
        spec_remove_all_liquidity_and_close_position(
            params,
            payer,
            reads,
            position_state,
            transaction_config,
            compute_unit_price,
        ) matches Ok(bundle) ==> reads.lb_pair_state matches Ok(pool)
            && cleanup_exactly_when_due(
            bundle,
            4 + priority_fee_count(compute_unit_price),
            payer,
            pool,
            reads.wrapped_native_exists,
        ),
{
}

/// An open with deposit ends with the cleanup of the wrapped-native account exactly when it
/// is due.
pub proof fn lemma_cleanup_after_open_and_deposit(
    params: InitPositionAndAddLiquidityByStrategyParameters,
    payer: Seq<u8>,
    position: Seq<u8>,
    reads: PoolReads,
    transaction_config: TransactionConfig,
    compute_unit_price: Option<Instruction>,
)
    ensures
        spec_initialize_position_and_add_liquidity_by_strategy(
            params,
            payer,
            position,
            reads,
            transaction_config,
            compute_unit_price,
        ) matches Ok(bundle) ==> reads.lb_pair_state matches Ok(pool)
            && cleanup_exactly_when_due(
            bundle,
            3 + priority_fee_count(compute_unit_price),
            payer,
            pool,
            reads.wrapped_native_exists,
        ),
{
}

/// The withdrawal, the fee claim and the close of one transaction work on one account set:
/// the same bin arrays, the same pool and the same position.
pub proof fn lemma_compound_instructions_share_accounts(
    params: RemoveAllLiquidityAndClosePositionParameters,
    payer: Seq<u8>,
    reads: PoolReads,
    position_state: Result<PositionV2, FetchFailure>,
    transaction_config: TransactionConfig,
    compute_unit_price: Option<Instruction>,
)
    ensures
        spec_remove_all_liquidity_and_close_position(
            params,
            payer,
            reads,
            position_state,
            transaction_config,
            compute_unit_price,
        ) matches Ok(bundle) ==> {
            let withdraw = bundle.instructions[1].accounts;
            let claim = bundle.instructions[2].accounts;
            let close = bundle.instructions[3].accounts;
            &&& withdraw.subrange(0, 3) == claim.subrange(0, 3)
            &&& claim.subrange(0, 4) == close.subrange(0, 4)
            &&& withdraw[withdraw.len() - 11] == claim[3]
            &&& claim[3] == writable(params.position@, false)
        },
{
    let composed = spec_remove_all_liquidity_and_close_position(
        params,
        payer,
        reads,
        position_state,
        transaction_config,
        compute_unit_price,
    );
    if let Ok(bundle) = composed {
        let withdraw = bundle.instructions[1].accounts;
        let claim = bundle.instructions[2].accounts;
        let close = bundle.instructions[3].accounts;
        assert(withdraw.subrange(0, 3) =~= claim.subrange(0, 3));
        assert(claim.subrange(0, 4) =~= close.subrange(0, 4));
    }
}

/// Executing a list that begins with `first` executes `first` and then the rest.
pub proof fn lemma_execute_first(
    position: Option<Phase>,
    first: InstructionView,
    rest: Seq<InstructionView>,
)
    ensures
        spec_execute(position, seq![first] + rest) == match spec_operation_of(first) {
            None => spec_execute(position, rest),
            Some(operation) => match spec_step(position, operation) {
                Ok(next) => spec_execute(next, rest),
                Err(rejection) => Err(rejection),
            },
        },
{
    let all = seq![first] + rest;
    assert(all[0] == first);
    assert(all.drop_first() =~= rest);
}

/// Instructions of other programs at the end of a transaction leave a position as it is.
pub proof fn lemma_execute_trailing(
    position: Option<Phase>,
    compute_unit_price: Option<InstructionView>,
    cleanup: Option<InstructionView>,
)
    requires
        compute_unit_price matches Some(ix) ==> spec_operation_of(ix) is None,
        cleanup matches Some(ix) ==> spec_operation_of(ix) is None,
    ensures
        spec_execute(position, optional_seq(compute_unit_price) + optional_seq(cleanup)) == Ok::<
            Option<Phase>,
            Rejection,
        >(position),
{
    let empty = Seq::<InstructionView>::empty();
    assert(spec_execute(position, empty) == Ok::<Option<Phase>, Rejection>(position));
    match cleanup {
        Some(ix) => {
            lemma_execute_first(position, ix, empty);
            assert(seq![ix] + empty =~= optional_seq(cleanup));
        },
        None => {},
    }
    match compute_unit_price {
        Some(ix) => {
            lemma_execute_first(position, ix, optional_seq(cleanup));
        },
        None => {
            assert(optional_seq(compute_unit_price) + optional_seq(cleanup) =~= optional_seq(
                cleanup,
            ));
        },
    }
}

/// Whether a priority fee is an instruction that no position answers to.
pub open spec fn is_no_operation(compute_unit_price: Option<Instruction>) -> bool {
    compute_unit_price matches Some(ix) ==> spec_operation_of(ix@) is None
}

/// The transaction that opens a position and deposits into it takes a position that was
/// never opened to one that holds liquidity.
pub proof fn lemma_open_and_deposit_makes_liquid(
    params: InitPositionAndAddLiquidityByStrategyParameters,
    payer: Seq<u8>,
    position: Seq<u8>,
    reads: PoolReads,
    transaction_config: TransactionConfig,
    compute_unit_price: Option<Instruction>,
)
    requires
        is_no_operation(compute_unit_price),
    ensures
        spec_initialize_position_and_add_liquidity_by_strategy(
            params,
            payer,
            position,
            reads,
            transaction_config,
            compute_unit_price,
        ) matches Ok(bundle) ==> spec_execute(None, bundle.instructions) == Ok::<
            Option<Phase>,
            Rejection,
        >(Some(Phase::Liquid(Holdings::Liquidity))),
{
    let composed = spec_initialize_position_and_add_liquidity_by_strategy(
        params,
        payer,
        position,
        reads,
        transaction_config,
        compute_unit_price,
    );
    if let Ok(bundle) = composed {
        let budget = bundle.instructions[0];
        let open = bundle.instructions[1];
        let deposit = bundle.instructions[2];
        let tail = bundle.instructions.skip(3);
        lemma_open_precedes_deposit(
            params,
            payer,
            position,
            reads,
            transaction_config,
            compute_unit_price,
        );
        lemma_compute_budget_is_no_operation();
        let pool = reads.lb_pair_state->Ok_0;
        let wrapped_native = spec_resolve_wrapped_native(
            payer,
            pool,
            reads.wrapped_native_exists,
        )->Ok_0;
        assert(tail =~= optional_seq(optional_view(compute_unit_price)) + optional_seq(
            spec_cleanup(payer, wrapped_native),
        ));
        lemma_tail_is_trailing(tail, payer, compute_unit_price, wrapped_native);
        assert(bundle.instructions =~= seq![budget] + (seq![open] + (seq![deposit] + tail)));
        lemma_execute_first(None, budget, seq![open] + (seq![deposit] + tail));
        lemma_execute_first(None, open, seq![deposit] + tail);
        lemma_execute_first(Some(Phase::Open), deposit, tail);
    }
}

/// The transaction that withdraws, claims and closes takes every position that is there
/// and not closed, whatever it holds, to a closed one.
pub proof fn lemma_withdraw_claim_close_closes(
    params: RemoveAllLiquidityAndClosePositionParameters,
    payer: Seq<u8>,
    reads: PoolReads,
    position_state: Result<PositionV2, FetchFailure>,
    transaction_config: TransactionConfig,
    compute_unit_price: Option<Instruction>,
    phase: Phase,
)
    requires
        is_no_operation(compute_unit_price),
        !(phase is Closed),
    ensures
        spec_remove_all_liquidity_and_close_position(
            params,
            payer,
            reads,
            position_state,
            transaction_config,
            compute_unit_price,
        ) matches Ok(bundle) ==> spec_execute(Some(phase), bundle.instructions) == Ok::<
            Option<Phase>,
            Rejection,
        >(Some(Phase::Closed)),
{
    let composed = spec_remove_all_liquidity_and_close_position(
        params,
        payer,
        reads,
        position_state,
        transaction_config,
        compute_unit_price,
    );
    if let Ok(bundle) = composed {
        let budget = bundle.instructions[0];
        let withdraw = bundle.instructions[1];
        let claim = bundle.instructions[2];
        let close = bundle.instructions[3];
        let tail = bundle.instructions.skip(4);
        lemma_compute_budget_is_no_operation();
        let pool = reads.lb_pair_state->Ok_0;
        let wrapped_native = spec_resolve_wrapped_native(
            payer,
            pool,
            reads.wrapped_native_exists,
        )->Ok_0;
        assert(tail =~= optional_seq(optional_view(compute_unit_price)) + optional_seq(
            spec_cleanup(payer, wrapped_native),
        ));
        lemma_tail_is_trailing(tail, payer, compute_unit_price, wrapped_native);
        assert(withdraw.data.subrange(0, 8) =~= REMOVE_ALL_LIQUIDITY_DISCRIMINATOR@);
        assert(withdraw.data.subrange(0, 8)[0] != INITIALIZE_POSITION_DISCRIMINATOR@[0]);
        assert(withdraw.data.subrange(0, 8)[0] != ADD_LIQUIDITY_BY_STRATEGY_DISCRIMINATOR@[0]);
        assert(claim.data.subrange(0, 8) =~= CLAIM_FEE_DISCRIMINATOR@);
        assert(claim.data.subrange(0, 8)[0] != INITIALIZE_POSITION_DISCRIMINATOR@[0]);
        assert(claim.data.subrange(0, 8)[0] != ADD_LIQUIDITY_BY_STRATEGY_DISCRIMINATOR@[0]);
        assert(claim.data.subrange(0, 8)[0] != REMOVE_ALL_LIQUIDITY_DISCRIMINATOR@[0]);
        lemma_close_data_names_close(close);
        assert(bundle.instructions =~= seq![budget] + (seq![withdraw] + (seq![claim] + (
            seq![close] + tail))));
        lemma_execute_first(
            Some(phase),
            budget,
            seq![withdraw] + (seq![claim] + (seq![close] + tail)),
        );
        lemma_execute_first(Some(phase), withdraw, seq![claim] + (seq![close] + tail));
        let after_withdraw = spec_step(Some(phase), Operation::RemoveAllLiquidity)->Ok_0;
        lemma_execute_first(after_withdraw, claim, seq![close] + tail);
        let after_claim = spec_step(after_withdraw, Operation::ClaimFee)->Ok_0;
        lemma_execute_first(after_claim, close, tail);
    }
}

/// A close of a position that holds liquidity or fees is refused, and the transaction with
/// it: the position stays as it was, and the refusal is what the submission returns.
pub proof fn lemma_close_of_liquid_position_is_rejected(
    position: Seq<u8>,
    position_state: Result<PositionV2, FetchFailure>,
    transaction_config: TransactionConfig,
    compute_unit_price: Option<Instruction>,
    holdings: Holdings,
)
    requires
        is_no_operation(compute_unit_price),
    ensures
        spec_close_position(position, position_state, transaction_config, compute_unit_price)
            matches Ok(bundle) ==> spec_execute(
            Some(Phase::Liquid(holdings)),
            bundle.instructions,
        ) == Err::<Option<Phase>, Rejection>(Rejection::PositionNotEmpty),
{
    let composed = spec_close_position(
        position,
        position_state,
        transaction_config,
        compute_unit_price,
    );
    if let Ok(bundle) = composed {
        let budget = bundle.instructions[0];
        let close = bundle.instructions[1];
        let tail = bundle.instructions.skip(2);
        lemma_compute_budget_is_no_operation();
        lemma_close_data_names_close(close);
        assert(bundle.instructions =~= seq![budget] + (seq![close] + tail));
        lemma_execute_first(Some(Phase::Liquid(holdings)), budget, seq![close] + tail);
        lemma_execute_first(Some(Phase::Liquid(holdings)), close, tail);
    }
}

/// An instruction of the liquidity program whose data is the close discriminator asks for a
/// close.
proof fn lemma_close_data_names_close(close: InstructionView)
    requires
        close.program_id == LB_CLMM_PROGRAM_ID@,
        close.data == CLOSE_POSITION_DISCRIMINATOR@,
    ensures
        spec_operation_of(close) == Some(Operation::ClosePosition),
{
    assert(close.data.subrange(0, 8) =~= CLOSE_POSITION_DISCRIMINATOR@);
    assert(close.data.subrange(0, 8)[0] != INITIALIZE_POSITION_DISCRIMINATOR@[0]);
    assert(close.data.subrange(0, 8)[0] != ADD_LIQUIDITY_BY_STRATEGY_DISCRIMINATOR@[0]);
    assert(close.data.subrange(0, 8)[0] != REMOVE_ALL_LIQUIDITY_DISCRIMINATOR@[0]);
    assert(close.data.subrange(0, 8)[0] != CLAIM_FEE_DISCRIMINATOR@[0]);
}

/// What follows the operation's own instructions changes no position, where it is the
/// priority fee and the cleanup.
proof fn lemma_tail_is_trailing(
    tail: Seq<InstructionView>,
    payer: Seq<u8>,
    compute_unit_price: Option<Instruction>,
    wrapped_native: Option<Seq<u8>>,
)
    requires
        is_no_operation(compute_unit_price),
        tail == optional_seq(optional_view(compute_unit_price)) + optional_seq(
            spec_cleanup(payer, wrapped_native),
        ),
    ensures
        forall|position: Option<Phase>|
            spec_execute(position, tail) == Ok::<Option<Phase>, Rejection>(position),
{
    let cleanup = spec_cleanup(payer, wrapped_native);
    match wrapped_native {
        Some(account) => {
            lemma_cleanup_is_no_operation(account, payer);
        },
        None => {},
    }
    assert forall|position: Option<Phase>|
        spec_execute(position, tail) == Ok::<Option<Phase>, Rejection>(position) by {
        lemma_execute_trailing(position, optional_view(compute_unit_price), cleanup);
    }
}

} // verus!
