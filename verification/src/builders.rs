//! Instruction builders: from a resolved account set and the operation's parameters to the
//! instruction that asks the liquidity program for the operation. A builder reads nothing
//! and changes nothing outside its result.

use crate::accounts::{
    ClaimFee, ClaimFeeView, ClosePosition, ClosePositionView, InitializePosition,
    InitializePositionView, ModifyLiquidity, ModifyLiquidityView,
};
use crate::args::{
    add_liquidity_by_strategy_data, claim_fee_data, close_position_data,
    initialize_position_data, remove_all_liquidity_data, spec_add_liquidity_by_strategy_data,
    spec_initialize_position_data, LiquidityParameterByStrategy, CLAIM_FEE_DISCRIMINATOR,
    CLOSE_POSITION_DISCRIMINATOR, REMOVE_ALL_LIQUIDITY_DISCRIMINATOR,
};
use crate::instruction::{
    lemma_metas_view_push, metas_view, readonly, AccountMeta, AccountMetaView, Instruction,
    InstructionView,
};
use crate::pubkey::{lb_clmm_program, Pubkey, LB_CLMM_PROGRAM_ID};
use vstd::prelude::*;

verus! {

/// The two accounts that prove ownership of a token: the owner's token account for its mint,
/// and the mint's metadata. They are given together or not at all.
#[derive(Clone, Copy, Debug, PartialEq, Eq)]
pub struct NftAccounts {
    pub token_account: Pubkey,
    pub metadata: Pubkey,
}

/// [`NftAccounts`] with each address as its bytes.
pub struct NftAccountsView {
    pub token_account: Seq<u8>,
    pub metadata: Seq<u8>,
}

impl View for NftAccounts {
    type V = NftAccountsView;

    open spec fn view(&self) -> NftAccountsView {
        NftAccountsView { token_account: self.token_account@, metadata: self.metadata@ }
    }
}

/// Optional token accounts by their view.
pub open spec fn nft_view(nft: Option<NftAccounts>) -> Option<NftAccountsView> {
    match nft {
        Some(accounts) => Some(accounts@),
        None => None,
    }
}

/// An instruction for the liquidity program.
pub open spec fn spec_liquidity_instruction(
    accounts: Seq<AccountMetaView>,
    data: Seq<u8>,
) -> InstructionView {
    InstructionView { program_id: LB_CLMM_PROGRAM_ID@, accounts, data }
}

/// The references that the token accounts add to the account list: both read-only, neither
/// a signer.
pub open spec fn spec_nft_metas(nft: Option<NftAccountsView>) -> Seq<AccountMetaView> {
    match nft {
        Some(accounts) => seq![
            readonly(accounts.token_account, false),
            readonly(accounts.metadata, false),
        ],
        None => Seq::empty(),
    }
}

/// The instruction that opens a position of `width` bins from `lower_bin_id` on.
pub open spec fn spec_initialize_position_ix(
    accounts: InitializePositionView,
    nft: Option<NftAccountsView>,
    lower_bin_id: i32,
    width: i32,
) -> InstructionView {
    spec_liquidity_instruction(
        accounts.account_metas() + spec_nft_metas(nft),
        spec_initialize_position_data(lower_bin_id, width),
    )
}

/// The instruction that deposits by strategy.
pub open spec fn spec_add_liquidity_by_strategy_ix(
    accounts: ModifyLiquidityView,
    liquidity: LiquidityParameterByStrategy,
) -> InstructionView {
    spec_liquidity_instruction(
        accounts.account_metas(),
        spec_add_liquidity_by_strategy_data(liquidity),
    )
}

/// The instruction that withdraws all liquidity of a position.
pub open spec fn spec_remove_all_liquidity_ix(accounts: ModifyLiquidityView) -> InstructionView {
    spec_liquidity_instruction(accounts.account_metas(), REMOVE_ALL_LIQUIDITY_DISCRIMINATOR@)
}

/// The instruction that claims the fees of a position.
pub open spec fn spec_claim_fee_ix(accounts: ClaimFeeView) -> InstructionView {
    spec_liquidity_instruction(accounts.account_metas(), CLAIM_FEE_DISCRIMINATOR@)
}

/// The instruction that closes a position.
pub open spec fn spec_close_position_ix(accounts: ClosePositionView) -> InstructionView {
    spec_liquidity_instruction(accounts.account_metas(), CLOSE_POSITION_DISCRIMINATOR@)
}

/// Builds the instruction that opens a position. Where token accounts are given, they are
/// appended to the account list, read-only.
pub fn initialize_position_ix(
    accounts: &InitializePosition,
    nft: Option<NftAccounts>,
    lower_bin_id: i32,
    width: i32,
) -> (ix: Instruction)
    ensures
        ix@ == spec_initialize_position_ix(accounts@, nft_view(nft), lower_bin_id, width),
{
    let mut metas = accounts.to_account_metas();
    match nft {
        Some(token) => {
            proof {
                lemma_metas_view_push(
                    metas@,
                    AccountMeta {
                        pubkey: token.token_account,
                        is_signer: false,
                        is_writable: false,
                    },
                );
            }
            metas.push(AccountMeta::new_readonly(token.token_account, false));
            proof {
                lemma_metas_view_push(
                    metas@,
                    AccountMeta { pubkey: token.metadata, is_signer: false, is_writable: false },
                );
            }
            metas.push(AccountMeta::new_readonly(token.metadata, false));
            assert(metas_view(metas@) =~= accounts@.account_metas() + spec_nft_metas(
                nft_view(nft),
            ));
        },
        None => {
            assert(metas_view(metas@) =~= accounts@.account_metas() + spec_nft_metas(
                nft_view(nft),
            ));
        },
    }
    Instruction {
        program_id: lb_clmm_program(),
        accounts: metas,
        data: initialize_position_data(lower_bin_id, width),
    }
}

/// Builds the instruction that deposits by strategy. The amounts, the active bin that the
/// depositor saw, the tolerance for its drift and the strategy go into the arguments as they
/// are given.
pub fn add_liquidity_by_strategy_ix(
    accounts: &ModifyLiquidity,
    liquidity: &LiquidityParameterByStrategy,
) -> (ix: Instruction)
    ensures
        ix@ == spec_add_liquidity_by_strategy_ix(accounts@, *liquidity),
{
    Instruction {
        program_id: lb_clmm_program(),
        accounts: accounts.to_account_metas(),
        data: add_liquidity_by_strategy_data(liquidity),
    }
}

/// Builds the instruction that withdraws all liquidity of a position.
pub fn remove_all_liquidity_ix(accounts: &ModifyLiquidity) -> (ix: Instruction)
    ensures
        ix@ == spec_remove_all_liquidity_ix(accounts@),
{
    Instruction {
        program_id: lb_clmm_program(),
        accounts: accounts.to_account_metas(),
        data: remove_all_liquidity_data(),
    }
}

/// Builds the instruction that claims the fees of a position.
pub fn claim_fee_ix(accounts: &ClaimFee) -> (ix: Instruction)
    ensures
        ix@ == spec_claim_fee_ix(accounts@),
{
    Instruction {
        program_id: lb_clmm_program(),
        accounts: accounts.to_account_metas(),
        data: claim_fee_data(),
    }
}

/// Builds the instruction that closes a position. Whether the position may be closed is for
/// the liquidity program to say.
pub fn close_position_ix(accounts: &ClosePosition) -> (ix: Instruction)
    ensures
        ix@ == spec_close_position_ix(accounts@),
{
    Instruction {
        program_id: lb_clmm_program(),
        accounts: accounts.to_account_metas(),
        data: close_position_data(),
    }
}

} // verus!
