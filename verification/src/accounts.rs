//! The account list of each instruction of the liquidity program: which accounts, in which
//! order, which of them sign and which may be written.

use crate::instruction::{metas_view, readonly, writable, AccountMeta, AccountMetaView};
use crate::pubkey::Pubkey;
use vstd::prelude::*;

verus! {

/// The view of a concatenation is the concatenation of the views.
pub proof fn lemma_metas_view_concat(front: Seq<AccountMeta>, back: Seq<AccountMeta>)
    ensures
        metas_view(front + back) == metas_view(front) + metas_view(back),
{
    assert(metas_view(front + back) =~= metas_view(front) + metas_view(back));
}

/// Accounts for opening a position.
#[derive(Clone, Copy, Debug, PartialEq, Eq)]
pub struct InitializePosition {
    pub lb_pair: Pubkey,
    pub payer: Pubkey,
    pub position: Pubkey,
    pub owner: Pubkey,
    pub rent: Pubkey,
    pub system_program: Pubkey,
    pub event_authority: Pubkey,
}

/// [`InitializePosition`] with each address as its bytes.
pub struct InitializePositionView {
    pub lb_pair: Seq<u8>,
    pub payer: Seq<u8>,
    pub position: Seq<u8>,
    pub owner: Seq<u8>,
    pub rent: Seq<u8>,
    pub system_program: Seq<u8>,
    pub event_authority: Seq<u8>,
}

impl View for InitializePosition {
    type V = InitializePositionView;

    open spec fn view(&self) -> InitializePositionView {
        InitializePositionView {
            lb_pair: self.lb_pair@,
            payer: self.payer@,
            position: self.position@,
            owner: self.owner@,
            rent: self.rent@,
            system_program: self.system_program@,
            event_authority: self.event_authority@,
        }
    }
}

impl InitializePositionView {
    /// The pool is read. The payer funds the new account, so it is written and signs. The
    /// position is created, so it is written and signs. The owner signs.
    pub open spec fn account_metas(self) -> Seq<AccountMetaView> {
        seq![
            readonly(self.lb_pair, false),
            writable(self.payer, true),
            writable(self.position, true),
            readonly(self.owner, true),
            readonly(self.rent, false),
            readonly(self.system_program, false),
            readonly(self.event_authority, false),
        ]
    }
}

impl InitializePosition {
    /// The account list, in the order in which the program reads it.
    pub fn to_account_metas(&self) -> (metas: Vec<AccountMeta>)
        ensures
            metas_view(metas@) == self@.account_metas(),
    {
        let metas = vec![
            AccountMeta::new_readonly(self.lb_pair, false),
            AccountMeta::new(self.payer, true),
            AccountMeta::new(self.position, true),
            AccountMeta::new_readonly(self.owner, true),
            AccountMeta::new_readonly(self.rent, false),
            AccountMeta::new_readonly(self.system_program, false),
            AccountMeta::new_readonly(self.event_authority, false),
        ];
        assert(metas_view(metas@) =~= self@.account_metas());
        metas
    }
}

/// Accounts for depositing into a position and for withdrawing from it.
#[derive(Clone, Copy, Debug, PartialEq, Eq)]
pub struct ModifyLiquidity {
    pub bin_array_lower: Pubkey,
    pub bin_array_upper: Pubkey,
    pub lb_pair: Pubkey,
    /// The pool's bitmap extension, where it exists on chain.
    pub bin_array_bitmap_extension: Option<Pubkey>,
    pub position: Pubkey,
    pub reserve_x: Pubkey,
    pub reserve_y: Pubkey,
    pub token_x_mint: Pubkey,
    pub token_y_mint: Pubkey,
    pub sender: Pubkey,
    pub user_token_x: Pubkey,
    pub user_token_y: Pubkey,
    pub token_x_program: Pubkey,
    pub token_y_program: Pubkey,
    pub event_authority: Pubkey,
}

/// [`ModifyLiquidity`] with each address as its bytes.
pub struct ModifyLiquidityView {
    pub bin_array_lower: Seq<u8>,
    pub bin_array_upper: Seq<u8>,
    pub lb_pair: Seq<u8>,
    pub bin_array_bitmap_extension: Option<Seq<u8>>,
    pub position: Seq<u8>,
    pub reserve_x: Seq<u8>,
    pub reserve_y: Seq<u8>,
    pub token_x_mint: Seq<u8>,
    pub token_y_mint: Seq<u8>,
    pub sender: Seq<u8>,
    pub user_token_x: Seq<u8>,
    pub user_token_y: Seq<u8>,
    pub token_x_program: Seq<u8>,
    pub token_y_program: Seq<u8>,
    pub event_authority: Seq<u8>,
}

impl View for ModifyLiquidity {
    type V = ModifyLiquidityView;

    open spec fn view(&self) -> ModifyLiquidityView {
        ModifyLiquidityView {
            bin_array_lower: self.bin_array_lower@,
            bin_array_upper: self.bin_array_upper@,
            lb_pair: self.lb_pair@,
            bin_array_bitmap_extension: match self.bin_array_bitmap_extension {
                Some(extension) => Some(extension@),
                None => None,
            },
            position: self.position@,
            reserve_x: self.reserve_x@,
            reserve_y: self.reserve_y@,
            token_x_mint: self.token_x_mint@,
            token_y_mint: self.token_y_mint@,
            sender: self.sender@,
            user_token_x: self.user_token_x@,
            user_token_y: self.user_token_y@,
            token_x_program: self.token_x_program@,
            token_y_program: self.token_y_program@,
            event_authority: self.event_authority@,
        }
    }
}

impl ModifyLiquidityView {
    /// The references that stand before the place of the bitmap extension.
    pub open spec fn leading_metas(self) -> Seq<AccountMetaView> {
        seq![
            writable(self.bin_array_lower, false),
            writable(self.bin_array_upper, false),
            writable(self.lb_pair, false),
        ]
    }

    /// The references that stand behind the place of the bitmap extension.
    pub open spec fn trailing_metas(self) -> Seq<AccountMetaView> {
        seq![
            writable(self.position, false),
            writable(self.reserve_x, false),
            writable(self.reserve_y, false),
            readonly(self.token_x_mint, false),
            readonly(self.token_y_mint, false),
            readonly(self.sender, true),
            writable(self.user_token_x, false),
            writable(self.user_token_y, false),
            readonly(self.token_x_program, false),
            readonly(self.token_y_program, false),
            readonly(self.event_authority, false),
        ]
    }

    /// The bitmap extension stands once, behind the pool, where it is present, and nowhere
    /// where it is absent. The sender signs; mints, token programs and the event authority
    /// are read; the rest is written.
    pub open spec fn account_metas(self) -> Seq<AccountMetaView> {
        match self.bin_array_bitmap_extension {
            Some(extension) => self.leading_metas() + seq![writable(extension, false)]
                + self.trailing_metas(),
            None => self.leading_metas() + self.trailing_metas(),
        }
    }
}

impl ModifyLiquidity {
    /// The account list, in the order in which the program reads it.
    pub fn to_account_metas(&self) -> (metas: Vec<AccountMeta>)
        ensures
            metas_view(metas@) == self@.account_metas(),
    {
        let mut metas = vec![
            AccountMeta::new(self.bin_array_lower, false),
            AccountMeta::new(self.bin_array_upper, false),
            AccountMeta::new(self.lb_pair, false),
        ];
        assert(metas_view(metas@) =~= self@.leading_metas());
        if let Some(extension) = self.bin_array_bitmap_extension {
            let ghost before = metas@;
            metas.push(AccountMeta::new(extension, false));
            assert(metas_view(metas@) =~= metas_view(before) + seq![writable(extension@, false)]);
        }
        let mut trailing = vec![
            AccountMeta::new(self.position, false),
            AccountMeta::new(self.reserve_x, false),
            AccountMeta::new(self.reserve_y, false),
            AccountMeta::new_readonly(self.token_x_mint, false),
            AccountMeta::new_readonly(self.token_y_mint, false),
            AccountMeta::new_readonly(self.sender, true),
            AccountMeta::new(self.user_token_x, false),
            AccountMeta::new(self.user_token_y, false),
            AccountMeta::new_readonly(self.token_x_program, false),
            AccountMeta::new_readonly(self.token_y_program, false),
            AccountMeta::new_readonly(self.event_authority, false),
        ];
        assert(metas_view(trailing@) =~= self@.trailing_metas());
        proof {
            lemma_metas_view_concat(metas@, trailing@);
        }
        metas.append(&mut trailing);
        metas
    }
}

/// Accounts for claiming the fees that a position has earned.
#[derive(Clone, Copy, Debug, PartialEq, Eq)]
pub struct ClaimFee {
    pub bin_array_lower: Pubkey,
    pub bin_array_upper: Pubkey,
    pub lb_pair: Pubkey,
    pub position: Pubkey,
    pub sender: Pubkey,
    pub reserve_x: Pubkey,
    pub reserve_y: Pubkey,
    pub token_x_mint: Pubkey,
    pub token_y_mint: Pubkey,
    pub token_program: Pubkey,
    pub user_token_x: Pubkey,
    pub user_token_y: Pubkey,
    pub event_authority: Pubkey,
}

/// [`ClaimFee`] with each address as its bytes.
pub struct ClaimFeeView {
    pub bin_array_lower: Seq<u8>,
    pub bin_array_upper: Seq<u8>,
    pub lb_pair: Seq<u8>,
    pub position: Seq<u8>,
    pub sender: Seq<u8>,
    pub reserve_x: Seq<u8>,
    pub reserve_y: Seq<u8>,
    pub token_x_mint: Seq<u8>,
    pub token_y_mint: Seq<u8>,
    pub token_program: Seq<u8>,
    pub user_token_x: Seq<u8>,
    pub user_token_y: Seq<u8>,
    pub event_authority: Seq<u8>,
}

impl View for ClaimFee {
    type V = ClaimFeeView;

    open spec fn view(&self) -> ClaimFeeView {
        ClaimFeeView {
            bin_array_lower: self.bin_array_lower@,
            bin_array_upper: self.bin_array_upper@,
            lb_pair: self.lb_pair@,
            position: self.position@,
            sender: self.sender@,
            reserve_x: self.reserve_x@,
            reserve_y: self.reserve_y@,
            token_x_mint: self.token_x_mint@,
            token_y_mint: self.token_y_mint@,
            token_program: self.token_program@,
            user_token_x: self.user_token_x@,
            user_token_y: self.user_token_y@,
            event_authority: self.event_authority@,
        }
    }
}

impl ClaimFeeView {
    /// The sender signs. Bin arrays, pool, position, reserves and the sender's token accounts
    /// are written.
    pub open spec fn account_metas(self) -> Seq<AccountMetaView> {
        seq![
            writable(self.bin_array_lower, false),
            writable(self.bin_array_upper, false),
            writable(self.lb_pair, false),
            writable(self.position, false),
            readonly(self.sender, true),
            writable(self.reserve_x, false),
            writable(self.reserve_y, false),
            readonly(self.token_x_mint, false),
            readonly(self.token_y_mint, false),
            readonly(self.token_program, false),
            writable(self.user_token_x, false),
            writable(self.user_token_y, false),
            readonly(self.event_authority, false),
        ]
    }
}

impl ClaimFee {
    /// The account list, in the order in which the program reads it.
    pub fn to_account_metas(&self) -> (metas: Vec<AccountMeta>)
        ensures
            metas_view(metas@) == self@.account_metas(),
    {
        let metas = vec![
            AccountMeta::new(self.bin_array_lower, false),
            AccountMeta::new(self.bin_array_upper, false),
            AccountMeta::new(self.lb_pair, false),
            AccountMeta::new(self.position, false),
            AccountMeta::new_readonly(self.sender, true),
            AccountMeta::new(self.reserve_x, false),
            AccountMeta::new(self.reserve_y, false),
            AccountMeta::new_readonly(self.token_x_mint, false),
            AccountMeta::new_readonly(self.token_y_mint, false),
            AccountMeta::new_readonly(self.token_program, false),
            AccountMeta::new(self.user_token_x, false),
            AccountMeta::new(self.user_token_y, false),
            AccountMeta::new_readonly(self.event_authority, false),
        ];
        assert(metas_view(metas@) =~= self@.account_metas());
        metas
    }
}

/// Accounts for closing a position.
#[derive(Clone, Copy, Debug, PartialEq, Eq)]
pub struct ClosePosition {
    pub bin_array_lower: Pubkey,
    pub bin_array_upper: Pubkey,
    pub lb_pair: Pubkey,
    pub position: Pubkey,
    pub sender: Pubkey,
    /// The account that gets the rent of the closed position back.
    pub rent_receiver: Pubkey,
    pub event_authority: Pubkey,
}

/// [`ClosePosition`] with each address as its bytes.
pub struct ClosePositionView {
    pub bin_array_lower: Seq<u8>,
    pub bin_array_upper: Seq<u8>,
    pub lb_pair: Seq<u8>,
    pub position: Seq<u8>,
    pub sender: Seq<u8>,
    pub rent_receiver: Seq<u8>,
    pub event_authority: Seq<u8>,
}

impl View for ClosePosition {
    type V = ClosePositionView;

    open spec fn view(&self) -> ClosePositionView {
        ClosePositionView {
            bin_array_lower: self.bin_array_lower@,
            bin_array_upper: self.bin_array_upper@,
            lb_pair: self.lb_pair@,
            position: self.position@,
            sender: self.sender@,
            rent_receiver: self.rent_receiver@,
            event_authority: self.event_authority@,
        }
    }
}

impl ClosePositionView {
    /// The sender signs. The rent receiver is written: it gets the rent of the closed account.
    pub open spec fn account_metas(self) -> Seq<AccountMetaView> {
        seq![
            writable(self.bin_array_lower, false),
            writable(self.bin_array_upper, false),
            writable(self.lb_pair, false),
            writable(self.position, false),
            readonly(self.sender, true),
            writable(self.rent_receiver, false),
            readonly(self.event_authority, false),
        ]
    }
}

impl ClosePosition {
    /// The account list, in the order in which the program reads it.
    pub fn to_account_metas(&self) -> (metas: Vec<AccountMeta>)
        ensures
            metas_view(metas@) == self@.account_metas(),
    {
        let metas = vec![
            AccountMeta::new(self.bin_array_lower, false),
            AccountMeta::new(self.bin_array_upper, false),
            AccountMeta::new(self.lb_pair, false),
            AccountMeta::new(self.position, false),
            AccountMeta::new_readonly(self.sender, true),
            AccountMeta::new(self.rent_receiver, false),
            AccountMeta::new_readonly(self.event_authority, false),
        ];
        assert(metas_view(metas@) =~= self@.account_metas());
        metas
    }
}

} // verus!
