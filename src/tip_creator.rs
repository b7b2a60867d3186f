//! Tipping a creator who has published a post.
use vstd::prelude::*;
use crate::address::Address;
use crate::errors::AppError;
use crate::ledger::Ledger;
use crate::token::{
    mint_decimals_of, read_mint_decimals, read_token_interface_account,
    token_interface_account_of, TokenTransfer,
};

verus! {

/// The accounts of a tip.
#[derive(Debug)]
pub struct TipCreator {
    /// The token account the tip is paid from, and its data.
    pub from: Address,
    pub from_data: Vec<u8>,
    /// The token account that receives the tip, and its data; its owner is
    /// the creator.
    pub to: Address,
    pub to_data: Vec<u8>,
    /// The mint of the tip, and its data.
    pub mint: Address,
    pub mint_data: Vec<u8>,
    /// The signer that owns the paying account.
    pub authority: Address,
    /// A post of the creator, shown as evidence that the creator has posted.
    pub creator_post: Address,
}

/// The checked transfer of a tip, or why it cannot be made: the mint's data
/// must read as a mint.
pub open spec fn tip_transfer_outcome(
    from: Address,
    to: Address,
    amount: u64,
    mint: Address,
    mint_data: Seq<u8>,
    authority: Address,
) -> Result<TokenTransfer, AppError> {
    match mint_decimals_of(mint_data) {
        Some(decimals) => Ok(
            TokenTransfer::TransferChecked { from, mint, to, authority, amount, decimals },
        ),
        None => Err(AppError::AccountDidNotDeserialize),
    }
}

/// The tip's transfer, or why it is refused, checked in this order: both
/// token accounts read; the paying account is owned by the authority; both
/// hold the mint; the evidence post is stored and its author owns the
/// receiving account; the mint reads.
pub open spec fn tip_outcome(ledger: Ledger, ctx: TipCreator, amount: u64) -> Result<
    TokenTransfer,
    AppError,
> {
    match (token_interface_account_of(ctx.from_data@), token_interface_account_of(ctx.to_data@)) {
        (Some((from_mint, from_owner)), Some((to_mint, to_owner))) => if from_owner
            != ctx.authority@ {
            Err(AppError::ConstraintOwner)
        } else if from_mint != ctx.mint@ || to_mint != ctx.mint@ {
            Err(AppError::ConstraintTokenMint)
        } else if !ledger.has_post(ctx.creator_post@) || ledger.post_at(ctx.creator_post@).author@
            != to_owner {
            Err(AppError::CreatorHasNoPosts)
        } else {
            tip_transfer_outcome(ctx.from, ctx.to, amount, ctx.mint, ctx.mint_data@, ctx.authority)
        },
        _ => Err(AppError::AccountDidNotDeserialize),
    }
}

/// Checks a tip of `amount` base units to the owner of the receiving
/// account and returns the checked transfer that pays it. The records are
/// not changed.
pub fn tip_creator_instruction(ledger: &Ledger, ctx: &TipCreator, amount: u64) -> (r: Result<
    TokenTransfer,
    AppError,
>)
    requires
        ledger.wf(),
    ensures
        r == tip_outcome(*ledger, *ctx, amount),
{
    let from = match read_token_interface_account(&ctx.from_data) {
        Some(t) => t,
        None => {
            return Err(AppError::AccountDidNotDeserialize);
        },
    };
    let to = match read_token_interface_account(&ctx.to_data) {
        Some(t) => t,
        None => {
            return Err(AppError::AccountDidNotDeserialize);
        },
    };
    if from.owner != ctx.authority {
        return Err(AppError::ConstraintOwner);
    }
    if from.mint != ctx.mint || to.mint != ctx.mint {
        return Err(AppError::ConstraintTokenMint);
    }
    match ledger.post(&ctx.creator_post) {
        Some(post) => {
            if post.author != to.owner {
                return Err(AppError::CreatorHasNoPosts);
            }
        },
        None => {
            return Err(AppError::CreatorHasNoPosts);
        },
    }
    TipCreator::tip_creator(&ctx.from, &ctx.to, amount, &ctx.mint, &ctx.mint_data, &ctx.authority)
}

impl TipCreator {
    /// The checked transfer of `amount` base units of `mint` from `from` to
    /// `to`, authorised by `authority`, with the decimals read from the
    /// mint's data.
    pub fn tip_creator(
        from: &Address,
        to: &Address,
        amount: u64,
        mint: &Address,
        mint_data: &Vec<u8>,
        authority: &Address,
    ) -> (r: Result<TokenTransfer, AppError>)
        ensures
            r == tip_transfer_outcome(*from, *to, amount, *mint, mint_data@, *authority),
    {
        match read_mint_decimals(mint_data) {
            Some(decimals) => Ok(
                TokenTransfer::TransferChecked {
                    from: *from,
                    mint: *mint,
                    to: *to,
                    authority: *authority,
                    amount,
                    decimals,
                },
            ),
            None => Err(AppError::AccountDidNotDeserialize),
        }
    }
}

} // verus!
