//! The program's instructions, as its callers address them.
use vstd::prelude::*;
use crate::address::Address;
use crate::create_post::{create_post_done, CreatePost};
use crate::errors::AppError;
use crate::ledger::Ledger;
use crate::post_vote::{claim_done, vote_done, ClaimCreatorReward, VoteOnPost};
use crate::states::VoteType;
use crate::tip_creator::{tip_outcome, TipCreator};
use crate::token::TokenTransfer;

verus! {

/// The accounts of the program's initialisation: none.
#[derive(Debug, Clone, Copy)]
pub struct Initialize {}

/// Publishes a post; see `create_post::create_post`.
pub fn create_post(
    ledger: &mut Ledger,
    ctx: &CreatePost,
    title: String,
    content: String,
    now: u64,
) -> (r: Result<Address, AppError>)
    requires
        old(ledger).wf(),
    ensures
        final(ledger).wf(),
        create_post_done(*old(ledger), *final(ledger), ctx.author, title@, content@, now, r),
{
    crate::create_post::create_post(ledger, ctx, title, content, now)
}

/// Casts a vote; see `post_vote::vote_on_post`.
pub fn vote_on_post(ledger: &mut Ledger, ctx: &VoteOnPost, vote_type: VoteType) -> (r: Result<
    Address,
    AppError,
>)
    requires
        old(ledger).wf(),
    ensures
        final(ledger).wf(),
        vote_done(*old(ledger), *final(ledger), *ctx, vote_type, r),
{
    crate::post_vote::vote_on_post(ledger, ctx, vote_type)
}

/// Claims a post's reward; see `post_vote::claim_creator_reward`.
pub fn claim_creator_reward(ledger: &mut Ledger, ctx: &ClaimCreatorReward) -> (r: Result<
    TokenTransfer,
    AppError,
>)
    requires
        old(ledger).wf(),
    ensures
        final(ledger).wf(),
        claim_done(*old(ledger), *final(ledger), *ctx, r),
{
    crate::post_vote::claim_creator_reward(ledger, ctx)
}

/// Tips a creator; see `tip_creator::tip_creator_instruction`.
pub fn tip_creator(ledger: &Ledger, ctx: &TipCreator, amount: u64) -> (r: Result<
    TokenTransfer,
    AppError,
>)
    requires
        ledger.wf(),
    ensures
        r == tip_outcome(*ledger, *ctx, amount),
{
    crate::tip_creator::tip_creator_instruction(ledger, ctx, amount)
}

} // verus!
