//! What holds of the program across calls and across every reachable store.
use vstd::prelude::*;
use crate::address::{post_address_of, vote_address_of, Address};
use crate::constants::{
    CREATOR_FUND_REWARD, POST_CONTENT_MAX_LEN, POST_TITLE_MAX_LEN, TARGET_NUMBER_OF_UPVOTES,
};
use crate::create_post::{create_post_done, create_post_outcome};
use crate::errors::AppError;
use crate::ledger::{count_votes_on, lemma_count_votes_kinds, Ledger};
use crate::post_vote::{claim_done, claim_outcome, vote_done, vote_outcome, ClaimCreatorReward, VoteOnPost};
use crate::states::VoteType;
use crate::tip_creator::{tip_outcome, TipCreator};
use crate::token::{mint_decimals_of, token_interface_account_of, TokenTransfer};

verus! {

/// A post is created once per title and author. Where the address that the
/// title and author derive is free, creating it with a valid title and
/// content succeeds; once that creation is stored, creating a post with the
/// same title and author fails, with `AlreadyExists` when the new content is
/// valid.
pub proof fn lemma_post_created_once(
    before: Ledger,
    after: Ledger,
    author: Address,
    title: Seq<char>,
    content: Seq<char>,
    now: u64,
    a: Address,
    other_content: Seq<char>,
)
    requires
        before.wf(),
        0 < title.len() <= POST_TITLE_MAX_LEN,
        0 < content.len() <= POST_CONTENT_MAX_LEN,
        post_address_of(before.program_id@, title, author@) matches Some((k, _)) && k == a@,
        !before.occupied(a@),
        create_post_done(before, after, author, title, content, now, Ok(a)),
    ensures
        create_post_outcome(before, author@, title, content) == Ok::<Seq<u8>, AppError>(a@),
        create_post_outcome(after, author@, title, other_content) is Err,
        0 < other_content.len() <= POST_CONTENT_MAX_LEN ==> create_post_outcome(
            after,
            author@,
            title,
            other_content,
        ) == Err::<Seq<u8>, AppError>(AppError::AlreadyExists),
{
    assert(after.post_index(a@, after.posts@.len() - 1));
}

/// A voter has at most one vote on a post: two stored votes of the same
/// voter on the same post are one record.
pub proof fn lemma_one_vote_per_voter_and_post(ledger: Ledger, j: int, k: int)
    requires
        ledger.wf(),
        0 <= j < ledger.votes@.len(),
        0 <= k < ledger.votes@.len(),
        ledger.votes@[j].1.voter@ == ledger.votes@[k].1.voter@,
        ledger.votes@[j].1.post@ == ledger.votes@[k].1.post@,
    ensures
        j == k,
{
    let (aj, vj) = ledger.votes@[j];
    let (ak, vk) = ledger.votes@[k];
    assert(vote_address_of(ledger.program_id@, vj.voter@, vj.post@) == Some((aj@, vj.bump)));
    assert(vote_address_of(ledger.program_id@, vk.voter@, vk.post@) == Some((ak@, vk.bump)));
    if j < k {
        assert(ledger.votes@[j].0@ != ledger.votes@[k].0@);
    } else if k < j {
        assert(ledger.votes@[k].0@ != ledger.votes@[j].0@);
    }
}

/// A second vote of a voter on a post fails with `AlreadyVoted`, whatever
/// its kind, and leaves the store, tallies included, as it was.
pub proof fn lemma_second_vote_refused(
    before: Ledger,
    after: Ledger,
    ctx: VoteOnPost,
    vote_type: VoteType,
    r: Result<Address, AppError>,
    j: int,
)
    requires
        before.wf(),
        0 <= j < before.votes@.len(),
        before.votes@[j].1.voter@ == ctx.voter@,
        before.votes@[j].1.post@ == ctx.post@,
        vote_done(before, after, ctx, vote_type, r),
    ensures
        r == Err::<Address, AppError>(AppError::AlreadyVoted),
        after == before,
{
    let (a, v) = before.votes@[j];
    assert(vote_address_of(before.program_id@, v.voter@, v.post@) == Some((a@, v.bump)));
    assert(before.has_post(v.post@));
    assert(before.vote_index(a@, j));
    assert(vote_outcome(before, ctx.voter@, ctx.post@, vote_type) == Err::<Seq<u8>, AppError>(
        AppError::AlreadyVoted,
    ));
}

/// In every store the operations reach, a post's up-votes and down-votes
/// add up to the number of stored votes on it.
pub proof fn lemma_tallies_count_votes(ledger: Ledger, i: int)
    requires
        ledger.wf(),
        0 <= i < ledger.posts@.len(),
    ensures
        ledger.posts@[i].1.up_votes + ledger.posts@[i].1.down_votes == count_votes_on(
            ledger.votes@,
            ledger.posts@[i].0@,
        ),
{
    lemma_count_votes_kinds(ledger.votes@, ledger.posts@[i].0@);
}

/// The account checks of a claim: both token accounts read, the fund is
/// owned by the fund authority, the vault is the wallet's, both hold the
/// wallet's mint, and the wallet and its vault authority stand where their
/// bumps derive.
pub open spec fn claim_accounts_valid(ledger: Ledger, ctx: ClaimCreatorReward) -> bool {
    let w = ctx.creator_wallet_state;
    &&& crate::token::spl_token_account_of(ctx.fund_token_account_data@) matches Some(
        (fund_mint, fund_owner),
    ) && fund_owner == ctx.fund_authority@ && fund_mint == w.mint@
    &&& crate::token::spl_token_account_of(ctx.creator_vault_token_account_data@) matches Some(
        (vault_mint, _),
    ) && vault_mint == w.mint@
    &&& ctx.creator_vault_token_account@ == w.vault_token_account@
    &&& crate::address::wallet_seeds_match(
        ledger.program_id@,
        ctx.creator@,
        w.state_bump,
        ctx.creator_wallet@,
    )
    &&& crate::address::vault_seeds_match(
        ledger.program_id@,
        ctx.creator_wallet@,
        w.wallet_bump,
        ctx.vault_authority@,
    )
}

/// A claim succeeds exactly when the post is stored, has reached the
/// threshold, is not rewarded yet, the claimant is its author and the
/// account checks pass; it then pays exactly `CREATOR_FUND_REWARD` from the
/// fund to the vault.
pub proof fn lemma_claim_succeeds_iff(ledger: Ledger, ctx: ClaimCreatorReward)
    ensures
        claim_outcome(ledger, ctx) is Ok <==> {
            &&& ledger.has_post(ctx.post@)
            &&& ledger.post_at(ctx.post@).up_votes >= TARGET_NUMBER_OF_UPVOTES
            &&& !ledger.post_at(ctx.post@).rewarded
            &&& ctx.creator@ == ledger.post_at(ctx.post@).author@
            &&& claim_accounts_valid(ledger, ctx)
        },
        claim_outcome(ledger, ctx) is Ok ==> claim_outcome(ledger, ctx) == Ok::<
            TokenTransfer,
            AppError,
        >(
            TokenTransfer::Transfer {
                from: ctx.fund_token_account,
                to: ctx.creator_vault_token_account,
                authority: ctx.fund_authority,
                amount: CREATOR_FUND_REWARD,
            },
        ),
{
}

/// A post's reward is paid at most once: after a successful claim the post
/// is rewarded, and every later claim on it fails.
pub proof fn lemma_reward_paid_once(
    before: Ledger,
    after: Ledger,
    ctx: ClaimCreatorReward,
    r: Result<TokenTransfer, AppError>,
    later: ClaimCreatorReward,
    i: int,
)
    requires
        before.wf(),
        after.wf(),
        claim_done(before, after, ctx, r),
        r is Ok,
        0 <= i < before.posts@.len(),
        before.posts@[i].0@ == ctx.post@,
        later.post@ == ctx.post@,
    ensures
        !before.post_at(ctx.post@).rewarded,
        after.post_at(ctx.post@).rewarded,
        claim_outcome(after, later) is Err,
{
    before.lemma_post_at(ctx.post@, i);
    assert(after.post_index(ctx.post@, i));
    after.lemma_post_at(ctx.post@, i);
}

/// A vote never clears a post's reward mark.
pub proof fn lemma_vote_keeps_reward_mark(
    before: Ledger,
    after: Ledger,
    ctx: VoteOnPost,
    vote_type: VoteType,
    r: Result<Address, AppError>,
    i: int,
)
    requires
        vote_done(before, after, ctx, vote_type, r),
        0 <= i < before.posts@.len(),
        before.posts@[i].1.rewarded,
    ensures
        after.posts@[i].1.rewarded,
{
}

/// A tip reaches only a creator who has posted: where no stored post is by
/// the owner of the receiving account, the tip fails, with
/// `CreatorHasNoPosts` once the accounts have passed their checks. A tip
/// that succeeds is the checked transfer of exactly `amount` from the paying
/// account to the receiving one, with the mint's decimals.
pub proof fn lemma_tip_needs_a_post(ledger: Ledger, ctx: TipCreator, amount: u64)
    requires
        ledger.wf(),
    ensures
        token_interface_account_of(ctx.to_data@) matches Some((_, owner))
            && !ledger.has_post_by(owner) ==> tip_outcome(ledger, ctx, amount) is Err,
        token_interface_account_of(ctx.from_data@) matches Some((from_mint, from_owner))
            && token_interface_account_of(ctx.to_data@) matches Some((to_mint, owner))
            && from_owner == ctx.authority@ && from_mint == ctx.mint@ && to_mint == ctx.mint@
            && !ledger.has_post_by(owner) ==> tip_outcome(ledger, ctx, amount) == Err::<
            TokenTransfer,
            AppError,
        >(AppError::CreatorHasNoPosts),
        tip_outcome(ledger, ctx, amount) is Ok ==> {
            &&& token_interface_account_of(ctx.to_data@) matches Some((_, owner))
                && ledger.has_post_by(owner)
            &&& mint_decimals_of(ctx.mint_data@) matches Some(decimals) && tip_outcome(
                ledger,
                ctx,
                amount,
            ) == Ok::<TokenTransfer, AppError>(
                TokenTransfer::TransferChecked {
                    from: ctx.from,
                    mint: ctx.mint,
                    to: ctx.to,
                    authority: ctx.authority,
                    amount,
                    decimals,
                },
            )
        },
{
    if ledger.has_post(ctx.creator_post@) {
        let i = choose|i: int| ledger.post_index(ctx.creator_post@, i);
        ledger.lemma_post_at(ctx.creator_post@, i);
        assert(ledger.posts@[i].1.author@ == ledger.post_at(ctx.creator_post@).author@);
    }
}

} // verus!
