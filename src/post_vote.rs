//! Voting on posts, and the reward of posts that reach the threshold.
use vstd::prelude::*;
use crate::address::{vote_address, vote_address_of, Address};
use crate::constants::{POST_CONTENT_MAX_LEN, POST_TITLE_MAX_LEN};
use crate::errors::AppError;
use crate::ledger::{count_votes, lemma_count_votes_push, Ledger};
use crate::states::{Post, Vote, VoteType};
use crate::address::{
    check_vault_seeds, check_wallet_seeds, post_address_of, vault_seeds_match, wallet_seeds_match,
};
use crate::constants::{CREATOR_FUND_REWARD, TARGET_NUMBER_OF_UPVOTES};
use crate::states::CreatorWallet;
use crate::token::{read_spl_token_account, spl_token_account_of, TokenTransfer};

verus! {

/// The accounts of a vote: the signing voter and the post voted on.
#[derive(Debug, Clone, Copy)]
pub struct VoteOnPost {
    pub voter: Address,
    pub post: Address,
}

/// Where the vote goes, or why it cannot be cast: the post must be stored,
/// the vote's derived address free, and the tally of its kind below the
/// largest `u64`.
pub open spec fn vote_outcome(ledger: Ledger, voter: Seq<u8>, post: Seq<u8>, kind: VoteType) -> Result<
    Seq<u8>,
    AppError,
> {
    if !ledger.has_post(post) {
        Err(AppError::PostNotFound)
    } else {
        match vote_address_of(ledger.program_id@, voter, post) {
            None => Err(AppError::AddressUnavailable),
            Some((a, _)) => if ledger.occupied(a) {
                Err(AppError::AlreadyVoted)
            } else if ledger.post_at(post).tally(kind) == u64::MAX {
                Err(AppError::VoteOverflow)
            } else {
                Ok(a)
            },
        }
    }
}

/// What a vote did: on success the vote was appended at the address the
/// outcome names and the post's tally of its kind grew by one; on failure
/// nothing changed.
pub open spec fn vote_done(
    before: Ledger,
    after: Ledger,
    ctx: VoteOnPost,
    vote_type: VoteType,
    r: Result<Address, AppError>,
) -> bool {
    match r {
        Ok(a) => {
            &&& vote_outcome(before, ctx.voter@, ctx.post@, vote_type) == Ok::<
                Seq<u8>,
                AppError,
            >(a@)
            &&& after.program_id == before.program_id
            &&& after.votes@.drop_last() == before.votes@
            &&& after.votes@.len() == before.votes@.len() + 1
            &&& after.votes@.last().0 == a
            &&& after.votes@.last().1.voter == ctx.voter
            &&& after.votes@.last().1.post == ctx.post
            &&& after.votes@.last().1.vote_type == vote_type
            &&& vote_address_of(before.program_id@, ctx.voter@, ctx.post@) == Some(
                (a@, after.votes@.last().1.bump),
            )
            &&& after.posts@.len() == before.posts@.len()
            &&& forall|i: int|
                0 <= i < before.posts@.len() ==> #[trigger] after.posts@[i] == if before.posts@[i].0@ == ctx.post@ {
                    (before.posts@[i].0, before.posts@[i].1.with_vote(vote_type))
                } else {
                    before.posts@[i]
                }
        },
        Err(e) => {
            &&& vote_outcome(before, ctx.voter@, ctx.post@, vote_type) == Err::<
                Seq<u8>,
                AppError,
            >(e)
            &&& after == before
        },
    }
}

/// Casts the vote of the voter on the post: stores the vote at its derived
/// address and adds one to the post's tally of that kind. Returns the vote's
/// address.
pub fn vote_on_post(ledger: &mut Ledger, ctx: &VoteOnPost, vote_type: VoteType) -> (r: Result<
    Address,
    AppError,
>)
    requires
        old(ledger).wf(),
    ensures
        final(ledger).wf(),
        vote_done(*old(ledger), *final(ledger), *ctx, vote_type, r),
{
    let i = match ledger.find_post(&ctx.post) {
        Some(i) => i,
        None => {
            return Err(AppError::PostNotFound);
        },
    };
    let (address, bump) = match vote_address(&ledger.program_id, &ctx.voter, &ctx.post) {
        Some(found) => found,
        None => {
            return Err(AppError::AddressUnavailable);
        },
    };
    if ledger.is_occupied(&address) {
        return Err(AppError::AlreadyVoted);
    }
    let ghost before = *ledger;
    proof {
        before.lemma_post_at(ctx.post@, i as int);
    }
    let current = match vote_type {
        VoteType::UpVote => ledger.posts[i].1.up_votes,
        VoteType::DownVote => ledger.posts[i].1.down_votes,
    };
    let next = match current.checked_add(1) {
        Some(n) => n,
        None => {
            return Err(AppError::VoteOverflow);
        },
    };
    let (key, mut post) = ledger.posts.remove(i);
    match vote_type {
        VoteType::UpVote => post.up_votes = next,
        VoteType::DownVote => post.down_votes = next,
    }
    ledger.posts.insert(i, (key, post));
    let vote = Vote { voter: ctx.voter, post: ctx.post, vote_type, bump };
    ledger.votes.push((address, vote));
    proof {
        let v = (address, vote);
        assert(ledger.posts@ =~= before.posts@.update(i as int, (key, before.posts@[i as int].1.with_vote(vote_type))));
        assert(ledger.votes@.drop_last() =~= before.votes@);
        assert forall|k: int| 0 <= k < before.posts@.len() implies #[trigger] ledger.posts@[k] == if before.posts@[k].0@ == ctx.post@ {
            (before.posts@[k].0, before.posts@[k].1.with_vote(vote_type))
        } else {
            before.posts@[k]
        } by {
            if k != i && before.posts@[k].0@ == ctx.post@ {
                if k < i {
                    assert(before.posts@[k].0@ != before.posts@[i as int].0@);
                } else {
                    assert(before.posts@[i as int].0@ != before.posts@[k].0@);
                }
            }
        }
        assert forall|k: int| 0 <= k < ledger.posts@.len() implies {
            let (a, p) = #[trigger] ledger.posts@[k];
            &&& post_address_of(ledger.program_id@, p.title@, p.author@) == Some((a@, p.bump))
            &&& 0 < p.title@.len() <= POST_TITLE_MAX_LEN
            &&& 0 < p.content@.len() <= POST_CONTENT_MAX_LEN
            &&& p.up_votes == count_votes(ledger.votes@, a@, VoteType::UpVote)
            &&& p.down_votes == count_votes(ledger.votes@, a@, VoteType::DownVote)
        } by {
            let a = before.posts@[k].0@;
            lemma_count_votes_push(before.votes@, v, a, VoteType::UpVote);
            lemma_count_votes_push(before.votes@, v, a, VoteType::DownVote);
        }
        assert forall|j: int| 0 <= j < ledger.votes@.len() implies {
            let (a, w) = #[trigger] ledger.votes@[j];
            &&& vote_address_of(ledger.program_id@, w.voter@, w.post@) == Some((a@, w.bump))
            &&& ledger.has_post(w.post@)
        } by {
            let pa = ledger.votes@[j].1.post@;
            if j < before.votes@.len() {
                assert(before.votes@[j] == ledger.votes@[j]);
                assert(before.has_post(pa));
                let k = choose|k: int| before.post_index(pa, k);
                assert(ledger.post_index(pa, k));
            } else {
                assert(ledger.post_index(pa, i as int));
            }
        }
        assert forall|j: int, k: int|
            0 <= j < k < ledger.votes@.len() implies ledger.votes@[j].0@ != ledger.votes@[k].0@ by {
            if k == before.votes@.len() && ledger.votes@[j].0@ == ledger.votes@[k].0@ {
                assert(before.vote_index(address@, j));
            }
        }
        assert forall|k: int, j: int|
            0 <= k < ledger.posts@.len() && 0 <= j < ledger.votes@.len() implies ledger.posts@[k].0@
            != ledger.votes@[j].0@ by {
            if j == before.votes@.len() && ledger.posts@[k].0@ == ledger.votes@[j].0@ {
                assert(before.post_index(address@, k));
            }
        }
    }
    Ok(address)
}

/// The accounts of a reward claim.
#[derive(Debug)]
pub struct ClaimCreatorReward {
    /// The post whose reward is claimed.
    pub post: Address,
    /// The signing claimant, who must be the post's author.
    pub creator: Address,
    /// The token account the reward is paid from, and its data.
    pub fund_token_account: Address,
    pub fund_token_account_data: Vec<u8>,
    /// The signer that owns the fund token account.
    pub fund_authority: Address,
    /// The creator's wallet record: its address and what it holds.
    pub creator_wallet: Address,
    pub creator_wallet_state: CreatorWallet,
    /// The token account that receives the reward, and its data.
    pub creator_vault_token_account: Address,
    pub creator_vault_token_account_data: Vec<u8>,
    /// The vault authority derived from the wallet record.
    pub vault_authority: Address,
}

/// The transfer that pays the reward, or why the claim is refused, checked
/// in this order: the post is stored, has reached the threshold, the
/// claimant is its author, it was not rewarded yet; both token accounts
/// read; the fund is owned by the fund authority, the vault is the wallet's,
/// both hold the wallet's mint; the wallet and its vault authority stand at
/// the addresses their bumps derive.
pub open spec fn claim_outcome(ledger: Ledger, ctx: ClaimCreatorReward) -> Result<TokenTransfer, AppError> {
    let w = ctx.creator_wallet_state;
    if !ledger.has_post(ctx.post@) {
        Err(AppError::PostNotFound)
    } else if ledger.post_at(ctx.post@).up_votes < TARGET_NUMBER_OF_UPVOTES {
        Err(AppError::RewardThresholdNotMet)
    } else if ctx.creator@ != ledger.post_at(ctx.post@).author@ {
        Err(AppError::InvalidCreator)
    } else if ledger.post_at(ctx.post@).rewarded {
        Err(AppError::AlreadyRewarded)
    } else {
        match (
            spl_token_account_of(ctx.fund_token_account_data@),
            spl_token_account_of(ctx.creator_vault_token_account_data@),
        ) {
            (Some((fund_mint, fund_owner)), Some((vault_mint, _))) => if fund_owner
                != ctx.fund_authority@ {
                Err(AppError::FundAuthorityMismatch)
            } else if ctx.creator_vault_token_account@ != w.vault_token_account@ {
                Err(AppError::VaultAccountMismatch)
            } else if fund_mint != w.mint@ || vault_mint != w.mint@ {
                Err(AppError::MintMismatch)
            } else if !wallet_seeds_match(
                ledger.program_id@,
                ctx.creator@,
                w.state_bump,
                ctx.creator_wallet@,
            ) || !vault_seeds_match(
                ledger.program_id@,
                ctx.creator_wallet@,
                w.wallet_bump,
                ctx.vault_authority@,
            ) {
                Err(AppError::InvalidWalletSeeds)
            } else {
                Ok(
                    TokenTransfer::Transfer {
                        from: ctx.fund_token_account,
                        to: ctx.creator_vault_token_account,
                        authority: ctx.fund_authority,
                        amount: CREATOR_FUND_REWARD,
                    },
                )
            },
            _ => Err(AppError::AccountDidNotDeserialize),
        }
    }
}

/// What a claim did: it returned the claim's outcome; on success the post,
/// and nothing else, was marked rewarded; on failure nothing changed.
pub open spec fn claim_done(
    before: Ledger,
    after: Ledger,
    ctx: ClaimCreatorReward,
    r: Result<TokenTransfer, AppError>,
) -> bool {
    &&& r == claim_outcome(before, ctx)
    &&& r is Ok ==> {
        &&& after.program_id == before.program_id
        &&& after.votes@ == before.votes@
        &&& after.posts@.len() == before.posts@.len()
        &&& forall|i: int|
            0 <= i < before.posts@.len() ==> #[trigger] after.posts@[i] == if before.posts@[i].0@
                == ctx.post@ {
                (before.posts@[i].0, before.posts@[i].1.as_rewarded())
            } else {
                before.posts@[i]
            }
    }
    &&& r is Err ==> after == before
}

/// Settles the reward of a post that reached the threshold: marks it
/// rewarded and returns the transfer of `CREATOR_FUND_REWARD` from the fund
/// to the creator's vault, which must happen in the same operation (if it
/// fails, the operation and the mark are undone by the host).
pub fn claim_creator_reward(ledger: &mut Ledger, ctx: &ClaimCreatorReward) -> (r: Result<
    TokenTransfer,
    AppError,
>)
    requires
        old(ledger).wf(),
    ensures
        final(ledger).wf(),
        claim_done(*old(ledger), *final(ledger), *ctx, r),
{
    let i = match ledger.find_post(&ctx.post) {
        Some(i) => i,
        None => {
            return Err(AppError::PostNotFound);
        },
    };
    proof {
        ledger.lemma_post_at(ctx.post@, i as int);
    }
    let post = &ledger.posts[i].1;
    if post.up_votes < TARGET_NUMBER_OF_UPVOTES {
        return Err(AppError::RewardThresholdNotMet);
    }
    if ctx.creator != post.author {
        return Err(AppError::InvalidCreator);
    }
    if post.rewarded {
        return Err(AppError::AlreadyRewarded);
    }
    let fund = match read_spl_token_account(&ctx.fund_token_account_data) {
        Some(t) => t,
        None => {
            return Err(AppError::AccountDidNotDeserialize);
        },
    };
    let vault = match read_spl_token_account(&ctx.creator_vault_token_account_data) {
        Some(t) => t,
        None => {
            return Err(AppError::AccountDidNotDeserialize);
        },
    };
    let wallet = &ctx.creator_wallet_state;
    if fund.owner != ctx.fund_authority {
        return Err(AppError::FundAuthorityMismatch);
    }
    if ctx.creator_vault_token_account != wallet.vault_token_account {
        return Err(AppError::VaultAccountMismatch);
    }
    if fund.mint != wallet.mint || vault.mint != wallet.mint {
        return Err(AppError::MintMismatch);
    }
    if !check_wallet_seeds(&ledger.program_id, &ctx.creator, wallet.state_bump, &ctx.creator_wallet)
        || !check_vault_seeds(
        &ledger.program_id,
        &ctx.creator_wallet,
        wallet.wallet_bump,
        &ctx.vault_authority,
    ) {
        return Err(AppError::InvalidWalletSeeds);
    }
    let ghost before = *ledger;
    ledger.mark_rewarded(i);
    proof {
        assert forall|k: int| 0 <= k < before.posts@.len() implies #[trigger] ledger.posts@[k] == if before.posts@[k].0@ == ctx.post@ {
            (before.posts@[k].0, before.posts@[k].1.as_rewarded())
        } else {
            before.posts@[k]
        } by {
            if k != i && before.posts@[k].0@ == ctx.post@ {
                if k < i {
                    assert(before.posts@[k].0@ != before.posts@[i as int].0@);
                } else {
                    assert(before.posts@[i as int].0@ != before.posts@[k].0@);
                }
            }
        }
    }
    Ok(
        TokenTransfer::Transfer {
            from: ctx.fund_token_account,
            to: ctx.creator_vault_token_account,
            authority: ctx.fund_authority,
            amount: CREATOR_FUND_REWARD,
        },
    )
}

} // verus!
