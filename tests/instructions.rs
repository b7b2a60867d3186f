use creator_fund::address::{
    creator_wallet_address, post_address, vault_authority_address, vote_address, Address,
};
use creator_fund::constants::CREATOR_FUND_REWARD;
use creator_fund::create_post::{create_post, CreatePost};
use creator_fund::errors::AppError;
use creator_fund::ledger::Ledger;
use creator_fund::post_vote::{claim_creator_reward, vote_on_post, ClaimCreatorReward, VoteOnPost};
use creator_fund::states::{CreatorWallet, VoteType};
use creator_fund::tip_creator::{tip_creator_instruction, TipCreator};
use creator_fund::token::TokenTransfer;

fn addr(n: u8) -> Address {
    Address::new([n; 32])
}

fn program() -> Address {
    addr(200)
}

/// An initialised SPL token account of 165 bytes.
fn token_account(mint: &Address, owner: &Address, amount: u64) -> Vec<u8> {
    let mut d = vec![0u8; 165];
    d[0..32].copy_from_slice(&mint.bytes);
    d[32..64].copy_from_slice(&owner.bytes);
    d[64..72].copy_from_slice(&amount.to_le_bytes());
    d[108] = 1;
    d
}

/// An initialised mint of 82 bytes.
fn mint_account(decimals: u8) -> Vec<u8> {
    let mut d = vec![0u8; 82];
    d[36..44].copy_from_slice(&1_000_000u64.to_le_bytes());
    d[44] = decimals;
    d[45] = 1;
    d
}

fn new_post(ledger: &mut Ledger, author: &Address, title: &str) -> Address {
    create_post(
        ledger,
        &CreatePost { author: *author },
        title.to_string(),
        "World".to_string(),
        1_700_000_000,
    )
    .unwrap()
}

fn set_up_votes(ledger: &mut Ledger, post: &Address, n: u64) {
    for rec in ledger.posts.iter_mut() {
        if rec.0 == *post {
            rec.1.up_votes = n;
        }
    }
}

struct Wallet {
    address: Address,
    state: CreatorWallet,
    vault_authority: Address,
}

fn wallet_of(creator: &Address, mint: &Address, vault: &Address) -> Wallet {
    let (address, state_bump) = creator_wallet_address(&program(), creator).unwrap();
    let (vault_authority, wallet_bump) = vault_authority_address(&program(), &address).unwrap();
    Wallet {
        address,
        state: CreatorWallet { wallet_bump, state_bump, mint: *mint, vault_token_account: *vault },
        vault_authority,
    }
}

fn claim_ctx(post: &Address, creator: &Address) -> ClaimCreatorReward {
    let mint = addr(50);
    let fund_authority = addr(60);
    let vault = addr(70);
    let w = wallet_of(creator, &mint, &vault);
    ClaimCreatorReward {
        post: *post,
        creator: *creator,
        fund_token_account: addr(80),
        fund_token_account_data: token_account(&mint, &fund_authority, 10_000_000_000),
        fund_authority,
        creator_wallet: w.address,
        creator_wallet_state: w.state,
        creator_vault_token_account: vault,
        creator_vault_token_account_data: token_account(&mint, &w.vault_authority, 0),
        vault_authority: w.vault_authority,
    }
}

#[test]
fn scenario_hello_world_reward() {
    let author = addr(1);
    let mut ledger = Ledger::new(program());
    let post = create_post(
        &mut ledger,
        &CreatePost { author },
        "Hello".to_string(),
        "World".to_string(),
        1_700_000_000,
    )
    .unwrap();
    {
        let p = ledger.post(&post).unwrap();
        assert_eq!(p.up_votes, 0);
        assert_eq!(p.down_votes, 0);
        assert!(!p.rewarded);
        assert_eq!(p.title, "Hello");
        assert_eq!(p.content, "World");
        assert!(p.author == author);
        assert_eq!(p.created_at, 1_700_000_000);
    }
    for i in 0..100u8 {
        let voter = addr(2 + i);
        vote_on_post(&mut ledger, &VoteOnPost { voter, post }, VoteType::UpVote).unwrap();
    }
    assert_eq!(ledger.post(&post).unwrap().up_votes, 100);
    assert_eq!(ledger.post(&post).unwrap().down_votes, 0);
    assert_eq!(ledger.vote_count(), 100);

    let ctx = claim_ctx(&post, &author);
    match claim_creator_reward(&mut ledger, &ctx).unwrap() {
        TokenTransfer::Transfer { from, to, authority, amount } => {
            assert_eq!(amount, 100_000_000);
            assert_eq!(amount, CREATOR_FUND_REWARD);
            assert!(from == ctx.fund_token_account);
            assert!(to == ctx.creator_vault_token_account);
            assert!(authority == ctx.fund_authority);
        },
        other => panic!("unexpected transfer {:?}", other),
    }
    assert!(ledger.post(&post).unwrap().rewarded);

    assert_eq!(claim_creator_reward(&mut ledger, &ctx).unwrap_err(), AppError::AlreadyRewarded);

    let again = vote_on_post(&mut ledger, &VoteOnPost { voter: addr(2), post }, VoteType::UpVote);
    assert_eq!(again.unwrap_err(), AppError::AlreadyVoted);
    assert_eq!(ledger.post(&post).unwrap().up_votes, 100);
    assert_eq!(ledger.vote_count(), 100);
}

#[test]
fn create_post_stores_fields_at_derived_address() {
    let mut ledger = Ledger::new(program());
    let author = addr(1);
    let a = new_post(&mut ledger, &author, "Hello");
    let (expected, bump) = post_address(&program(), "Hello", &author).unwrap();
    assert!(a == expected);
    let p = ledger.post(&a).unwrap();
    assert_eq!(p.bump, bump);
    assert!(p.community == Address::zero());
    assert_eq!(ledger.post_count(), 1);
}

#[test]
fn create_post_twice_fails() {
    let mut ledger = Ledger::new(program());
    let author = addr(1);
    new_post(&mut ledger, &author, "Hello");
    let second = create_post(
        &mut ledger,
        &CreatePost { author },
        "Hello".to_string(),
        "Other content".to_string(),
        5,
    );
    assert_eq!(second.unwrap_err(), AppError::AlreadyExists);
    assert_eq!(ledger.post_count(), 1);
}

#[test]
fn same_title_other_author_is_another_post() {
    let mut ledger = Ledger::new(program());
    let a = new_post(&mut ledger, &addr(1), "Hello");
    let b = new_post(&mut ledger, &addr(2), "Hello");
    assert!(a != b);
    assert_eq!(ledger.post_count(), 2);
}

#[test]
fn other_title_same_author_is_another_post() {
    let mut ledger = Ledger::new(program());
    let a = new_post(&mut ledger, &addr(1), "Hello");
    let b = new_post(&mut ledger, &addr(1), "Hello!");
    assert!(a != b);
}

#[test]
fn create_post_title_required() {
    let mut ledger = Ledger::new(program());
    let r = create_post(&mut ledger, &CreatePost { author: addr(1) }, String::new(), String::new(), 0);
    assert_eq!(r.unwrap_err(), AppError::PostTitleRequired);
    assert_eq!(ledger.post_count(), 0);
}

#[test]
fn create_post_title_lengths() {
    let mut ledger = Ledger::new(program());
    let long = "a".repeat(101);
    let r = create_post(&mut ledger, &CreatePost { author: addr(1) }, long, "c".to_string(), 0);
    assert_eq!(r.unwrap_err(), AppError::PostTitleTooLong);
    let max = "a".repeat(100);
    let r = create_post(&mut ledger, &CreatePost { author: addr(1) }, max, "c".to_string(), 0);
    assert!(r.is_ok());
}

#[test]
fn create_post_title_counts_characters() {
    let mut ledger = Ledger::new(program());
    let wide = "é".repeat(100);
    assert_eq!(wide.len(), 200);
    let r = create_post(&mut ledger, &CreatePost { author: addr(1) }, wide, "c".to_string(), 0);
    assert!(r.is_ok());
}

#[test]
fn create_post_content_checks() {
    let mut ledger = Ledger::new(program());
    let r = create_post(&mut ledger, &CreatePost { author: addr(1) }, "t".to_string(), String::new(), 0);
    assert_eq!(r.unwrap_err(), AppError::PostContentRequired);
    let r = create_post(&mut ledger, &CreatePost { author: addr(1) }, "t".to_string(), "c".repeat(281), 0);
    assert_eq!(r.unwrap_err(), AppError::PostContentTooLong);
    let r = create_post(&mut ledger, &CreatePost { author: addr(1) }, "t".to_string(), "c".repeat(280), 0);
    assert!(r.is_ok());
}

#[test]
fn title_is_checked_before_content() {
    let mut ledger = Ledger::new(program());
    let r = create_post(&mut ledger, &CreatePost { author: addr(1) }, "a".repeat(101), String::new(), 0);
    assert_eq!(r.unwrap_err(), AppError::PostTitleTooLong);
}

#[test]
fn down_vote_counts_down() {
    let mut ledger = Ledger::new(program());
    let post = new_post(&mut ledger, &addr(1), "Hello");
    let v = vote_on_post(&mut ledger, &VoteOnPost { voter: addr(9), post }, VoteType::DownVote).unwrap();
    let p = ledger.post(&post).unwrap();
    assert_eq!(p.up_votes, 0);
    assert_eq!(p.down_votes, 1);
    let (expected, bump) = vote_address(&program(), &addr(9), &post).unwrap();
    assert!(v == expected);
    let vote = ledger.vote(&v).unwrap();
    assert!(vote.voter == addr(9));
    assert!(vote.post == post);
    assert_eq!(vote.vote_type, VoteType::DownVote);
    assert_eq!(vote.bump, bump);
}

#[test]
fn second_vote_of_other_kind_is_refused() {
    let mut ledger = Ledger::new(program());
    let post = new_post(&mut ledger, &addr(1), "Hello");
    vote_on_post(&mut ledger, &VoteOnPost { voter: addr(9), post }, VoteType::UpVote).unwrap();
    let r = vote_on_post(&mut ledger, &VoteOnPost { voter: addr(9), post }, VoteType::DownVote);
    assert_eq!(r.unwrap_err(), AppError::AlreadyVoted);
    let p = ledger.post(&post).unwrap();
    assert_eq!((p.up_votes, p.down_votes), (1, 0));
    assert_eq!(ledger.vote_count(), 1);
}

#[test]
fn votes_on_two_posts_are_counted_apart() {
    let mut ledger = Ledger::new(program());
    let a = new_post(&mut ledger, &addr(1), "A");
    let b = new_post(&mut ledger, &addr(1), "B");
    vote_on_post(&mut ledger, &VoteOnPost { voter: addr(9), post: a }, VoteType::UpVote).unwrap();
    vote_on_post(&mut ledger, &VoteOnPost { voter: addr(9), post: b }, VoteType::DownVote).unwrap();
    vote_on_post(&mut ledger, &VoteOnPost { voter: addr(8), post: a }, VoteType::DownVote).unwrap();
    let pa = ledger.post(&a).unwrap();
    assert_eq!((pa.up_votes, pa.down_votes), (1, 1));
    let pb = ledger.post(&b).unwrap();
    assert_eq!((pb.up_votes, pb.down_votes), (0, 1));
    assert_eq!(ledger.vote_count(), 3);
}

#[test]
fn vote_on_missing_post_fails() {
    let mut ledger = Ledger::new(program());
    let r = vote_on_post(&mut ledger, &VoteOnPost { voter: addr(9), post: addr(3) }, VoteType::UpVote);
    assert_eq!(r.unwrap_err(), AppError::PostNotFound);
    assert_eq!(ledger.vote_count(), 0);
}

#[test]
fn vote_overflow_leaves_no_vote() {
    let mut ledger = Ledger::new(program());
    let post = new_post(&mut ledger, &addr(1), "Hello");
    set_up_votes(&mut ledger, &post, u64::MAX);
    let r = vote_on_post(&mut ledger, &VoteOnPost { voter: addr(9), post }, VoteType::UpVote);
    assert_eq!(r.unwrap_err(), AppError::VoteOverflow);
    assert_eq!(ledger.vote_count(), 0);
    assert_eq!(ledger.post(&post).unwrap().up_votes, u64::MAX);
}

fn rewarded_ready(ledger: &mut Ledger) -> Address {
    let post = new_post(ledger, &addr(1), "Hello");
    set_up_votes(ledger, &post, 100);
    post
}

#[test]
fn claim_below_threshold_fails() {
    let mut ledger = Ledger::new(program());
    let post = new_post(&mut ledger, &addr(1), "Hello");
    set_up_votes(&mut ledger, &post, 99);
    let r = claim_creator_reward(&mut ledger, &claim_ctx(&post, &addr(1)));
    assert_eq!(r.unwrap_err(), AppError::RewardThresholdNotMet);
    assert!(!ledger.post(&post).unwrap().rewarded);
}

#[test]
fn claim_at_threshold_with_down_votes_succeeds() {
    let mut ledger = Ledger::new(program());
    let post = rewarded_ready(&mut ledger);
    vote_on_post(&mut ledger, &VoteOnPost { voter: addr(9), post }, VoteType::DownVote).unwrap();
    assert!(claim_creator_reward(&mut ledger, &claim_ctx(&post, &addr(1))).is_ok());
}

#[test]
fn claim_by_other_than_author_fails() {
    let mut ledger = Ledger::new(program());
    let post = rewarded_ready(&mut ledger);
    let r = claim_creator_reward(&mut ledger, &claim_ctx(&post, &addr(2)));
    assert_eq!(r.unwrap_err(), AppError::InvalidCreator);
}

#[test]
fn claim_of_missing_post_fails() {
    let mut ledger = Ledger::new(program());
    let r = claim_creator_reward(&mut ledger, &claim_ctx(&addr(3), &addr(1)));
    assert_eq!(r.unwrap_err(), AppError::PostNotFound);
}

#[test]
fn claim_with_foreign_fund_owner_fails() {
    let mut ledger = Ledger::new(program());
    let post = rewarded_ready(&mut ledger);
    let mut ctx = claim_ctx(&post, &addr(1));
    ctx.fund_token_account_data = token_account(&addr(50), &addr(61), 5);
    let r = claim_creator_reward(&mut ledger, &ctx);
    assert_eq!(r.unwrap_err(), AppError::FundAuthorityMismatch);
    assert!(!ledger.post(&post).unwrap().rewarded);
}

#[test]
fn claim_to_other_vault_fails() {
    let mut ledger = Ledger::new(program());
    let post = rewarded_ready(&mut ledger);
    let mut ctx = claim_ctx(&post, &addr(1));
    ctx.creator_vault_token_account = addr(71);
    let r = claim_creator_reward(&mut ledger, &ctx);
    assert_eq!(r.unwrap_err(), AppError::VaultAccountMismatch);
}

#[test]
fn claim_with_other_mint_fails() {
    let mut ledger = Ledger::new(program());
    let post = rewarded_ready(&mut ledger);
    let mut ctx = claim_ctx(&post, &addr(1));
    ctx.fund_token_account_data = token_account(&addr(51), &addr(60), 5);
    assert_eq!(claim_creator_reward(&mut ledger, &ctx).unwrap_err(), AppError::MintMismatch);
    let mut ctx = claim_ctx(&post, &addr(1));
    ctx.creator_vault_token_account_data = token_account(&addr(51), &addr(60), 5);
    assert_eq!(claim_creator_reward(&mut ledger, &ctx).unwrap_err(), AppError::MintMismatch);
}

#[test]
fn claim_with_wrong_bumps_fails() {
    let mut ledger = Ledger::new(program());
    let post = rewarded_ready(&mut ledger);
    let mut ctx = claim_ctx(&post, &addr(1));
    ctx.creator_wallet_state.state_bump = ctx.creator_wallet_state.state_bump.wrapping_sub(1);
    assert_eq!(claim_creator_reward(&mut ledger, &ctx).unwrap_err(), AppError::InvalidWalletSeeds);
    let mut ctx = claim_ctx(&post, &addr(1));
    ctx.vault_authority = addr(99);
    assert_eq!(claim_creator_reward(&mut ledger, &ctx).unwrap_err(), AppError::InvalidWalletSeeds);
    assert!(!ledger.post(&post).unwrap().rewarded);
}

#[test]
fn claim_with_unreadable_account_fails() {
    let mut ledger = Ledger::new(program());
    let post = rewarded_ready(&mut ledger);
    let mut ctx = claim_ctx(&post, &addr(1));
    ctx.fund_token_account_data = vec![1, 2, 3];
    let r = claim_creator_reward(&mut ledger, &ctx);
    assert_eq!(r.unwrap_err(), AppError::AccountDidNotDeserialize);
    let mut ctx = claim_ctx(&post, &addr(1));
    ctx.creator_vault_token_account_data[108] = 0;
    let r = claim_creator_reward(&mut ledger, &ctx);
    assert_eq!(r.unwrap_err(), AppError::AccountDidNotDeserialize);
}

fn tip_ctx(ledger: &mut Ledger, creator: &Address) -> TipCreator {
    let post = new_post(ledger, creator, "Hello");
    let mint = addr(50);
    let authority = addr(40);
    TipCreator {
        from: addr(41),
        from_data: token_account(&mint, &authority, 1_000),
        to: addr(42),
        to_data: token_account(&mint, creator, 0),
        mint,
        mint_data: mint_account(6),
        authority,
        creator_post: post,
    }
}

#[test]
fn tip_pays_the_amount_checked() {
    let mut ledger = Ledger::new(program());
    let ctx = tip_ctx(&mut ledger, &addr(1));
    match tip_creator_instruction(&ledger, &ctx, 250).unwrap() {
        TokenTransfer::TransferChecked { from, mint, to, authority, amount, decimals } => {
            assert!(from == ctx.from);
            assert!(mint == ctx.mint);
            assert!(to == ctx.to);
            assert!(authority == ctx.authority);
            assert_eq!(amount, 250);
            assert_eq!(decimals, 6);
        },
        other => panic!("unexpected transfer {:?}", other),
    }
}

#[test]
fn tip_to_creator_without_posts_fails() {
    let mut ledger = Ledger::new(program());
    let mut ctx = tip_ctx(&mut ledger, &addr(1));
    ctx.to_data = token_account(&ctx.mint, &addr(2), 0);
    let r = tip_creator_instruction(&ledger, &ctx, 250);
    assert_eq!(r.unwrap_err(), AppError::CreatorHasNoPosts);
}

#[test]
fn tip_with_missing_evidence_fails() {
    let mut ledger = Ledger::new(program());
    let mut ctx = tip_ctx(&mut ledger, &addr(1));
    ctx.creator_post = addr(3);
    let r = tip_creator_instruction(&ledger, &ctx, 250);
    assert_eq!(r.unwrap_err(), AppError::CreatorHasNoPosts);
}

#[test]
fn tip_from_foreign_account_fails() {
    let mut ledger = Ledger::new(program());
    let mut ctx = tip_ctx(&mut ledger, &addr(1));
    ctx.authority = addr(43);
    let r = tip_creator_instruction(&ledger, &ctx, 250);
    assert_eq!(r.unwrap_err(), AppError::ConstraintOwner);
}

#[test]
fn tip_with_other_mint_fails() {
    let mut ledger = Ledger::new(program());
    let mut ctx = tip_ctx(&mut ledger, &addr(1));
    ctx.mint = addr(51);
    assert_eq!(tip_creator_instruction(&ledger, &ctx, 1).unwrap_err(), AppError::ConstraintTokenMint);
    let mut ctx = tip_ctx(&mut ledger, &addr(2));
    ctx.to_data = token_account(&addr(51), &addr(2), 0);
    assert_eq!(tip_creator_instruction(&ledger, &ctx, 1).unwrap_err(), AppError::ConstraintTokenMint);
}

#[test]
fn tip_with_unreadable_data_fails() {
    let mut ledger = Ledger::new(program());
    let mut ctx = tip_ctx(&mut ledger, &addr(1));
    ctx.mint_data = vec![0u8; 10];
    let r = tip_creator_instruction(&ledger, &ctx, 1);
    assert_eq!(r.unwrap_err(), AppError::AccountDidNotDeserialize);
    let mut ctx = tip_ctx(&mut ledger, &addr(2));
    ctx.to_data = vec![0u8; 10];
    let r = tip_creator_instruction(&ledger, &ctx, 1);
    assert_eq!(r.unwrap_err(), AppError::AccountDidNotDeserialize);
}
