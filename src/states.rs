//! The records the program stores.
use vstd::prelude::*;
use crate::address::Address;

verus! {

/// The kind of a vote.
#[derive(Debug, Clone, Copy, PartialEq, Eq, Structural)]
pub enum VoteType {
    UpVote,
    DownVote,
}

/// A published post and its tallies.
#[derive(Debug)]
pub struct Post {
    pub title: String,
    pub content: String,
    pub author: Address,
    pub community: Address,
    pub up_votes: u64,
    pub down_votes: u64,
    pub created_at: u64,
    pub rewarded: bool,
    pub bump: u8,
}

impl Post {
    /// The tally of votes of a kind.
    pub open spec fn tally(self, kind: VoteType) -> u64 {
        match kind {
            VoteType::UpVote => self.up_votes,
            VoteType::DownVote => self.down_votes,
        }
    }

    /// The same post with one more vote of a kind.
    pub open spec fn with_vote(self, kind: VoteType) -> Post {
        match kind {
            VoteType::UpVote => Post { up_votes: (self.up_votes + 1) as u64, ..self },
            VoteType::DownVote => Post { down_votes: (self.down_votes + 1) as u64, ..self },
        }
    }

    /// The same post marked as rewarded.
    pub open spec fn as_rewarded(self) -> Post {
        Post { rewarded: true, ..self }
    }
}

/// The vote of one voter on one post.
#[derive(Debug, Clone, Copy)]
pub struct Vote {
    pub voter: Address,
    pub post: Address,
    pub vote_type: VoteType,
    pub bump: u8,
}

/// A creator's provisioned wallet: the token it holds and the vault account
/// that receives rewards.
#[derive(Debug, Clone, Copy)]
pub struct CreatorWallet {
    /// Bump of the vault authority, derived from "vault" and this record's address.
    pub wallet_bump: u8,
    /// Bump of this record's address, derived from "state" and the creator.
    pub state_bump: u8,
    pub mint: Address,
    pub vault_token_account: Address,
}

} // verus!
