use vstd::prelude::*;

verus! {

/// Up-votes a post needs before its author may claim the reward.
pub const TARGET_NUMBER_OF_UPVOTES: u64 = 100;

/// Reward paid once per post, in base units of the fund's token.
pub const CREATOR_FUND_REWARD: u64 = 100000000;

/// Largest title, in characters.
pub const POST_TITLE_MAX_LEN: usize = 100;

/// Largest content, in characters.
pub const POST_CONTENT_MAX_LEN: usize = 280;

} // verus!
