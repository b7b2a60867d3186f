//! Record lifecycle, vote tallies and reward settlement of a creator fund
//! program: posts, one vote per voter and post, a one-time reward for posts
//! that reach the up-vote threshold, and tips to creators who have posted.
pub mod address;
pub mod constants;
pub mod errors;
pub mod states;
pub mod ledger;
pub mod create_post;
pub mod token;
pub mod post_vote;
pub mod tip_creator;
pub mod creator_fund;
pub mod laws;
