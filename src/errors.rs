use vstd::prelude::*;

verus! {

/// Every way an instruction of the program can fail.
#[derive(Debug, Clone, Copy, PartialEq, Eq, Structural)]
pub enum AppError {
    /// The title is empty.
    PostTitleRequired,
    /// The title has more than `POST_TITLE_MAX_LEN` characters.
    PostTitleTooLong,
    /// The content is empty.
    PostContentRequired,
    /// The content has more than `POST_CONTENT_MAX_LEN` characters.
    PostContentTooLong,
    /// A record already stands at the address of this post.
    AlreadyExists,
    /// A record already stands at the address of this vote.
    AlreadyVoted,
    /// The counter of this kind of vote is at its largest value.
    VoteOverflow,
    /// No post stands at the given address.
    PostNotFound,
    /// No program address could be derived from the seeds.
    AddressUnavailable,
    /// The post has fewer up-votes than the reward threshold.
    RewardThresholdNotMet,
    /// The claimant is not the author of the post.
    InvalidCreator,
    /// The post's reward was paid already.
    AlreadyRewarded,
    /// The fund token account is not owned by the fund authority.
    FundAuthorityMismatch,
    /// The vault token account is not the one the creator wallet names.
    VaultAccountMismatch,
    /// A token account holds another mint than the one expected.
    MintMismatch,
    /// The creator wallet or its vault authority is not at the address its
    /// stored bump seeds derive.
    InvalidWalletSeeds,
    /// The account holding the tokens to send is not owned by the signer.
    ConstraintOwner,
    /// A token account of a tip holds another mint than the given one.
    ConstraintTokenMint,
    /// The owner of the receiving account has no post to show.
    CreatorHasNoPosts,
    /// Account data could not be read as a token account or a mint.
    AccountDidNotDeserialize,
}

} // verus!
