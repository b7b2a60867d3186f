//! Publishing a post.
use vstd::prelude::*;
use vstd::string::StrSliceExecFns;
use crate::address::{post_address, post_address_of, Address};
use crate::constants::{POST_CONTENT_MAX_LEN, POST_TITLE_MAX_LEN};
use crate::errors::AppError;
use crate::ledger::{count_votes, Ledger};
use crate::states::{Post, VoteType};

verus! {

/// The accounts of a post creation: the signing author.
#[derive(Debug, Clone, Copy)]
pub struct CreatePost {
    pub author: Address,
}

/// Where the post goes, or why it cannot be created: the title, then the
/// content, is checked first; then the derived address must be free.
pub open spec fn create_post_outcome(
    ledger: Ledger,
    author: Seq<u8>,
    title: Seq<char>,
    content: Seq<char>,
) -> Result<Seq<u8>, AppError> {
    if title.len() == 0 {
        Err(AppError::PostTitleRequired)
    } else if title.len() > POST_TITLE_MAX_LEN {
        Err(AppError::PostTitleTooLong)
    } else if content.len() == 0 {
        Err(AppError::PostContentRequired)
    } else if content.len() > POST_CONTENT_MAX_LEN {
        Err(AppError::PostContentTooLong)
    } else {
        match post_address_of(ledger.program_id@, title, author) {
            None => Err(AppError::AddressUnavailable),
            Some((a, _)) => if ledger.occupied(a) {
                Err(AppError::AlreadyExists)
            } else {
                Ok(a)
            },
        }
    }
}

/// A post just created by `author` with `title` and `content` at `now`.
pub open spec fn is_new_post(
    p: Post,
    program: Seq<u8>,
    author: Address,
    title: Seq<char>,
    content: Seq<char>,
    now: u64,
) -> bool {
    &&& p.title@ == title
    &&& p.content@ == content
    &&& p.author == author
    &&& p.community@ == Seq::new(32, |i: int| 0u8)
    &&& p.up_votes == 0
    &&& p.down_votes == 0
    &&& p.created_at == now
    &&& !p.rewarded
    &&& post_address_of(program, title, author@) matches Some((_, b)) && p.bump == b
}

/// What a post creation did: on success the new post was appended at the
/// address the outcome names; on failure nothing changed.
pub open spec fn create_post_done(
    before: Ledger,
    after: Ledger,
    author: Address,
    title: Seq<char>,
    content: Seq<char>,
    now: u64,
    r: Result<Address, AppError>,
) -> bool {
    match r {
        Ok(a) => {
            &&& create_post_outcome(before, author@, title, content) == Ok::<Seq<u8>, AppError>(a@)
            &&& after.program_id == before.program_id
            &&& after.votes@ == before.votes@
            &&& after.posts@.drop_last() == before.posts@
            &&& after.posts@.len() == before.posts@.len() + 1
            &&& after.posts@.last().0 == a
            &&& is_new_post(after.posts@.last().1, before.program_id@, author, title, content, now)
        },
        Err(e) => {
            &&& create_post_outcome(before, author@, title, content) == Err::<Seq<u8>, AppError>(e)
            &&& after == before
        },
    }
}

/// Publishes a post of the author with a title and content, at the address
/// derived from the title and the author, created at `now`. Returns that
/// address.
pub fn create_post(
    ledger: &mut Ledger,
    ctx: &CreatePost,
    title: String,
    content: String,
    now: u64,
) -> (r: Result<Address, AppError>)
    requires
        old(ledger).wf(),
    ensures
        final(ledger).wf(),
        create_post_done(*old(ledger), *final(ledger), ctx.author, title@, content@, now, r),
{
    let title_len = title.as_str().unicode_len();
    if title_len == 0 {
        return Err(AppError::PostTitleRequired);
    }
    if title_len > POST_TITLE_MAX_LEN {
        return Err(AppError::PostTitleTooLong);
    }
    let content_len = content.as_str().unicode_len();
    if content_len == 0 {
        return Err(AppError::PostContentRequired);
    }
    if content_len > POST_CONTENT_MAX_LEN {
        return Err(AppError::PostContentTooLong);
    }
    let (address, bump) = match post_address(&ledger.program_id, title.as_str(), &ctx.author) {
        Some(found) => found,
        None => {
            return Err(AppError::AddressUnavailable);
        },
    };
    if ledger.is_occupied(&address) {
        return Err(AppError::AlreadyExists);
    }
    let post = Post {
        title,
        content,
        author: ctx.author,
        community: Address::zero(),
        up_votes: 0,
        down_votes: 0,
        created_at: now,
        rewarded: false,
        bump,
    };
    let ghost before = *ledger;
    ledger.posts.push((address, post));
    proof {
        let n = before.posts@.len() as int;
        assert(ledger.posts@.drop_last() =~= before.posts@);
        assert forall|i: int| 0 <= i < ledger.posts@.len() implies {
            let (a, p) = #[trigger] ledger.posts@[i];
            &&& post_address_of(ledger.program_id@, p.title@, p.author@) == Some((a@, p.bump))
            &&& 0 < p.title@.len() <= POST_TITLE_MAX_LEN
            &&& 0 < p.content@.len() <= POST_CONTENT_MAX_LEN
            &&& p.up_votes == count_votes(ledger.votes@, a@, VoteType::UpVote)
            &&& p.down_votes == count_votes(ledger.votes@, a@, VoteType::DownVote)
        } by {
            if i == n {
                before.lemma_no_votes_without_post(address@, VoteType::UpVote);
                before.lemma_no_votes_without_post(address@, VoteType::DownVote);
            } else {
                assert(ledger.posts@[i] == before.posts@[i]);
            }
        }
        assert forall|j: int| 0 <= j < ledger.votes@.len() implies ledger.has_post(
            (#[trigger] ledger.votes@[j]).1.post@,
        ) by {
            let pa = ledger.votes@[j].1.post@;
            assert(before.has_post(pa));
            let i = choose|i: int| before.post_index(pa, i);
            assert(ledger.post_index(pa, i));
        }
        assert forall|i: int, j: int|
            0 <= i < ledger.posts@.len() && 0 <= j < ledger.votes@.len() implies ledger.posts@[i].0@
            != ledger.votes@[j].0@ by {
            if i == n && ledger.posts@[i].0@ == ledger.votes@[j].0@ {
                assert(before.vote_index(address@, j));
            }
        }
        assert forall|i: int, k: int|
            0 <= i < k < ledger.posts@.len() implies ledger.posts@[i].0@ != ledger.posts@[k].0@ by {
            if k == n && ledger.posts@[i].0@ == ledger.posts@[k].0@ {
                assert(before.post_index(address@, i));
            }
        }
    }
    Ok(address)
}

} // verus!
