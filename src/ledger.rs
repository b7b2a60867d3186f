//! The record store: posts and votes, each at its derived address, in one
//! address space where an address holds at most one record.
use vstd::prelude::*;
use crate::address::{post_address_of, vote_address_of, Address};
use crate::constants::{POST_CONTENT_MAX_LEN, POST_TITLE_MAX_LEN};
use crate::states::{Post, Vote, VoteType};

verus! {

/// Number of votes of a kind, among `votes`, on the post at `post`.
pub open spec fn count_votes(votes: Seq<(Address, Vote)>, post: Seq<u8>, kind: VoteType) -> nat
    decreases votes.len(),
{
    if votes.len() == 0 {
        0
    } else {
        count_votes(votes.drop_last(), post, kind) + if votes.last().1.post@ == post
            && votes.last().1.vote_type == kind {
            1nat
        } else {
            0nat
        }
    }
}

/// Number of votes, of any kind, among `votes`, on the post at `post`.
pub open spec fn count_votes_on(votes: Seq<(Address, Vote)>, post: Seq<u8>) -> nat
    decreases votes.len(),
{
    if votes.len() == 0 {
        0
    } else {
        count_votes_on(votes.drop_last(), post) + if votes.last().1.post@ == post {
            1nat
        } else {
            0nat
        }
    }
}

/// The records of one program.
pub struct Ledger {
    pub program_id: Address,
    pub posts: Vec<(Address, Post)>,
    pub votes: Vec<(Address, Vote)>,
}

impl Ledger {
    pub open spec fn post_index(self, a: Seq<u8>, i: int) -> bool {
        0 <= i < self.posts@.len() && self.posts@[i].0@ == a
    }

    pub open spec fn vote_index(self, a: Seq<u8>, j: int) -> bool {
        0 <= j < self.votes@.len() && self.votes@[j].0@ == a
    }

    /// A post stands at `a`.
    pub open spec fn has_post(self, a: Seq<u8>) -> bool {
        exists|i: int| self.post_index(a, i)
    }

    /// A vote stands at `a`.
    pub open spec fn has_vote(self, a: Seq<u8>) -> bool {
        exists|j: int| self.vote_index(a, j)
    }

    /// A record of any kind stands at `a`.
    pub open spec fn occupied(self, a: Seq<u8>) -> bool {
        self.has_post(a) || self.has_vote(a)
    }

    /// The post at `a`, where there is one.
    pub open spec fn post_at(self, a: Seq<u8>) -> Post {
        self.posts@[choose|i: int| self.post_index(a, i)].1
    }

    /// Some post of `author` is stored.
    pub open spec fn has_post_by(self, author: Seq<u8>) -> bool {
        exists|i: int| 0 <= i < self.posts@.len() && (#[trigger] self.posts@[i]).1.author@ == author
    }

    /// What every operation keeps: addresses hold one record each, every
    /// record stands at the address derived from its keys, posts are valid,
    /// and each tally counts the votes of its kind on its post.
    pub open spec fn wf(self) -> bool {
        &&& self.program_id@.len() == 32
        &&& forall|i: int, k: int|
            0 <= i < k < self.posts@.len() ==> self.posts@[i].0@ != self.posts@[k].0@
        &&& forall|j: int, k: int|
            0 <= j < k < self.votes@.len() ==> self.votes@[j].0@ != self.votes@[k].0@
        &&& forall|i: int, j: int|
            0 <= i < self.posts@.len() && 0 <= j < self.votes@.len() ==> self.posts@[i].0@
                != self.votes@[j].0@
        &&& forall|i: int|
            0 <= i < self.posts@.len() ==> {
                let (a, p) = #[trigger] self.posts@[i];
                &&& post_address_of(self.program_id@, p.title@, p.author@) == Some((a@, p.bump))
                &&& 0 < p.title@.len() <= POST_TITLE_MAX_LEN
                &&& 0 < p.content@.len() <= POST_CONTENT_MAX_LEN
                &&& p.up_votes == count_votes(self.votes@, a@, VoteType::UpVote)
                &&& p.down_votes == count_votes(self.votes@, a@, VoteType::DownVote)
            }
        &&& forall|j: int|
            0 <= j < self.votes@.len() ==> {
                let (a, v) = #[trigger] self.votes@[j];
                &&& vote_address_of(self.program_id@, v.voter@, v.post@) == Some((a@, v.bump))
                &&& self.has_post(v.post@)
            }
    }

    /// An empty store for the program `program_id`.
    pub fn new(program_id: Address) -> (r: Ledger)
        ensures
            r.wf(),
            r.program_id == program_id,
            r.posts@.len() == 0,
            r.votes@.len() == 0,
    {
        Ledger { program_id, posts: Vec::new(), votes: Vec::new() }
    }

    /// The index of the post at `a`.
    pub fn find_post(&self, a: &Address) -> (r: Option<usize>)
        ensures
            match r {
                Some(i) => self.post_index(a@, i as int),
                None => !self.has_post(a@),
            },
    {
        let mut i: usize = 0;
        while i < self.posts.len()
            invariant
                i <= self.posts@.len(),
                forall|k: int| 0 <= k < i ==> self.posts@[k].0@ != a@,
            decreases self.posts@.len() - i,
        {
            if self.posts[i].0 == *a {
                return Some(i);
            }
            i = i + 1;
        }
        None
    }

    /// The index of the vote at `a`.
    pub fn find_vote(&self, a: &Address) -> (r: Option<usize>)
        ensures
            match r {
                Some(j) => self.vote_index(a@, j as int),
                None => !self.has_vote(a@),
            },
    {
        let mut j: usize = 0;
        while j < self.votes.len()
            invariant
                j <= self.votes@.len(),
                forall|k: int| 0 <= k < j ==> self.votes@[k].0@ != a@,
            decreases self.votes@.len() - j,
        {
            if self.votes[j].0 == *a {
                return Some(j);
            }
            j = j + 1;
        }
        None
    }

    /// Whether a record of any kind stands at `a`.
    pub fn is_occupied(&self, a: &Address) -> (r: bool)
        ensures
            r == self.occupied(a@),
    {
        self.find_post(a).is_some() || self.find_vote(a).is_some()
    }

    /// The post at `a`.
    pub fn post(&self, a: &Address) -> (r: Option<&Post>)
        requires
            self.wf(),
        ensures
            match r {
                Some(p) => self.has_post(a@) && *p == self.post_at(a@),
                None => !self.has_post(a@),
            },
    {
        match self.find_post(a) {
            Some(i) => {
                proof {
                    self.lemma_post_at(a@, i as int);
                }
                Some(&self.posts[i].1)
            },
            None => None,
        }
    }

    /// The vote at `a`.
    pub fn vote(&self, a: &Address) -> (r: Option<Vote>)
        ensures
            match r {
                Some(v) => exists|j: int| self.vote_index(a@, j) && self.votes@[j].1 == v,
                None => !self.has_vote(a@),
            },
    {
        match self.find_vote(a) {
            Some(j) => Some(self.votes[j].1),
            None => None,
        }
    }

    /// Number of posts stored.
    pub fn post_count(&self) -> (r: usize)
        ensures
            r == self.posts@.len(),
    {
        self.posts.len()
    }

    /// Number of votes stored.
    pub fn vote_count(&self) -> (r: usize)
        ensures
            r == self.votes@.len(),
    {
        self.votes.len()
    }

    /// Marks the post at index `i` as rewarded.
    pub fn mark_rewarded(&mut self, i: usize)
        requires
            old(self).wf(),
            i < old(self).posts@.len(),
        ensures
            final(self).wf(),
            final(self).program_id == old(self).program_id,
            final(self).votes@ == old(self).votes@,
            final(self).posts@ == old(self).posts@.update(
                i as int,
                (old(self).posts@[i as int].0, old(self).posts@[i as int].1.as_rewarded()),
            ),
    {
        let ghost before = *self;
        let (key, mut post) = self.posts.remove(i);
        post.rewarded = true;
        self.posts.insert(i, (key, post));
        proof {
            assert(self.posts@ =~= before.posts@.update(
                i as int,
                (before.posts@[i as int].0, before.posts@[i as int].1.as_rewarded()),
            ));
            assert forall|j: int| 0 <= j < self.votes@.len() implies self.has_post(
                (#[trigger] self.votes@[j]).1.post@,
            ) by {
                let pa = self.votes@[j].1.post@;
                assert(before.has_post(pa));
                let k = choose|k: int| before.post_index(pa, k);
                assert(self.post_index(pa, k));
            }
        }
    }

    /// No vote is counted on an address where no post stands.
    pub proof fn lemma_no_votes_without_post(self, a: Seq<u8>, kind: VoteType)
        requires
            self.wf(),
            !self.has_post(a),
        ensures
            count_votes(self.votes@, a, kind) == 0,
    {
        assert forall|j: int| 0 <= j < self.votes@.len() implies self.votes@[j].1.post@ != a by {
            let (_, v) = self.votes@[j];
            assert(self.has_post(v.post@));
        }
        lemma_count_votes_absent(self.votes@, a, kind);
    }

    /// With unique addresses, the post at `a` is the one at any index that
    /// holds `a`.
    pub proof fn lemma_post_at(self, a: Seq<u8>, i: int)
        requires
            self.wf(),
            self.post_index(a, i),
        ensures
            self.post_at(a) == self.posts@[i].1,
    {
        let k = choose|k: int| self.post_index(a, k);
        assert(self.post_index(a, k));
        if k != i {
            if k < i {
                assert(self.posts@[k].0@ != self.posts@[i].0@);
            } else {
                assert(self.posts@[i].0@ != self.posts@[k].0@);
            }
        }
    }
}

/// Adding a vote adds one to its own kind on its own post, and nothing to
/// the others.
pub proof fn lemma_count_votes_push(votes: Seq<(Address, Vote)>, v: (Address, Vote), post: Seq<u8>, kind: VoteType)
    ensures
        count_votes(votes.push(v), post, kind) == count_votes(votes, post, kind) + if v.1.post@ == post
            && v.1.vote_type == kind {
            1nat
        } else {
            0nat
        },
        count_votes_on(votes.push(v), post) == count_votes_on(votes, post) + if v.1.post@ == post {
            1nat
        } else {
            0nat
        },
{
    assert(votes.push(v).drop_last() =~= votes);
}

/// Where no vote names a post, none is counted on it.
pub proof fn lemma_count_votes_absent(votes: Seq<(Address, Vote)>, post: Seq<u8>, kind: VoteType)
    requires
        forall|j: int| 0 <= j < votes.len() ==> votes[j].1.post@ != post,
    ensures
        count_votes(votes, post, kind) == 0,
    decreases votes.len(),
{
    if votes.len() > 0 {
        lemma_count_votes_absent(votes.drop_last(), post, kind);
    }
}

/// Votes on a post are its up-votes and its down-votes.
pub proof fn lemma_count_votes_kinds(votes: Seq<(Address, Vote)>, post: Seq<u8>)
    ensures
        count_votes_on(votes, post) == count_votes(votes, post, VoteType::UpVote) + count_votes(
            votes,
            post,
            VoteType::DownVote,
        ),
    decreases votes.len(),
{
    if votes.len() > 0 {
        lemma_count_votes_kinds(votes.drop_last(), post);
    }
}

} // verus!
