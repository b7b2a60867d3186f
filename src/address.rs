//! Addresses, and the derivation of record addresses from seeds.
use vstd::prelude::*;
use anchor_lang::solana_program::hash::hash;
use anchor_lang::solana_program::pubkey::Pubkey;

verus! {

/// A 32-byte account address (a public key, or a program derived address).
#[derive(Debug, Clone, Copy)]
pub struct Address {
    pub bytes: [u8; 32],
}

impl View for Address {
    type V = Seq<u8>;

    open spec fn view(&self) -> Seq<u8> {
        self.bytes@
    }
}

impl Address {
    pub fn new(bytes: [u8; 32]) -> (r: Address)
        ensures
            r@ == bytes@,
    {
        Address { bytes }
    }

    /// The all-zero address, which stands for "none".
    pub fn zero() -> (r: Address)
        ensures
            r@ == Seq::new(32, |i: int| 0u8),
    {
        let r = Address { bytes: [0u8; 32] };
        assert(r@ =~= Seq::new(32, |i: int| 0u8));
        r
    }

    /// The address's bytes as a seed.
    pub fn to_seed(&self) -> (r: Vec<u8>)
        ensures
            r@ == self@,
    {
        let mut r: Vec<u8> = Vec::new();
        let mut i: usize = 0;
        while i < 32
            invariant
                i <= 32,
                self@.len() == 32,
                r@ == self@.subrange(0, i as int),
            decreases 32 - i,
        {
            r.push(self.bytes[i]);
            i = i + 1;
            assert(r@ =~= self@.subrange(0, i as int));
        }
        assert(r@ =~= self@);
        r
    }
}

impl PartialEq for Address {
    fn eq(&self, o: &Address) -> (r: bool) {
        let mut i: usize = 0;
        while i < 32
            invariant
                i <= 32,
                self@.len() == 32,
                o@.len() == 32,
                forall|j: int| 0 <= j < i ==> self@[j] == o@[j],
            decreases 32 - i,
        {
            if self.bytes[i] != o.bytes[i] {
                return false;
            }
            i = i + 1;
        }
        assert(self@ =~= o@);
        true
    }
}

impl vstd::std_specs::cmp::PartialEqSpecImpl for Address {
    open spec fn obeys_eq_spec() -> bool {
        true
    }

    open spec fn eq_spec(&self, o: &Address) -> bool {
        self@ == o@
    }
}

/// SHA-256 of a text's UTF-8 bytes.
pub uninterp spec fn sha256_of_text(s: Seq<char>) -> Seq<u8>;

/// The program address that `create_program_address` computes from seeds
/// (the last of which is the bump) and a program id, if the seeds are valid
/// and the hash is off the curve.
pub uninterp spec fn created_program_address(seeds: Seq<Seq<u8>>, program: Seq<u8>) -> Option<
    Seq<u8>,
>;

/// The program address and bump that `try_find_program_address` finds for
/// seeds and a program id, if there is one.
pub uninterp spec fn found_program_address(seeds: Seq<Seq<u8>>, program: Seq<u8>) -> Option<
    (Seq<u8>, u8),
>;

/// Relies on solana_program::hash::hash, SHA-256 of the bytes given, here
/// the text's UTF-8 bytes; the digest depends on the text alone.
#[verifier::external_body]
fn hash_text(s: &str) -> (r: [u8; 32])
    ensures
        r@ == sha256_of_text(s@),
{
    hash(s.as_bytes()).to_bytes()
}

/// Relies on Pubkey::try_find_program_address, which tries the bumps from
/// 255 down and returns the first address off the curve, or `None`; it does
/// not panic (too many or too long seeds give `None`).
#[verifier::external_body]
fn try_find_address(seeds: &Vec<Vec<u8>>, program: &Address) -> (r: Option<(Address, u8)>)
    ensures
        match r {
            Some((a, b)) => found_program_address(seeds.deep_view(), program@) == Some((a@, b)),
            None => found_program_address(seeds.deep_view(), program@) is None,
        },
{
    let s: Vec<&[u8]> = seeds.iter().map(|v| v.as_slice()).collect();
    Pubkey::try_find_program_address(&s, &Pubkey::new_from_array(program.bytes)).map(
        |(k, b)| (Address { bytes: k.to_bytes() }, b),
    )
}

/// Relies on Pubkey::create_program_address, which hashes the seeds with the
/// program id and fails on too many or too long seeds or an address on the
/// curve; it does not panic.
#[verifier::external_body]
fn create_address(seeds: &Vec<Vec<u8>>, program: &Address) -> (r: Option<Address>)
    ensures
        match r {
            Some(a) => created_program_address(seeds.deep_view(), program@) == Some(a@),
            None => created_program_address(seeds.deep_view(), program@) is None,
        },
{
    let s: Vec<&[u8]> = seeds.iter().map(|v| v.as_slice()).collect();
    Pubkey::create_program_address(&s, &Pubkey::new_from_array(program.bytes)).ok().map(
        |k| Address { bytes: k.to_bytes() },
    )
}

/// An address and bump as values.
pub open spec fn found_view(r: Option<(Address, u8)>) -> Option<(Seq<u8>, u8)> {
    match r {
        Some((a, b)) => Some((a@, b)),
        None => None,
    }
}

/// Seed tag of post records: "post".
pub open spec fn post_seed() -> Seq<u8> {
    seq![112u8, 111u8, 115u8, 116u8]
}

/// Seed tag of vote records: "vote".
pub open spec fn vote_seed() -> Seq<u8> {
    seq![118u8, 111u8, 116u8, 101u8]
}

/// Seed tag of creator wallet records: "state".
pub open spec fn state_seed() -> Seq<u8> {
    seq![115u8, 116u8, 97u8, 116u8, 101u8]
}

/// Seed tag of vault authorities: "vault".
pub open spec fn vault_seed() -> Seq<u8> {
    seq![118u8, 97u8, 117u8, 108u8, 116u8]
}

/// Where the post of an author with a title lives: derived from "post", the
/// title's digest and the author.
pub open spec fn post_address_of(program: Seq<u8>, title: Seq<char>, author: Seq<u8>) -> Option<
    (Seq<u8>, u8),
> {
    found_program_address(seq![post_seed(), sha256_of_text(title), author], program)
}

/// Where the vote of a voter on a post lives: derived from "vote", the voter
/// and the post's address.
pub open spec fn vote_address_of(program: Seq<u8>, voter: Seq<u8>, post: Seq<u8>) -> Option<
    (Seq<u8>, u8),
> {
    found_program_address(seq![vote_seed(), voter, post], program)
}

/// Where a creator's wallet record lives: derived from "state" and the creator.
pub open spec fn creator_wallet_address_of(program: Seq<u8>, creator: Seq<u8>) -> Option<
    (Seq<u8>, u8),
> {
    found_program_address(seq![state_seed(), creator], program)
}

/// The vault authority of a wallet record: derived from "vault" and the
/// wallet record's address.
pub open spec fn vault_authority_of(program: Seq<u8>, wallet: Seq<u8>) -> Option<(Seq<u8>, u8)> {
    found_program_address(seq![vault_seed(), wallet], program)
}

fn post_seed_bytes() -> (r: Vec<u8>)
    ensures
        r@ == post_seed(),
{
    let mut r: Vec<u8> = Vec::new();
    r.push('p' as u8);
    r.push('o' as u8);
    r.push('s' as u8);
    r.push('t' as u8);
    assert(r@ =~= post_seed());
    r
}

fn vote_seed_bytes() -> (r: Vec<u8>)
    ensures
        r@ == vote_seed(),
{
    let mut r: Vec<u8> = Vec::new();
    r.push('v' as u8);
    r.push('o' as u8);
    r.push('t' as u8);
    r.push('e' as u8);
    assert(r@ =~= vote_seed());
    r
}

fn state_seed_bytes() -> (r: Vec<u8>)
    ensures
        r@ == state_seed(),
{
    let mut r: Vec<u8> = Vec::new();
    r.push('s' as u8);
    r.push('t' as u8);
    r.push('a' as u8);
    r.push('t' as u8);
    r.push('e' as u8);
    assert(r@ =~= state_seed());
    r
}

fn vault_seed_bytes() -> (r: Vec<u8>)
    ensures
        r@ == vault_seed(),
{
    let mut r: Vec<u8> = Vec::new();
    r.push('v' as u8);
    r.push('a' as u8);
    r.push('u' as u8);
    r.push('l' as u8);
    r.push('t' as u8);
    assert(r@ =~= vault_seed());
    r
}

fn byte_seed(b: u8) -> (r: Vec<u8>)
    ensures
        r@ == seq![b],
{
    let mut r: Vec<u8> = Vec::new();
    r.push(b);
    assert(r@ =~= seq![b]);
    r
}

fn digest_seed(d: &[u8; 32]) -> (r: Vec<u8>)
    ensures
        r@ == d@,
{
    Address { bytes: *d }.to_seed()
}

fn seeds2(a: Vec<u8>, b: Vec<u8>) -> (r: Vec<Vec<u8>>)
    ensures
        r.deep_view() == seq![a@, b@],
{
    proof {
        assert(a.deep_view() =~= a@);
        assert(b.deep_view() =~= b@);
    }
    let mut r: Vec<Vec<u8>> = Vec::new();
    r.push(a);
    r.push(b);
    assert(r.deep_view()[0] == r@[0].deep_view());
    assert(r.deep_view()[1] == r@[1].deep_view());
    assert(r.deep_view() =~= seq![a@, b@]);
    r
}

fn seeds3(a: Vec<u8>, b: Vec<u8>, c: Vec<u8>) -> (r: Vec<Vec<u8>>)
    ensures
        r.deep_view() == seq![a@, b@, c@],
{
    proof {
        assert(a.deep_view() =~= a@);
        assert(b.deep_view() =~= b@);
        assert(c.deep_view() =~= c@);
    }
    let mut r: Vec<Vec<u8>> = Vec::new();
    r.push(a);
    r.push(b);
    r.push(c);
    assert(r.deep_view()[0] == r@[0].deep_view());
    assert(r.deep_view()[1] == r@[1].deep_view());
    assert(r.deep_view()[2] == r@[2].deep_view());
    assert(r.deep_view() =~= seq![a@, b@, c@]);
    r
}

/// The address and bump of the post of `author` titled `title`.
pub fn post_address(program: &Address, title: &str, author: &Address) -> (r: Option<(Address, u8)>)
    ensures
        found_view(r) == post_address_of(program@, title@, author@),
{
    let digest = hash_text(title);
    let seeds = seeds3(post_seed_bytes(), digest_seed(&digest), author.to_seed());
    try_find_address(&seeds, program)
}

/// The address and bump of the vote of `voter` on the post at `post`.
pub fn vote_address(program: &Address, voter: &Address, post: &Address) -> (r: Option<(Address, u8)>)
    ensures
        found_view(r) == vote_address_of(program@, voter@, post@),
{
    let seeds = seeds3(vote_seed_bytes(), voter.to_seed(), post.to_seed());
    try_find_address(&seeds, program)
}

/// The address and bump of the wallet record of `creator`.
pub fn creator_wallet_address(program: &Address, creator: &Address) -> (r: Option<(Address, u8)>)
    ensures
        found_view(r) == creator_wallet_address_of(program@, creator@),
{
    let seeds = seeds2(state_seed_bytes(), creator.to_seed());
    try_find_address(&seeds, program)
}

/// The address and bump of the vault authority of the wallet record at `wallet`.
pub fn vault_authority_address(program: &Address, wallet: &Address) -> (r: Option<(Address, u8)>)
    ensures
        found_view(r) == vault_authority_of(program@, wallet@),
{
    let seeds = seeds2(vault_seed_bytes(), wallet.to_seed());
    try_find_address(&seeds, program)
}

/// Whether "state", `creator` and `state_bump` derive `wallet`, as an
/// address created from stated seeds.
pub open spec fn wallet_seeds_match(
    program: Seq<u8>,
    creator: Seq<u8>,
    state_bump: u8,
    wallet: Seq<u8>,
) -> bool {
    created_program_address(seq![state_seed(), creator, seq![state_bump]], program) == Some(wallet)
}

/// Whether "vault", `wallet` and `wallet_bump` derive `authority`.
pub open spec fn vault_seeds_match(
    program: Seq<u8>,
    wallet: Seq<u8>,
    wallet_bump: u8,
    authority: Seq<u8>,
) -> bool {
    created_program_address(seq![vault_seed(), wallet, seq![wallet_bump]], program) == Some(
        authority,
    )
}

/// Checks that the wallet record of `creator` stands at `wallet`, the address
/// its state bump derives.
pub fn check_wallet_seeds(program: &Address, creator: &Address, state_bump: u8, wallet: &Address) -> (r: bool)
    ensures
        r == wallet_seeds_match(program@, creator@, state_bump, wallet@),
{
    let seeds = seeds3(state_seed_bytes(), creator.to_seed(), byte_seed(state_bump));
    match create_address(&seeds, program) {
        Some(a) => a == *wallet,
        None => false,
    }
}

/// Checks that `authority` is the vault authority that the wallet bump of the
/// wallet record at `wallet` derives.
pub fn check_vault_seeds(program: &Address, wallet: &Address, wallet_bump: u8, authority: &Address) -> (r: bool)
    ensures
        r == vault_seeds_match(program@, wallet@, wallet_bump, authority@),
{
    let seeds = seeds3(vault_seed_bytes(), wallet.to_seed(), byte_seed(wallet_bump));
    match create_address(&seeds, program) {
        Some(a) => a == *authority,
        None => false,
    }
}

} // verus!
