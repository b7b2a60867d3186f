//! Token accounts as the program reads them, and the transfers it asks of
//! the token program.
use vstd::prelude::*;
use anchor_lang::AccountDeserialize;
use anchor_spl::token;
use anchor_spl::token_interface;
use crate::address::Address;

verus! {

/// What the program reads of a token account: its mint and its owner.
#[derive(Debug, Clone, Copy)]
pub struct TokenAccount {
    pub mint: Address,
    pub owner: Address,
}

/// A transfer for the token program to carry out in the same operation.
#[derive(Debug, Clone, Copy)]
pub enum TokenTransfer {
    /// Move `amount` base units, authorised by `authority`.
    Transfer { from: Address, to: Address, authority: Address, amount: u64 },
    /// Move `amount` base units of `mint`, which must have `decimals`
    /// decimals, authorised by `authority`.
    TransferChecked {
        from: Address,
        mint: Address,
        to: Address,
        authority: Address,
        amount: u64,
        decimals: u8,
    },
}

/// Mint and owner of an SPL token account held in `data`, if the data is
/// one.
pub uninterp spec fn spl_token_account_of(data: Seq<u8>) -> Option<(Seq<u8>, Seq<u8>)>;

/// Mint and owner of a token account of either token program (with or
/// without extensions) held in `data`, if the data is one.
pub uninterp spec fn token_interface_account_of(data: Seq<u8>) -> Option<(Seq<u8>, Seq<u8>)>;

/// Decimals of a mint of either token program held in `data`, if the data is
/// one.
pub uninterp spec fn mint_decimals_of(data: Seq<u8>) -> Option<u8>;

/// A token account's fields as values.
pub open spec fn account_view(r: Option<TokenAccount>) -> Option<(Seq<u8>, Seq<u8>)> {
    match r {
        Some(t) => Some((t.mint@, t.owner@)),
        None => None,
    }
}

/// Relies on anchor_spl::token::TokenAccount::try_deserialize, which unpacks
/// an initialised SPL token account of exactly its packed length and fails
/// on anything else; it does not panic.
#[verifier::external_body]
pub(crate) fn read_spl_token_account(data: &Vec<u8>) -> (r: Option<TokenAccount>)
    ensures
        account_view(r) == spl_token_account_of(data@),
{
    let mut buf: &[u8] = data.as_slice();
    token::TokenAccount::try_deserialize(&mut buf).ok().map(
        |t| TokenAccount {
            mint: Address { bytes: t.mint.to_bytes() },
            owner: Address { bytes: t.owner.to_bytes() },
        },
    )
}

/// Relies on anchor_spl::token_interface::TokenAccount::try_deserialize,
/// which unpacks a token account with its extensions and fails on data that
/// is not one; it does not panic.
#[verifier::external_body]
pub(crate) fn read_token_interface_account(data: &Vec<u8>) -> (r: Option<TokenAccount>)
    ensures
        account_view(r) == token_interface_account_of(data@),
{
    let mut buf: &[u8] = data.as_slice();
    token_interface::TokenAccount::try_deserialize(&mut buf).ok().map(
        |t| TokenAccount {
            mint: Address { bytes: t.mint.to_bytes() },
            owner: Address { bytes: t.owner.to_bytes() },
        },
    )
}

/// Relies on anchor_spl::token_interface::Mint::try_deserialize, which
/// unpacks a mint with its extensions and fails on data that is not one; it
/// does not panic.
#[verifier::external_body]
pub(crate) fn read_mint_decimals(data: &Vec<u8>) -> (r: Option<u8>)
    ensures
        r == mint_decimals_of(data@),
{
    let mut buf: &[u8] = data.as_slice();
    token_interface::Mint::try_deserialize(&mut buf).ok().map(|m| m.decimals)
}

} // verus!
