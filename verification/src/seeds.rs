//! Where the host keeps each record. A record's address is derived by the
//! host from a list of seeds: a fixed tag, then whatever tells the record
//! apart from others of its kind. The core names the seeds; it derives no
//! address itself.
use vstd::prelude::*;
use crate::bytes::{be_bytes, push_be};
use crate::consts::{
    ADMIN_SEED, BANNED_ACCOUNT_SEED, PORTFOLIO_SEED, REMOTE_SEED, SOL_VAULT_SEED,
    TOKEN_DETAILS_SEED, TOKEN_LIST_SEED,
};

verus! {

/// A number in decimal digits, as ASCII, without leading zeros.
pub open spec fn decimal(n: nat) -> Seq<u8>
    decreases n,
{
    if n < 10 {
        seq![(48 + n) as u8]
    } else {
        decimal(n / 10).push((48 + n % 10) as u8)
    }
}

fn push_decimal(out: &mut Vec<u8>, n: u32)
    ensures
        final(out)@ == old(out)@ + decimal(n as nat),
    decreases n,
{
    if n < 10 {
        out.push(48 + n as u8);
        assert(out@ =~= old(out)@ + decimal(n as nat));
    } else {
        push_decimal(out, n / 10);
        out.push(48 + (n % 10) as u8);
        assert(out@ =~= old(out)@ + decimal(n as nat));
    }
}

fn one_seed(tag: &[u8]) -> (seeds: Vec<Vec<u8>>)
    ensures
        seeds.deep_view() == seq![tag@],
{
    let mut first: Vec<u8> = Vec::new();
    first.extend_from_slice(tag);
    let mut seeds: Vec<Vec<u8>> = Vec::new();
    seeds.push(first);
    assert(seeds.deep_view() =~~= seq![tag@]);
    seeds
}

fn two_seeds(tag: &[u8], rest: Vec<u8>) -> (seeds: Vec<Vec<u8>>)
    ensures
        seeds.deep_view() == seq![tag@, rest@],
{
    let mut first: Vec<u8> = Vec::new();
    first.extend_from_slice(tag);
    let mut seeds: Vec<Vec<u8>> = Vec::new();
    seeds.push(first);
    seeds.push(rest);
    assert(seeds.deep_view() =~~= seq![tag@, rest@]);
    seeds
}

fn key_bytes(key: &[u8; 32]) -> (bytes: Vec<u8>)
    ensures
        bytes@ == key@,
{
    let mut bytes: Vec<u8> = Vec::new();
    bytes.extend_from_slice(key.as_slice());
    bytes
}

/// The seeds of the portfolio singleton, which holds the global
/// configuration: the tag alone.
pub fn portfolio_seeds() -> (seeds: Vec<Vec<u8>>)
    ensures
        seeds.deep_view() == seq![PORTFOLIO_SEED@],
{
    one_seed(PORTFOLIO_SEED.as_slice())
}

/// The seeds with which the portfolio signs a gateway call: the tag, then
/// the marker that the host derived with the portfolio's address.
pub fn portfolio_signer_seeds(bump: u8) -> (seeds: Vec<Vec<u8>>)
    ensures
        seeds.deep_view() == seq![PORTFOLIO_SEED@, seq![bump]],
{
    let mut marker: Vec<u8> = Vec::new();
    marker.push(bump);
    assert(marker@ =~= seq![bump]);
    two_seeds(PORTFOLIO_SEED.as_slice(), marker)
}

/// The seeds of the native-currency vault: the tag alone.
pub fn sol_vault_seeds() -> (seeds: Vec<Vec<u8>>)
    ensures
        seeds.deep_view() == seq![SOL_VAULT_SEED@],
{
    one_seed(SOL_VAULT_SEED.as_slice())
}

/// The seeds of the remote of a destination chain: the tag, then the chain
/// id in four bytes, big-endian.
pub fn remote_seeds(dst_eid: u32) -> (seeds: Vec<Vec<u8>>)
    ensures
        seeds.deep_view() == seq![REMOTE_SEED@, be_bytes(dst_eid as nat, 4)],
{
    let mut chain: Vec<u8> = Vec::new();
    push_be(&mut chain, dst_eid as u64, 4);
    assert(chain@ =~= be_bytes(dst_eid as nat, 4));
    two_seeds(REMOTE_SEED.as_slice(), chain)
}

/// The seeds of the admin record of an identity: the tag, then the identity.
pub fn admin_seeds(admin: &[u8; 32]) -> (seeds: Vec<Vec<u8>>)
    ensures
        seeds.deep_view() == seq![ADMIN_SEED@, admin@],
{
    two_seeds(ADMIN_SEED.as_slice(), key_bytes(admin))
}

/// The seeds of the ban record of an identity: the tag, then the identity.
pub fn banned_account_seeds(account: &[u8; 32]) -> (seeds: Vec<Vec<u8>>)
    ensures
        seeds.deep_view() == seq![BANNED_ACCOUNT_SEED@, account@],
{
    two_seeds(BANNED_ACCOUNT_SEED.as_slice(), key_bytes(account))
}

/// The seeds of a page of the token allow-list: the tag, then the page's
/// index in decimal digits.
pub fn token_list_seeds(page_index: u32) -> (seeds: Vec<Vec<u8>>)
    ensures
        seeds.deep_view() == seq![TOKEN_LIST_SEED@, decimal(page_index as nat)],
{
    let mut index: Vec<u8> = Vec::new();
    push_decimal(&mut index, page_index);
    assert(index@ =~= decimal(page_index as nat));
    two_seeds(TOKEN_LIST_SEED.as_slice(), index)
}

/// The seeds of the details record of a token: the tag, then the symbol.
pub fn token_details_seeds(symbol: &[u8; 32]) -> (seeds: Vec<Vec<u8>>)
    ensures
        seeds.deep_view() == seq![TOKEN_DETAILS_SEED@, symbol@],
{
    two_seeds(TOKEN_DETAILS_SEED.as_slice(), key_bytes(symbol))
}

} // verus!
