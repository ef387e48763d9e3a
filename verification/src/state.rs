//! The records that the host stores for the core. Each record stands at an
//! address of its own; `LEN` is the storage that the host sets aside for it,
//! eight bytes of record tag included.
use vstd::prelude::*;
use crate::consts::MAX_TOKENS;

verus! {

/// Flags and chain identifiers that hold for the whole program.
#[derive(Clone, Copy, Debug, PartialEq, Eq, Structural)]
pub struct GlobalConfig {
    pub allow_deposit: bool,
    pub program_paused: bool,
    pub native_deposits_restricted: bool,
    pub src_chain_id: u16,
    pub default_chain_id: u32,
}

impl GlobalConfig {
    pub const LEN: usize = 8 + 1 + 1 + 1 + 2 + 4;
}

/// The singleton record of the program.
#[derive(Clone, Copy, Debug)]
pub struct Portfolio {
    /// The identity that initialized the program.
    pub admin: [u8; 32],
    pub global_config: GlobalConfig,
    /// The program that is the messaging gateway.
    pub endpoint_program: [u8; 32],
    /// The marker that the host derived together with the record's address.
    pub bump: u8,
}

impl Portfolio {
    pub const LEN: usize = 8 + 32 + (1 + 1 + 1 + 2 + 4) + 32 + 1;
}

/// The endpoint on one destination chain. Once created it never changes.
#[derive(Clone, Copy, Debug)]
pub struct Remote {
    pub address: [u8; 32],
    pub bump: u8,
}

impl Remote {
    pub const SIZE: usize = 8 + 32 + 1;
}

/// Marks an identity as admin. The record carries nothing: that it exists is
/// the capability.
#[derive(Clone, Copy, Debug, PartialEq, Eq, Structural)]
pub struct Admin {}

impl Admin {
    pub const LEN: usize = 8;
}

/// Why an identity is banned.
#[derive(Clone, Copy, Debug, PartialEq, Eq, Structural)]
pub enum BanReason {
    NotBanned,
    Ofac,
    Abuse,
    Terms,
}

/// Marks an identity as banned. While the record exists the identity is
/// banned, whatever the reason says.
#[derive(Clone, Copy, Debug, PartialEq, Eq, Structural)]
pub struct BannedAccount {
    pub reason: BanReason,
}

impl BannedAccount {
    pub const LEN: usize = 8 + 1;
}

/// One page of the token allow-list.
#[derive(Clone, Debug)]
pub struct TokenList {
    /// Where the host keeps the page that follows, if one does.
    pub next_page: Option<[u8; 32]>,
    /// The symbols on this page, in the order in which they were added.
    pub tokens: Vec<[u8; 32]>,
}

impl TokenList {
    pub const LEN: usize = 8 + 33 + 4 + MAX_TOKENS * 32;
}

/// What one page holds, as a value of specifications.
pub struct TokenListView {
    pub next_page: Option<[u8; 32]>,
    pub tokens: Seq<[u8; 32]>,
}

impl View for TokenList {
    type V = TokenListView;

    open spec fn view(&self) -> TokenListView {
        TokenListView { next_page: self.next_page, tokens: self.tokens@ }
    }
}

impl DeepView for TokenList {
    type V = TokenListView;

    open spec fn deep_view(&self) -> TokenListView {
        self@
    }
}

/// What the program knows of one supported token.
#[derive(Clone, Copy, Debug)]
pub struct TokenDetails {
    pub decimals: u8,
    pub symbol: [u8; 32],
    /// The token's mint; `None` for the chain's native currency.
    pub token_address: Option<[u8; 32]>,
}

impl TokenDetails {
    pub const LEN: usize = 8 + 1 + 32 + 33;
}

impl Default for TokenDetails {
    fn default() -> (d: TokenDetails)
        ensures
            d.decimals == 0,
            d.symbol@ == Seq::new(32, |i: int| 0u8),
            d.token_address is None,
    {
        TokenDetails { decimals: 0, symbol: [0u8; 32], token_address: None }
    }
}

} // verus!
