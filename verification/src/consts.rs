//! Fixed values shared by every component.
use vstd::prelude::*;

verus! {

/// The execution options handed to the gateway with every quote and send.
/// The blob is agreed on out of band and passed on as it is.
pub const GAS_OPTIONS: [u8; 22] = [
    0, 3, 1, 0, 17, 1, 0, 0, 0, 0, 0, 0, 0, 0, 0, 0, 0, 0, 0, 6, 26, 128,
];

/// The execution options as text, in hexadecimal.
pub const GAS_OPTIONS_HEX: &'static str = "00030100110100000000000000000000000000061a80";

/// Address tag of the portfolio singleton, which holds the global
/// configuration: the ASCII letters `Portfolio`.
pub const PORTFOLIO_SEED: [u8; 9] = [80, 111, 114, 116, 102, 111, 108, 105, 111];

/// Address tag of the native-currency vault: `SolVault`.
pub const SOL_VAULT_SEED: [u8; 8] = [83, 111, 108, 86, 97, 117, 108, 116];

/// Address tag of a remote record: `Remote`.
pub const REMOTE_SEED: [u8; 6] = [82, 101, 109, 111, 116, 101];

/// Address tag of an admin record: `Admin`.
pub const ADMIN_SEED: [u8; 5] = [65, 100, 109, 105, 110];

/// Address tag of a banned-account record: `Banned`.
pub const BANNED_ACCOUNT_SEED: [u8; 6] = [66, 97, 110, 110, 101, 100];

/// Address tag of a page of the token allow-list: `token_list`.
pub const TOKEN_LIST_SEED: [u8; 10] = [116, 111, 107, 101, 110, 95, 108, 105, 115, 116];

/// Address tag of a token-details record: `token_details`.
pub const TOKEN_DETAILS_SEED: [u8; 13] = [
    116, 111, 107, 101, 110, 95, 100, 101, 116, 97, 105, 108, 115,
];

/// Address tag under which the gateway keeps its own settings: `Endpoint`.
pub const ENDPOINT_SEEDS: [u8; 8] = [69, 110, 100, 112, 111, 105, 110, 116];

/// Largest number of symbols one page of the token allow-list may hold.
pub const MAX_TOKENS: usize = 20;

/// Symbol of the chain's native currency: the ASCII letters `SOL`, zero padded.
pub const NATIVE_SYMBOL: [u8; 32] = [
    83, 79, 76, 0, 0, 0, 0, 0, 0, 0, 0, 0, 0, 0, 0, 0, 0, 0, 0, 0, 0, 0, 0, 0, 0, 0, 0, 0, 0, 0, 0,
    0,
];

} // verus!
