//! Every way an operation of the core can fail. All failures are final for
//! the operation: nothing is retried and no record is changed.
use vstd::prelude::*;

verus! {

/// Failures of authorization, compliance, global state and the gateway reply.
#[derive(Clone, Copy, Debug, PartialEq, Eq, Structural)]
pub enum PortfolioError {
    /// The caller does not hold the admin capability.
    Unauthorized,
    /// A list of records that the operation needs was handed over empty.
    AccountsNotProvided,
    /// A single page has no room left.
    PageFull,
    /// Deposits are switched off.
    DepositsPaused,
    /// The caller is on the ban list.
    AccountBanned,
    /// The program is paused.
    ProgramPaused,
    /// The operation needs the program to be paused, and it is not.
    ProgramNotPaused,
    /// The transaction kind is not served.
    UnsupportedTransaction,
    /// A transfer of quantity zero.
    ZeroTokenQuantity,
    /// The gateway gave no usable reply to a quote.
    LzQuoteError,
}

/// Failures of ban-list bookkeeping.
#[derive(Clone, Copy, Debug, PartialEq, Eq, Structural)]
pub enum BannedAccountsError {
    AccountAlreadyBanned,
    AccountNotBanned,
}

/// Failures of the token allow-list.
#[derive(Clone, Copy, Debug, PartialEq, Eq, Structural)]
pub enum TokenListError {
    /// The symbol is already on the list.
    TokenAlreadyAdded,
    /// The symbol is on no page of the list.
    TokenNotFound,
    /// Every page of the list is full.
    TokenListFull,
    /// Only the native symbol can be added as the native token.
    InvalidNativeToken,
}

/// Failures of deposits.
#[derive(Clone, Copy, Debug, PartialEq, Eq, Structural)]
pub enum DepositError {
    NotEnoughSplTokenBalance,
    NotEnoughNativeBalance,
    InvalidVaultOwner,
    TokenNotSupported,
    TokenNotFound,
    InvalidMint,
    InvalidTokenOwner,
    InvalidDestinationOwner,
    NativeDepositNotAllowed,
    BannedAccount,
}

/// Failures of withdrawals.
#[derive(Clone, Copy, Debug, PartialEq, Eq, Structural)]
pub enum WithdrawError {
    NotEnoughNativeBalance,
    InvalidTokenSymbol,
}

/// Failures of decoding a transfer frame.
#[derive(Clone, Copy, Debug, PartialEq, Eq, Structural)]
pub enum CodecError {
    /// The frame is not exactly 128 bytes long.
    BadLength,
    /// The transaction byte or the message-type byte names no known variant.
    BadTag,
}

/// Failures of the remote registry.
#[derive(Clone, Copy, Debug, PartialEq, Eq, Structural)]
pub enum RemoteError {
    /// The chain id already has a remote; a remote is never overwritten.
    AlreadyRegistered,
    /// The chain id has no remote.
    NotRegistered,
}

/// What an operation that crosses several components can fail with.
#[derive(Clone, Copy, Debug, PartialEq, Eq, Structural)]
pub enum BridgeError {
    Portfolio(PortfolioError),
    TokenList(TokenListError),
    Codec(CodecError),
    Remote(RemoteError),
}

impl PortfolioError {
    /// The text that explains the failure.
    pub open spec fn message_text(self) -> Seq<char> {
        match self {
            PortfolioError::Unauthorized => "Signer not authorized."@,
            PortfolioError::AccountsNotProvided => "Accounts not provided."@,
            PortfolioError::PageFull => "Account page is full."@,
            PortfolioError::DepositsPaused => "P-NTDP-01"@,
            PortfolioError::AccountBanned => "P-BANA-01"@,
            PortfolioError::ProgramPaused => "Portofolio is paused."@,
            PortfolioError::ProgramNotPaused => "Portfolio must be paused."@,
            PortfolioError::UnsupportedTransaction => "P-PTNS-02"@,
            PortfolioError::ZeroTokenQuantity => "P-ZETD-01"@,
            PortfolioError::LzQuoteError => "LZ-QUOTE-ERROR"@,
        }
    }

    /// The text that explains the failure.
    pub fn message(&self) -> (text: &'static str)
        ensures
            text@ == self.message_text(),
    {
        match self {
            PortfolioError::Unauthorized => "Signer not authorized.",
            PortfolioError::AccountsNotProvided => "Accounts not provided.",
            PortfolioError::PageFull => "Account page is full.",
            PortfolioError::DepositsPaused => "P-NTDP-01",
            PortfolioError::AccountBanned => "P-BANA-01",
            PortfolioError::ProgramPaused => "Portofolio is paused.",
            PortfolioError::ProgramNotPaused => "Portfolio must be paused.",
            PortfolioError::UnsupportedTransaction => "P-PTNS-02",
            PortfolioError::ZeroTokenQuantity => "P-ZETD-01",
            PortfolioError::LzQuoteError => "LZ-QUOTE-ERROR",
        }
    }
}

impl BannedAccountsError {
    /// The text that explains the failure.
    pub open spec fn message_text(self) -> Seq<char> {
        match self {
            BannedAccountsError::AccountAlreadyBanned => "Account is already banned."@,
            BannedAccountsError::AccountNotBanned => "Account is not banned."@,
        }
    }

    /// The text that explains the failure.
    pub fn message(&self) -> (text: &'static str)
        ensures
            text@ == self.message_text(),
    {
        match self {
            BannedAccountsError::AccountAlreadyBanned => "Account is already banned.",
            BannedAccountsError::AccountNotBanned => "Account is not banned.",
        }
    }
}

impl TokenListError {
    /// The text that explains the failure.
    pub open spec fn message_text(self) -> Seq<char> {
        match self {
            TokenListError::TokenAlreadyAdded => "Token is already added."@,
            TokenListError::TokenNotFound => "Token is not found."@,
            TokenListError::TokenListFull => "TokenList is full."@,
            TokenListError::InvalidNativeToken => "Only SOL can be added as native token."@,
        }
    }

    /// The text that explains the failure.
    pub fn message(&self) -> (text: &'static str)
        ensures
            text@ == self.message_text(),
    {
        match self {
            TokenListError::TokenAlreadyAdded => "Token is already added.",
            TokenListError::TokenNotFound => "Token is not found.",
            TokenListError::TokenListFull => "TokenList is full.",
            TokenListError::InvalidNativeToken => "Only SOL can be added as native token.",
        }
    }
}

impl DepositError {
    /// The text that explains the failure.
    pub open spec fn message_text(self) -> Seq<char> {
        match self {
            DepositError::NotEnoughSplTokenBalance => "P-NETD-01"@,
            DepositError::NotEnoughNativeBalance => "Not enough SOL balance."@,
            DepositError::InvalidVaultOwner => "Invalid vault owner."@,
            DepositError::TokenNotSupported => "Token not supported."@,
            DepositError::TokenNotFound => "Token not found."@,
            DepositError::InvalidMint => "Invalid mint."@,
            DepositError::InvalidTokenOwner => "P-OODT-01"@,
            DepositError::InvalidDestinationOwner => "Invalid destination owner."@,
            DepositError::NativeDepositNotAllowed => "P-NDNS-01"@,
            DepositError::BannedAccount => "Banned account."@,
        }
    }

    /// The text that explains the failure.
    pub fn message(&self) -> (text: &'static str)
        ensures
            text@ == self.message_text(),
    {
        match self {
            DepositError::NotEnoughSplTokenBalance => "P-NETD-01",
            DepositError::NotEnoughNativeBalance => "Not enough SOL balance.",
            DepositError::InvalidVaultOwner => "Invalid vault owner.",
            DepositError::TokenNotSupported => "Token not supported.",
            DepositError::TokenNotFound => "Token not found.",
            DepositError::InvalidMint => "Invalid mint.",
            DepositError::InvalidTokenOwner => "P-OODT-01",
            DepositError::InvalidDestinationOwner => "Invalid destination owner.",
            DepositError::NativeDepositNotAllowed => "P-NDNS-01",
            DepositError::BannedAccount => "Banned account.",
        }
    }
}

impl WithdrawError {
    /// The text that explains the failure.
    pub open spec fn message_text(self) -> Seq<char> {
        match self {
            WithdrawError::NotEnoughNativeBalance => "Program does not have enough balance."@,
            WithdrawError::InvalidTokenSymbol => "Invalid token symbol."@,
        }
    }

    /// The text that explains the failure.
    pub fn message(&self) -> (text: &'static str)
        ensures
            text@ == self.message_text(),
    {
        match self {
            WithdrawError::NotEnoughNativeBalance => "Program does not have enough balance.",
            WithdrawError::InvalidTokenSymbol => "Invalid token symbol.",
        }
    }
}

impl CodecError {
    /// The text that explains the failure.
    pub open spec fn message_text(self) -> Seq<char> {
        match self {
            CodecError::BadLength => "XFER frame is not 128 bytes long."@,
            CodecError::BadTag => "XFER frame names an unknown variant."@,
        }
    }

    /// The text that explains the failure.
    pub fn message(&self) -> (text: &'static str)
        ensures
            text@ == self.message_text(),
    {
        match self {
            CodecError::BadLength => "XFER frame is not 128 bytes long.",
            CodecError::BadTag => "XFER frame names an unknown variant.",
        }
    }
}

impl RemoteError {
    /// The text that explains the failure.
    pub open spec fn message_text(self) -> Seq<char> {
        match self {
            RemoteError::AlreadyRegistered => "Remote is already registered."@,
            RemoteError::NotRegistered => "Remote is not registered."@,
        }
    }

    /// The text that explains the failure.
    pub fn message(&self) -> (text: &'static str)
        ensures
            text@ == self.message_text(),
    {
        match self {
            RemoteError::AlreadyRegistered => "Remote is already registered.",
            RemoteError::NotRegistered => "Remote is not registered.",
        }
    }
}

impl BridgeError {
    /// The text that explains the failure: that of the failure inside.
    pub open spec fn message_text(self) -> Seq<char> {
        match self {
            BridgeError::Portfolio(e) => e.message_text(),
            BridgeError::TokenList(e) => e.message_text(),
            BridgeError::Codec(e) => e.message_text(),
            BridgeError::Remote(e) => e.message_text(),
        }
    }

    /// The text that explains the failure: that of the failure inside.
    pub fn message(&self) -> (text: &'static str)
        ensures
            text@ == self.message_text(),
    {
        match self {
            BridgeError::Portfolio(e) => e.message(),
            BridgeError::TokenList(e) => e.message(),
            BridgeError::Codec(e) => e.message(),
            BridgeError::Remote(e) => e.message(),
        }
    }
}

} // verus!
