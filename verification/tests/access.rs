use portfolio_core::access::{
    require_admin, require_deposits_allowed, require_not_banned, require_paused, require_running,
};
use portfolio_core::errors::{
    BannedAccountsError, BridgeError, CodecError, DepositError, RemoteError, TokenListError,
    WithdrawError,
};
use portfolio_core::errors::PortfolioError;
use portfolio_core::instructions::admin::{add_admin, remove_admin};
use portfolio_core::instructions::banned_account::{ban_account, ban_reason, unban_account};
use portfolio_core::instructions::global_config::{
    set_allow_deposit, set_native_deposits_restricted, set_paused,
};
use portfolio_core::records::{same_bytes, Records};
use portfolio_core::state::{Admin, BanReason, BannedAccount, GlobalConfig, Portfolio};

const ADMIN: [u8; 32] = [1u8; 32];
const STRANGER: [u8; 32] = [2u8; 32];
const OTHER: [u8; 32] = [3u8; 32];

fn admins() -> Records<Admin> {
    let mut admins = Records::new();
    admins.insert(ADMIN, Admin {});
    admins
}

fn portfolio() -> Portfolio {
    Portfolio {
        admin: ADMIN,
        global_config: GlobalConfig {
            allow_deposit: true,
            program_paused: false,
            native_deposits_restricted: false,
            src_chain_id: 7,
            default_chain_id: 9,
        },
        endpoint_program: [8u8; 32],
        bump: 254,
    }
}

#[test]
fn same_bytes_compares_all_32_bytes() {
    let a = [5u8; 32];
    let mut b = a;
    assert!(same_bytes(&a, &b));
    b[31] = 6;
    assert!(!same_bytes(&a, &b));
    b = a;
    b[0] = 6;
    assert!(!same_bytes(&a, &b));
}

#[test]
fn records_keep_one_record_per_key() {
    let mut store: Records<BannedAccount> = Records::new();
    assert!(!store.contains(&OTHER));
    assert!(store.get(&OTHER).is_none());
    store.insert(OTHER, BannedAccount { reason: BanReason::Ofac });
    store.insert(STRANGER, BannedAccount { reason: BanReason::Terms });
    store.insert(OTHER, BannedAccount { reason: BanReason::Abuse });
    assert_eq!(store.get(&OTHER), Some(&BannedAccount { reason: BanReason::Abuse }));
    assert_eq!(store.get(&STRANGER), Some(&BannedAccount { reason: BanReason::Terms }));
    assert_eq!(store.remove(&OTHER), Some(BannedAccount { reason: BanReason::Abuse }));
    assert_eq!(store.remove(&OTHER), None);
    assert!(!store.contains(&OTHER));
    assert!(store.contains(&STRANGER));
}

#[test]
fn an_admin_can_make_another_admin() {
    let mut admins = admins();
    let event = add_admin(&mut admins, &ADMIN, OTHER).unwrap();
    assert_eq!(event.admin, OTHER);
    assert_eq!(event.role, [0u8; 32]);
    assert!(admins.contains(&OTHER));
    assert!(admins.contains(&ADMIN));
    let event = add_admin(&mut admins, &OTHER, STRANGER).unwrap();
    assert_eq!(event.admin, STRANGER);
    assert!(admins.contains(&STRANGER));
}

#[test]
fn a_stranger_cannot_make_an_admin() {
    let mut admins = admins();
    assert_eq!(add_admin(&mut admins, &STRANGER, OTHER), Err(PortfolioError::Unauthorized));
    assert_eq!(add_admin(&mut admins, &STRANGER, STRANGER), Err(PortfolioError::Unauthorized));
    assert!(!admins.contains(&OTHER));
    assert!(!admins.contains(&STRANGER));
}

#[test]
fn an_admin_can_remove_an_admin() {
    let mut admins = admins();
    add_admin(&mut admins, &ADMIN, OTHER).unwrap();
    let event = remove_admin(&mut admins, &ADMIN, OTHER).unwrap();
    assert_eq!(event.admin, OTHER);
    assert_eq!(event.role, [0u8; 32]);
    assert!(!admins.contains(&OTHER));
    assert!(admins.contains(&ADMIN));
    assert_eq!(add_admin(&mut admins, &OTHER, STRANGER), Err(PortfolioError::Unauthorized));
}

#[test]
fn a_stranger_cannot_remove_an_admin() {
    let mut admins = admins();
    assert_eq!(remove_admin(&mut admins, &STRANGER, ADMIN), Err(PortfolioError::Unauthorized));
    assert!(admins.contains(&ADMIN));
}

#[test]
fn an_admin_can_ban_and_unban() {
    let admins = admins();
    let mut banned = Records::new();
    assert_eq!(ban_reason(&banned, &OTHER), BanReason::NotBanned);
    let event = ban_account(&admins, &ADMIN, &mut banned, OTHER, BanReason::Ofac).unwrap();
    assert_eq!(event.account, OTHER);
    assert_eq!(event.reason, BanReason::Ofac);
    assert!(event.banned);
    assert!(banned.contains(&OTHER));
    assert_eq!(ban_reason(&banned, &OTHER), BanReason::Ofac);
    let event = ban_account(&admins, &ADMIN, &mut banned, OTHER, BanReason::Abuse).unwrap();
    assert_eq!(event.reason, BanReason::Abuse);
    assert_eq!(ban_reason(&banned, &OTHER), BanReason::Abuse);
    let event = unban_account(&admins, &ADMIN, &mut banned, OTHER).unwrap();
    assert_eq!(event.account, OTHER);
    assert_eq!(event.reason, BanReason::NotBanned);
    assert!(!event.banned);
    assert!(!banned.contains(&OTHER));
    assert_eq!(ban_reason(&banned, &OTHER), BanReason::NotBanned);
}

#[test]
fn a_stranger_cannot_ban_or_unban() {
    let admins = admins();
    let mut banned = Records::new();
    assert_eq!(
        ban_account(&admins, &STRANGER, &mut banned, OTHER, BanReason::Terms),
        Err(PortfolioError::Unauthorized)
    );
    assert!(!banned.contains(&OTHER));
    ban_account(&admins, &ADMIN, &mut banned, OTHER, BanReason::Terms).unwrap();
    assert_eq!(
        unban_account(&admins, &STRANGER, &mut banned, OTHER),
        Err(PortfolioError::Unauthorized)
    );
    assert_eq!(
        unban_account(&admins, &OTHER, &mut banned, OTHER),
        Err(PortfolioError::Unauthorized)
    );
    assert!(banned.contains(&OTHER));
}

#[test]
fn an_admin_can_pause_the_program() {
    let mut portfolio = portfolio();
    let event = set_paused(&admins(), &ADMIN, &mut portfolio, true).unwrap();
    assert!(portfolio.global_config.program_paused);
    assert!(portfolio.global_config.allow_deposit);
    assert!(!portfolio.global_config.native_deposits_restricted);
    assert_eq!(portfolio.global_config.src_chain_id, 7);
    assert_eq!(portfolio.global_config.default_chain_id, 9);
    assert_eq!(portfolio.bump, 254);
    assert_eq!(event.pair, [0u8; 32]);
    assert_eq!(event.parameter, "P-PAUSED");
    assert_eq!((event.old_value, event.new_value), (0, 1));
    let event = set_paused(&admins(), &ADMIN, &mut portfolio, false).unwrap();
    assert!(!portfolio.global_config.program_paused);
    assert_eq!((event.old_value, event.new_value), (1, 0));
}

#[test]
fn an_admin_can_switch_deposits() {
    let mut portfolio = portfolio();
    let event = set_allow_deposit(&admins(), &ADMIN, &mut portfolio, false).unwrap();
    assert!(!portfolio.global_config.allow_deposit);
    assert!(!portfolio.global_config.program_paused);
    assert_eq!(event.parameter, "P-ALLOWDEPOSIT");
    assert_eq!((event.old_value, event.new_value), (1, 0));
    let event = set_native_deposits_restricted(&admins(), &ADMIN, &mut portfolio, true).unwrap();
    assert!(portfolio.global_config.native_deposits_restricted);
    assert!(!portfolio.global_config.allow_deposit);
    assert_eq!(event.parameter, "P-NATIVEDEPOSITSRESTRICTED");
    assert_eq!((event.old_value, event.new_value), (0, 1));
}

#[test]
fn a_stranger_cannot_write_a_flag() {
    let mut portfolio = portfolio();
    assert_eq!(
        set_paused(&admins(), &STRANGER, &mut portfolio, true),
        Err(PortfolioError::Unauthorized)
    );
    assert_eq!(
        set_allow_deposit(&admins(), &STRANGER, &mut portfolio, false),
        Err(PortfolioError::Unauthorized)
    );
    assert_eq!(
        set_native_deposits_restricted(&admins(), &STRANGER, &mut portfolio, true),
        Err(PortfolioError::Unauthorized)
    );
    assert_eq!(portfolio.global_config, self::portfolio().global_config);
}

#[test]
fn the_gates_open_and_close_on_their_own_condition() {
    assert_eq!(require_admin(&admins(), &ADMIN), Ok(()));
    assert_eq!(require_admin(&admins(), &STRANGER), Err(PortfolioError::Unauthorized));
    let mut banned = Records::new();
    assert_eq!(require_not_banned(&banned, &OTHER), Ok(()));
    banned.insert(OTHER, BannedAccount { reason: BanReason::NotBanned });
    assert_eq!(require_not_banned(&banned, &OTHER), Err(PortfolioError::AccountBanned));
    assert_eq!(require_not_banned(&banned, &ADMIN), Ok(()));
    let mut config = portfolio().global_config;
    assert_eq!(require_running(&config), Ok(()));
    assert_eq!(require_paused(&config), Err(PortfolioError::ProgramNotPaused));
    assert_eq!(require_deposits_allowed(&config), Ok(()));
    config.program_paused = true;
    config.allow_deposit = false;
    assert_eq!(require_running(&config), Err(PortfolioError::ProgramPaused));
    assert_eq!(require_paused(&config), Ok(()));
    assert_eq!(require_deposits_allowed(&config), Err(PortfolioError::DepositsPaused));
}

#[test]
fn every_failure_has_its_text() {
    assert_eq!(PortfolioError::Unauthorized.message(), "Signer not authorized.");
    assert_eq!(PortfolioError::AccountsNotProvided.message(), "Accounts not provided.");
    assert_eq!(PortfolioError::PageFull.message(), "Account page is full.");
    assert_eq!(PortfolioError::DepositsPaused.message(), "P-NTDP-01");
    assert_eq!(PortfolioError::AccountBanned.message(), "P-BANA-01");
    assert_eq!(PortfolioError::ProgramPaused.message(), "Portofolio is paused.");
    assert_eq!(PortfolioError::ProgramNotPaused.message(), "Portfolio must be paused.");
    assert_eq!(PortfolioError::UnsupportedTransaction.message(), "P-PTNS-02");
    assert_eq!(PortfolioError::ZeroTokenQuantity.message(), "P-ZETD-01");
    assert_eq!(PortfolioError::LzQuoteError.message(), "LZ-QUOTE-ERROR");
    assert_eq!(BannedAccountsError::AccountAlreadyBanned.message(), "Account is already banned.");
    assert_eq!(BannedAccountsError::AccountNotBanned.message(), "Account is not banned.");
    assert_eq!(TokenListError::TokenAlreadyAdded.message(), "Token is already added.");
    assert_eq!(TokenListError::TokenNotFound.message(), "Token is not found.");
    assert_eq!(TokenListError::TokenListFull.message(), "TokenList is full.");
    assert_eq!(
        TokenListError::InvalidNativeToken.message(),
        "Only SOL can be added as native token."
    );
    assert_eq!(DepositError::NotEnoughSplTokenBalance.message(), "P-NETD-01");
    assert_eq!(DepositError::NotEnoughNativeBalance.message(), "Not enough SOL balance.");
    assert_eq!(DepositError::InvalidVaultOwner.message(), "Invalid vault owner.");
    assert_eq!(DepositError::TokenNotSupported.message(), "Token not supported.");
    assert_eq!(DepositError::TokenNotFound.message(), "Token not found.");
    assert_eq!(DepositError::InvalidMint.message(), "Invalid mint.");
    assert_eq!(DepositError::InvalidTokenOwner.message(), "P-OODT-01");
    assert_eq!(DepositError::InvalidDestinationOwner.message(), "Invalid destination owner.");
    assert_eq!(DepositError::NativeDepositNotAllowed.message(), "P-NDNS-01");
    assert_eq!(DepositError::BannedAccount.message(), "Banned account.");
    assert_eq!(
        WithdrawError::NotEnoughNativeBalance.message(),
        "Program does not have enough balance."
    );
    assert_eq!(WithdrawError::InvalidTokenSymbol.message(), "Invalid token symbol.");
    assert_eq!(CodecError::BadLength.message(), "XFER frame is not 128 bytes long.");
    assert_eq!(CodecError::BadTag.message(), "XFER frame names an unknown variant.");
    assert_eq!(RemoteError::AlreadyRegistered.message(), "Remote is already registered.");
    assert_eq!(RemoteError::NotRegistered.message(), "Remote is not registered.");
    assert_eq!(
        BridgeError::Portfolio(PortfolioError::Unauthorized).message(),
        "Signer not authorized."
    );
    assert_eq!(
        BridgeError::TokenList(TokenListError::TokenListFull).message(),
        "TokenList is full."
    );
    assert_eq!(
        BridgeError::Codec(CodecError::BadTag).message(),
        "XFER frame names an unknown variant."
    );
    assert_eq!(
        BridgeError::Remote(RemoteError::NotRegistered).message(),
        "Remote is not registered."
    );
}
