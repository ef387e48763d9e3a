//! The gates at the entry of the operations. Each gate looks at one thing:
//! the caller's role, the caller's standing, or one global flag. An
//! operation passes the gates it needs, in a fixed order, before it reads or
//! changes anything else.
use vstd::prelude::*;
use crate::errors::PortfolioError;
use crate::records::Records;
use crate::state::{Admin, BannedAccount, GlobalConfig};

verus! {

/// What a gate answers: passage where `open` holds, `refusal` where not.
pub open spec fn gate(open: bool, refusal: PortfolioError) -> Result<(), PortfolioError> {
    if open {
        Ok(())
    } else {
        Err(refusal)
    }
}

/// Lets admins pass; refuses every other caller with `Unauthorized`.
pub fn require_admin(admins: &Records<Admin>, caller: &[u8; 32]) -> (passage: Result<
    (),
    PortfolioError,
>)
    ensures
        passage == gate(admins@.contains_key(*caller), PortfolioError::Unauthorized),
{
    if admins.contains(caller) {
        Ok(())
    } else {
        Err(PortfolioError::Unauthorized)
    }
}

/// Refuses a banned caller with `AccountBanned`, whatever its role; lets
/// every other caller pass.
pub fn require_not_banned(banned: &Records<BannedAccount>, caller: &[u8; 32]) -> (passage: Result<
    (),
    PortfolioError,
>)
    ensures
        passage == gate(!banned@.contains_key(*caller), PortfolioError::AccountBanned),
{
    if banned.contains(caller) {
        Err(PortfolioError::AccountBanned)
    } else {
        Ok(())
    }
}

/// Lets pass while the program runs; refuses with `ProgramPaused` while it
/// is paused.
pub fn require_running(global_config: &GlobalConfig) -> (passage: Result<(), PortfolioError>)
    ensures
        passage == gate(!global_config.program_paused, PortfolioError::ProgramPaused),
{
    if global_config.program_paused {
        Err(PortfolioError::ProgramPaused)
    } else {
        Ok(())
    }
}

/// Lets pass while the program is paused; refuses with `ProgramNotPaused`
/// while it runs. Operations that destroy something stand behind this gate.
pub fn require_paused(global_config: &GlobalConfig) -> (passage: Result<(), PortfolioError>)
    ensures
        passage == gate(global_config.program_paused, PortfolioError::ProgramNotPaused),
{
    if global_config.program_paused {
        Ok(())
    } else {
        Err(PortfolioError::ProgramNotPaused)
    }
}

/// Lets pass while deposits are allowed; refuses with `DepositsPaused` while
/// they are switched off.
pub fn require_deposits_allowed(global_config: &GlobalConfig) -> (passage: Result<
    (),
    PortfolioError,
>)
    ensures
        passage == gate(global_config.allow_deposit, PortfolioError::DepositsPaused),
{
    if global_config.allow_deposit {
        Ok(())
    } else {
        Err(PortfolioError::DepositsPaused)
    }
}

} // verus!
