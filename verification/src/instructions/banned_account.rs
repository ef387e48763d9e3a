//! The ban list. An identity is banned while a record stands under it. Only
//! an admin may ban or lift a ban.
use vstd::prelude::*;
use crate::access::require_admin;
use crate::errors::PortfolioError;
use crate::events::BanStatusChangedEvent;
use crate::records::Records;
use crate::state::{Admin, BanReason, BannedAccount};

verus! {

/// Bans `account` for `reason`.
///
/// A caller that is no admin is refused with `Unauthorized`, and nothing
/// changes. For an admin the call succeeds: afterwards `account` is banned
/// for `reason`, and every other identity is what it was.
pub fn ban_account(
    admins: &Records<Admin>,
    caller: &[u8; 32],
    banned: &mut Records<BannedAccount>,
    account: [u8; 32],
    reason: BanReason,
) -> (result: Result<BanStatusChangedEvent, PortfolioError>)
    ensures
        result is Ok <==> admins@.contains_key(*caller),
        result is Err ==> result == Err::<BanStatusChangedEvent, PortfolioError>(
            PortfolioError::Unauthorized,
        ) && final(banned)@ == old(banned)@,
        result matches Ok(event) ==> {
            &&& final(banned)@ == old(banned)@.insert(account, BannedAccount { reason })
            &&& event.account == account
            &&& event.reason == reason
            &&& event.banned
        },
{
    require_admin(admins, caller)?;
    banned.insert(account, BannedAccount { reason });
    Ok(BanStatusChangedEvent { account, reason, banned: true })
}

/// Lifts the ban on `account`.
///
/// A caller that is no admin is refused with `Unauthorized`, and nothing
/// changes. For an admin the call succeeds: afterwards `account` is not
/// banned, and every other identity is what it was.
pub fn unban_account(
    admins: &Records<Admin>,
    caller: &[u8; 32],
    banned: &mut Records<BannedAccount>,
    account: [u8; 32],
) -> (result: Result<BanStatusChangedEvent, PortfolioError>)
    ensures
        result is Ok <==> admins@.contains_key(*caller),
        result is Err ==> result == Err::<BanStatusChangedEvent, PortfolioError>(
            PortfolioError::Unauthorized,
        ) && final(banned)@ == old(banned)@,
        result matches Ok(event) ==> {
            &&& final(banned)@ == old(banned)@.remove(account)
            &&& event.account == account
            &&& event.reason == BanReason::NotBanned
            &&& !event.banned
        },
{
    require_admin(admins, caller)?;
    banned.remove(&account);
    Ok(BanStatusChangedEvent { account, reason: BanReason::NotBanned, banned: false })
}

/// The reason for which `account` is banned; `NotBanned` where it is not.
pub fn ban_reason(banned: &Records<BannedAccount>, account: &[u8; 32]) -> (reason: BanReason)
    ensures
        reason == if banned@.contains_key(*account) {
            banned@[*account].reason
        } else {
            BanReason::NotBanned
        },
{
    match banned.get(account) {
        Some(record) => record.reason,
        None => BanReason::NotBanned,
    }
}

} // verus!
