//! The global flags. Only an admin may write one.
use vstd::prelude::*;
use crate::access::require_admin;
use crate::errors::PortfolioError;
use crate::events::ParameterUpdatedEvent;
use crate::records::Records;
use crate::state::{Admin, GlobalConfig, Portfolio};

verus! {

/// A flag as the number that parameter events carry: 1 for set, 0 for clear.
pub open spec fn flag_value(flag: bool) -> u64 {
    if flag {
        1
    } else {
        0
    }
}

/// Tells whether `event` reports that the global flag `name` went from `old`
/// to `new`. Events on global flags name no pair: their pair is 32 zero bytes.
pub open spec fn reports_flag(event: ParameterUpdatedEvent, name: Seq<char>, old: bool, new: bool)
    -> bool {
    &&& forall|i: int| 0 <= i < 32 ==> event.pair[i] == 0
    &&& event.parameter@ == name
    &&& event.old_value == flag_value(old)
    &&& event.new_value == flag_value(new)
}

fn flag_event(name: &str, old: bool, new: bool) -> (event: ParameterUpdatedEvent)
    ensures
        reports_flag(event, name@, old, new),
{
    ParameterUpdatedEvent {
        pair: [0u8; 32],
        parameter: name.to_owned(),
        old_value: if old { 1 } else { 0 },
        new_value: if new { 1 } else { 0 },
    }
}

/// Switches deposits on or off.
///
/// A caller that is no admin is refused with `Unauthorized`, and nothing
/// changes. For an admin the call succeeds and changes this one flag.
pub fn set_allow_deposit(
    admins: &Records<Admin>,
    caller: &[u8; 32],
    portfolio: &mut Portfolio,
    allow_deposit: bool,
) -> (result: Result<ParameterUpdatedEvent, PortfolioError>)
    ensures
        result is Ok <==> admins@.contains_key(*caller),
        result is Err ==> result == Err::<ParameterUpdatedEvent, PortfolioError>(
            PortfolioError::Unauthorized,
        ) && *final(portfolio) == *old(portfolio),
        result matches Ok(event) ==> {
            &&& *final(portfolio) == (Portfolio {
                global_config: GlobalConfig { allow_deposit, ..old(portfolio).global_config },
                ..*old(portfolio)
            })
            &&& reports_flag(
                event,
                "P-ALLOWDEPOSIT"@,
                old(portfolio).global_config.allow_deposit,
                allow_deposit,
            )
        },
{
    require_admin(admins, caller)?;
    let before = portfolio.global_config.allow_deposit;
    portfolio.global_config.allow_deposit = allow_deposit;
    Ok(flag_event("P-ALLOWDEPOSIT", before, allow_deposit))
}

/// Pauses the program or lets it run again.
///
/// A caller that is no admin is refused with `Unauthorized`, and nothing
/// changes. For an admin the call succeeds and changes this one flag.
pub fn set_paused(
    admins: &Records<Admin>,
    caller: &[u8; 32],
    portfolio: &mut Portfolio,
    paused: bool,
) -> (result: Result<ParameterUpdatedEvent, PortfolioError>)
    ensures
        result is Ok <==> admins@.contains_key(*caller),
        result is Err ==> result == Err::<ParameterUpdatedEvent, PortfolioError>(
            PortfolioError::Unauthorized,
        ) && *final(portfolio) == *old(portfolio),
        result matches Ok(event) ==> {
            &&& *final(portfolio) == (Portfolio {
                global_config: GlobalConfig {
                    program_paused: paused,
                    ..old(portfolio).global_config
                },
                ..*old(portfolio)
            })
            &&& reports_flag(event, "P-PAUSED"@, old(portfolio).global_config.program_paused, paused)
        },
{
    require_admin(admins, caller)?;
    let before = portfolio.global_config.program_paused;
    portfolio.global_config.program_paused = paused;
    Ok(flag_event("P-PAUSED", before, paused))
}

/// Restricts deposits of the native currency, or lifts the restriction.
///
/// A caller that is no admin is refused with `Unauthorized`, and nothing
/// changes. For an admin the call succeeds and changes this one flag.
pub fn set_native_deposits_restricted(
    admins: &Records<Admin>,
    caller: &[u8; 32],
    portfolio: &mut Portfolio,
    native_deposits_restricted: bool,
) -> (result: Result<ParameterUpdatedEvent, PortfolioError>)
    ensures
        result is Ok <==> admins@.contains_key(*caller),
        result is Err ==> result == Err::<ParameterUpdatedEvent, PortfolioError>(
            PortfolioError::Unauthorized,
        ) && *final(portfolio) == *old(portfolio),
        result matches Ok(event) ==> {
            &&& *final(portfolio) == (Portfolio {
                global_config: GlobalConfig {
                    native_deposits_restricted,
                    ..old(portfolio).global_config
                },
                ..*old(portfolio)
            })
            &&& reports_flag(
                event,
                "P-NATIVEDEPOSITSRESTRICTED"@,
                old(portfolio).global_config.native_deposits_restricted,
                native_deposits_restricted,
            )
        },
{
    require_admin(admins, caller)?;
    let before = portfolio.global_config.native_deposits_restricted;
    portfolio.global_config.native_deposits_restricted = native_deposits_restricted;
    Ok(flag_event("P-NATIVEDEPOSITSRESTRICTED", before, native_deposits_restricted))
}

} // verus!
