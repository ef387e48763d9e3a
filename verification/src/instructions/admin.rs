//! Granting and revoking the admin capability. Only an admin may do either.
use vstd::prelude::*;
use crate::access::require_admin;
use crate::errors::PortfolioError;
use crate::events::{RoleGrantedEvent, RoleRevokedEvent};
use crate::records::Records;
use crate::state::Admin;

verus! {

/// The role that the admin events name: 32 zero bytes.
pub open spec fn admin_role(role: [u8; 32]) -> bool {
    forall|i: int| 0 <= i < 32 ==> role[i] == 0
}

/// Makes `account` an admin.
///
/// A caller that is no admin is refused with `Unauthorized`, and nothing
/// changes. For an admin the call succeeds: `account` is an admin
/// afterwards, whether or not it was one before, and every other identity
/// is what it was.
pub fn add_admin(admins: &mut Records<Admin>, caller: &[u8; 32], account: [u8; 32]) -> (result:
    Result<RoleGrantedEvent, PortfolioError>)
    ensures
        result is Ok <==> old(admins)@.contains_key(*caller),
        result is Err ==> result == Err::<RoleGrantedEvent, PortfolioError>(PortfolioError::Unauthorized)
            && final(admins)@ == old(admins)@,
        result matches Ok(event) ==> {
            &&& final(admins)@ == old(admins)@.insert(account, Admin {  })
            &&& event.admin == account
            &&& admin_role(event.role)
        },
{
    require_admin(admins, caller)?;
    admins.insert(account, Admin {  });
    Ok(RoleGrantedEvent { role: [0u8; 32], admin: account })
}

/// Takes the admin capability away from `account`.
///
/// A caller that is no admin is refused with `Unauthorized`, and nothing
/// changes. For an admin the call succeeds: `account` is no admin
/// afterwards, whether or not it was one before, and every other identity
/// is what it was.
pub fn remove_admin(admins: &mut Records<Admin>, caller: &[u8; 32], account: [u8; 32]) -> (result:
    Result<RoleRevokedEvent, PortfolioError>)
    ensures
        result is Ok <==> old(admins)@.contains_key(*caller),
        result is Err ==> result == Err::<RoleRevokedEvent, PortfolioError>(PortfolioError::Unauthorized)
            && final(admins)@ == old(admins)@,
        result matches Ok(event) ==> {
            &&& final(admins)@ == old(admins)@.remove(account)
            &&& event.admin == account
            &&& admin_role(event.role)
        },
{
    require_admin(admins, caller)?;
    admins.remove(&account);
    Ok(RoleRevokedEvent { role: [0u8; 32], admin: account })
}

} // verus!
