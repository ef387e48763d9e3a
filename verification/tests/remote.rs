use portfolio_core::errors::{BridgeError, PortfolioError, RemoteError};
use portfolio_core::instructions::set_remote::{set_remote, RemoteRegistry, SetRemoteParams};
use portfolio_core::records::Records;
use portfolio_core::state::{Admin, Remote};

const ADMIN: [u8; 32] = [1u8; 32];
const STRANGER: [u8; 32] = [2u8; 32];
const A: [u8; 32] = [0xaa; 32];
const B: [u8; 32] = [0xbb; 32];

fn admins() -> Records<Admin> {
    let mut admins = Records::new();
    admins.insert(ADMIN, Admin {});
    admins
}

#[test]
fn an_empty_registry_resolves_nothing() {
    let remotes = RemoteRegistry::new();
    assert_eq!(remotes.resolve(5), Err(RemoteError::NotRegistered));
    assert_eq!(remotes.resolve(0), Err(RemoteError::NotRegistered));
}

#[test]
fn a_remote_is_registered_once_and_for_all() {
    let mut remotes = RemoteRegistry::new();
    let first = SetRemoteParams { dst_eid: 5, remote: A };
    assert_eq!(set_remote(&admins(), &ADMIN, &mut remotes, &first, 250), Ok(()));
    assert_eq!(remotes.resolve(5), Ok(A));
    let second = SetRemoteParams { dst_eid: 5, remote: B };
    assert_eq!(
        set_remote(&admins(), &ADMIN, &mut remotes, &second, 251),
        Err(BridgeError::Remote(RemoteError::AlreadyRegistered))
    );
    assert_eq!(remotes.resolve(5), Ok(A));
    assert_eq!(
        set_remote(&admins(), &ADMIN, &mut remotes, &first, 250),
        Err(BridgeError::Remote(RemoteError::AlreadyRegistered))
    );
    assert_eq!(remotes.resolve(5), Ok(A));
}

#[test]
fn chains_have_remotes_of_their_own() {
    let mut remotes = RemoteRegistry::new();
    let five = SetRemoteParams { dst_eid: 5, remote: A };
    let six = SetRemoteParams { dst_eid: 6, remote: B };
    assert_eq!(set_remote(&admins(), &ADMIN, &mut remotes, &five, 1), Ok(()));
    assert_eq!(remotes.resolve(6), Err(RemoteError::NotRegistered));
    assert_eq!(set_remote(&admins(), &ADMIN, &mut remotes, &six, 2), Ok(()));
    assert_eq!(remotes.resolve(5), Ok(A));
    assert_eq!(remotes.resolve(6), Ok(B));
}

#[test]
fn a_stranger_cannot_register_a_remote() {
    let mut remotes = RemoteRegistry::new();
    let params = SetRemoteParams { dst_eid: 5, remote: A };
    assert_eq!(
        set_remote(&admins(), &STRANGER, &mut remotes, &params, 1),
        Err(BridgeError::Portfolio(PortfolioError::Unauthorized))
    );
    assert_eq!(remotes.resolve(5), Err(RemoteError::NotRegistered));
    set_remote(&admins(), &ADMIN, &mut remotes, &params, 1).unwrap();
    assert_eq!(
        set_remote(&admins(), &STRANGER, &mut remotes, &params, 1),
        Err(BridgeError::Portfolio(PortfolioError::Unauthorized))
    );
}

#[test]
fn register_keeps_the_first_remote() {
    let mut remotes = RemoteRegistry::new();
    assert_eq!(remotes.register(9, Remote { address: A, bump: 3 }), Ok(()));
    assert_eq!(
        remotes.register(9, Remote { address: B, bump: 4 }),
        Err(RemoteError::AlreadyRegistered)
    );
    assert_eq!(remotes.resolve(9), Ok(A));
}
