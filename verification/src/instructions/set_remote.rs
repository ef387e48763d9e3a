//! The registry of remotes: for each destination chain, the address of the
//! endpoint there. A remote is created once and never changed or removed.
use std::collections::HashMap;
use vstd::prelude::*;
use crate::access::require_admin;
use crate::errors::{BridgeError, PortfolioError, RemoteError};
use crate::records::Records;
use crate::state::{Admin, Remote};

verus! {

/// What registering a remote takes.
#[derive(Clone, Copy, Debug)]
pub struct SetRemoteParams {
    /// The destination chain.
    pub dst_eid: u32,
    /// The address of the endpoint on that chain.
    pub remote: [u8; 32],
}

/// The remotes by chain id.
///
/// Its view is the map from the chain ids in use to their remotes. The
/// registry offers no way to change or remove an entry.
pub struct RemoteRegistry {
    by_chain: HashMap<u32, Remote>,
}

impl View for RemoteRegistry {
    type V = Map<u32, Remote>;

    closed spec fn view(&self) -> Map<u32, Remote> {
        self.by_chain@
    }
}

impl RemoteRegistry {
    /// A registry without any remote.
    pub fn new() -> (registry: RemoteRegistry)
        ensures
            registry@ == Map::<u32, Remote>::empty(),
    {
        RemoteRegistry { by_chain: HashMap::new() }
    }

    /// The address of the endpoint on chain `dst_eid`, or `NotRegistered`
    /// where the chain has no remote.
    pub fn resolve(&self, dst_eid: u32) -> (address: Result<[u8; 32], RemoteError>)
        ensures
            address == if self@.contains_key(dst_eid) {
                Ok::<[u8; 32], RemoteError>(self@[dst_eid].address)
            } else {
                Err::<[u8; 32], RemoteError>(RemoteError::NotRegistered)
            },
    {
        match self.by_chain.get(&dst_eid) {
            Some(remote) => Ok(remote.address),
            None => Err(RemoteError::NotRegistered),
        }
    }

    /// Creates the remote of chain `dst_eid`, or fails with
    /// `AlreadyRegistered` and changes nothing where the chain has one.
    pub fn register(&mut self, dst_eid: u32, remote: Remote) -> (result: Result<(), RemoteError>)
        ensures
            result == register_outcome(old(self)@, dst_eid, remote).0,
            final(self)@ == register_outcome(old(self)@, dst_eid, remote).1,
    {
        if self.by_chain.contains_key(&dst_eid) {
            return Err(RemoteError::AlreadyRegistered);
        }
        self.by_chain.insert(dst_eid, remote);
        Ok(())
    }
}

/// What registering `remote` for chain `dst_eid` answers, and the registry
/// afterwards.
pub open spec fn register_outcome(registry: Map<u32, Remote>, dst_eid: u32, remote: Remote) -> (
    Result<(), RemoteError>,
    Map<u32, Remote>,
) {
    if registry.contains_key(dst_eid) {
        (Err(RemoteError::AlreadyRegistered), registry)
    } else {
        (Ok(()), registry.insert(dst_eid, remote))
    }
}

/// What `set_remote` answers, and the registry afterwards: a caller that is
/// no admin is refused; an admin gets what registering gives.
pub open spec fn set_remote_outcome(
    admins: Map<[u8; 32], Admin>,
    caller: [u8; 32],
    registry: Map<u32, Remote>,
    params: SetRemoteParams,
    bump: u8,
) -> (Result<(), BridgeError>, Map<u32, Remote>) {
    if !admins.contains_key(caller) {
        (Err(BridgeError::Portfolio(PortfolioError::Unauthorized)), registry)
    } else {
        match register_outcome(
            registry,
            params.dst_eid,
            Remote { address: params.remote, bump },
        ).0 {
            Ok(()) => (
                Ok(()),
                registry.insert(params.dst_eid, Remote { address: params.remote, bump }),
            ),
            Err(e) => (Err(BridgeError::Remote(e)), registry),
        }
    }
}

/// Registers the remote of a destination chain.
///
/// A caller that is no admin is refused with `Unauthorized`. A chain that
/// has a remote keeps it: the call fails with `AlreadyRegistered`. In both
/// cases nothing changes. Otherwise the remote is created with the address
/// given and the marker `bump`.
pub fn set_remote(
    admins: &Records<Admin>,
    caller: &[u8; 32],
    remotes: &mut RemoteRegistry,
    params: &SetRemoteParams,
    bump: u8,
) -> (result: Result<(), BridgeError>)
    ensures
        result == set_remote_outcome(admins@, *caller, old(remotes)@, *params, bump).0,
        final(remotes)@ == set_remote_outcome(admins@, *caller, old(remotes)@, *params, bump).1,
        !admins@.contains_key(*caller) <==> result == Err::<(), BridgeError>(
            BridgeError::Portfolio(PortfolioError::Unauthorized),
        ),
        admins@.contains_key(*caller) && old(remotes)@.contains_key(params.dst_eid) <==> result
            == Err::<(), BridgeError>(BridgeError::Remote(RemoteError::AlreadyRegistered)),
        result is Err ==> final(remotes)@ == old(remotes)@,
        result is Ok ==> final(remotes)@ == old(remotes)@.insert(
            params.dst_eid,
            Remote { address: params.remote, bump },
        ),
{
    match require_admin(admins, caller) {
        Ok(()) => {},
        Err(e) => {
            return Err(BridgeError::Portfolio(e));
        },
    }
    match remotes.register(params.dst_eid, Remote { address: params.remote, bump }) {
        Ok(()) => Ok(()),
        Err(e) => Err(BridgeError::Remote(e)),
    }
}

/// A remote never changes: once a chain has a remote, registering the chain
/// again fails with `AlreadyRegistered`, whatever address is offered, and
/// the chain resolves to the first address as before.
pub proof fn lemma_remote_is_permanent(
    registry: Map<u32, Remote>,
    dst_eid: u32,
    first: Remote,
    second: Remote,
)
    requires
        register_outcome(registry, dst_eid, first).0 is Ok,
    ensures
        ({
            let once = register_outcome(registry, dst_eid, first).1;
            let twice = register_outcome(once, dst_eid, second);
            &&& once[dst_eid] == first
            &&& twice.0 == Err::<(), RemoteError>(RemoteError::AlreadyRegistered)
            &&& twice.1 == once
            &&& twice.1[dst_eid] == first
        }),
{
}

} // verus!
