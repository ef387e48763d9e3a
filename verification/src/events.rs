//! Audit events. An operation that succeeds hands its event back to the
//! caller, who publishes it. Events are for observers: no decision of the
//! core depends on one.
use vstd::prelude::*;
use crate::state::BanReason;
use crate::xfer::Tx;

verus! {

/// An identity was banned, or a ban was lifted.
#[derive(Clone, Copy, Debug, PartialEq, Eq)]
pub struct BanStatusChangedEvent {
    pub account: [u8; 32],
    pub reason: BanReason,
    pub banned: bool,
}

/// An identity was given the admin capability.
#[derive(Clone, Copy, Debug, PartialEq, Eq)]
pub struct RoleGrantedEvent {
    pub role: [u8; 32],
    pub admin: [u8; 32],
}

/// An identity lost the admin capability.
#[derive(Clone, Copy, Debug, PartialEq, Eq)]
pub struct RoleRevokedEvent {
    pub role: [u8; 32],
    pub admin: [u8; 32],
}

/// A balance of the portfolio changed.
#[derive(Clone, Copy, Debug, PartialEq, Eq)]
pub struct PortfolioUpdatedEvent {
    pub transaction: Tx,
    pub wallet: [u8; 32],
    pub symbol: [u8; 32],
    pub quantity: u64,
    pub fee_charged: u64,
    pub total: u64,
    pub available: u64,
    pub wallet_other: [u8; 32],
}

/// A parameter of the program changed from `old_value` to `new_value`.
#[derive(Clone, Debug, PartialEq, Eq)]
pub struct ParameterUpdatedEvent {
    pub pair: [u8; 32],
    pub parameter: String,
    pub old_value: u64,
    pub new_value: u64,
}

} // verus!
