//! Control core of a cross-chain asset-transfer bridge: the transfer-message
//! wire codec, the registry of remote endpoints, access control and
//! compliance, the paged token allow-list, and the construction of the calls
//! made to the messaging gateway.
//!
//! The core holds no ambient state. Every operation takes the records it
//! reads or changes as arguments and hands back what the host has to carry
//! out: an audit event to publish, or a gateway call to dispatch.
//!
//! Two things are taken on trust: that `sha2` computes SHA-256, which the
//! contracts only name, and that `hex` decodes hexadecimal text as its
//! documentation says. Everything else is proved.
pub mod access;
pub mod bytes;
pub mod consts;
pub mod cpi_utils;
pub mod errors;
pub mod events;
pub mod instructions;
pub mod options;
pub mod records;
pub mod seeds;
pub mod state;
pub mod xfer;
