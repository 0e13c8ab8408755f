//! Client-side protocol layer for the Tendermint validator app on a Ledger
//! device: command framing, message chunking, packet sequencing and
//! validation of the device's replies.

pub mod apdu;
pub mod chunks;
pub mod error;
pub mod path;
pub mod protocol;
pub mod session;
pub mod signer;
pub mod validate;
