//! Core logic of a hub-and-spoke cross-chain lending spoke: account state,
//! risk arithmetic, the wire format of the messages exchanged with the hub,
//! and the decision logic of every instruction.

pub mod errors;
pub mod events;
pub mod instructions;
pub mod laws;
pub mod math;
pub mod pubkey;
pub mod state;
pub mod wormhole;
