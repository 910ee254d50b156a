//! Peer-to-peer atomic swap market: the order lifecycle and its two-phase
//! settlement, stated and proved with Verus.

pub mod state;
pub mod error;
pub mod utils;
pub mod store;
pub mod msg;
pub mod contract;
pub mod laws;
