//! Admission control and fee accounting for the message bridge between
//! Kusama and Polkadot.
//!
//! The crate decides three things. May a message leave Kusama: is its
//! sender the one account that is allowed to use the bridge? May a batch of
//! messages that was proved to come from Polkadot be dispatched: does every
//! lane in it belong to the lanes this bridge serves? And what does relaying
//! cost, once Polkadot's prices are turned into Kusama's currency?
//!
//! Proofs of Polkadot's state, the ledger of lanes and the dispatch of calls
//! are the business of the surrounding runtime. Where a decision needs one of
//! them, the function takes it as an argument.

pub mod bridge;
pub mod calls;
pub mod chains;
pub mod fee;
pub mod fixed;
pub mod inbound;
pub mod lane;
pub mod origin;
pub mod outbound;
pub mod parameters;
pub mod primitives;
