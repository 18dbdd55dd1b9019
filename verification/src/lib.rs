//! An auction engine for single non-fungible items, paid for in a native
//! currency or a fungible token.
//!
//! The engine is a state machine over an [`auctions::AuctionStore`]: creating
//! an auction, bidding, buying out, resolving and canceling each take the
//! store and the current block, and answer with the instructions that move
//! the item and the escrowed funds. Every operation either succeeds in full or
//! leaves the store as it was.

pub mod api;
pub mod asset;
pub mod auctions;
pub mod contract;
pub mod error;
pub mod execute;
pub mod laws;
pub mod model;
pub mod msg;
pub mod query;
pub mod response;
