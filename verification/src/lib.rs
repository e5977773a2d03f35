//! Read-only projection of a blockchain network's global consensus state.
//!
//! The library translates an internal, version-evolving system-state record
//! (the active validator set, staking economics and epoch parameters) into a
//! stable, wire-safe summary type, and provides the numeric encoding rule
//! that keeps 64-bit integers exact for clients whose native number type
//! cannot hold them.

pub mod codec;
pub mod handler;
pub mod state;
pub mod summary;
pub mod types;
pub mod views;
