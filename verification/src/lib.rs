//! Provider side of the KRunner search-plugin protocol.
//!
//! A plugin offers one interface with five remote operations, `Actions`,
//! `Match`, `Run`, `Config` and `Teardown`, which the host calls to obtain,
//! rank and activate results as the user types. This crate holds what such a
//! plugin computes: the data model ([`model`]), the identity of actions
//! ([`action`]), the encoding of replies into the containers of the bus
//! ([`wire`]) and the decisions of the dispatch engine ([`dispatch`]).
//! The connection to the bus is the embedding program's.
//!
//! Floating-point values pass through as their 64-bit patterns: the
//! relevance of a match is what `f64::to_bits` gives.
pub mod action;
pub mod confidence;
pub mod dispatch;
pub mod model;
pub mod nix;
pub mod sanity;
pub mod wire;

pub use action::{action_as_arg, Action, ActionInfo, ActionRecord};
pub use dispatch::{Fault, FaultKind, Method, Opaque, Plugin, Runner, INTERFACE};
pub use model::{
    Config, ImageData, ImageFormat, Match, MatchFilter, MatchIcon, MatchType, RemoteImage,
};
pub use wire::{DictEntry, MatchRecord, WireValue};
