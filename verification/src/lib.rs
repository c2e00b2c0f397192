//! Verified core of a symbol-diff presentation layer.
//!
//! Two compiled build artifacts are compared symbol by symbol.  This crate
//! holds the part of that presentation worth proving: how a match-quality
//! score is classified, how a search query filters a symbol listing, in what
//! order a catalog of sections and symbols is traversed, and how user
//! interaction events drive the view-switching state machine.  Rendering is
//! left to an unverified front end that consumes the values produced here.

pub mod classify;
pub mod catalog;
pub mod model;
pub mod presenter;
pub mod search;
pub mod state;
