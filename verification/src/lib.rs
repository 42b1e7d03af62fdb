//! Game-client configuration and plugin-registration planning.
//!
//! The client itself is a thin shell around a game engine: it parses two
//! command-line flags into a [`oacli::ClientConfig`], decides from that
//! configuration which engine plugins to register and in what order, and
//! hands the resulting plan to the engine's run loop.  The decision logic
//! lives here, verified; the process edges (argument parsing, logging,
//! the engine itself) live outside the library.

pub mod oacli;
pub mod oagame;
pub mod oainit;
pub mod oastatic;
