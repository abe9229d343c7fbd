//! Core of a remote-desktop agent: capture pacing, encoding policy,
//! connection and session bookkeeping, and the helpers around them.

use vstd::prelude::*;

pub mod agent;
pub mod capture;
pub mod config;
pub mod encoder;
pub mod error;
pub mod input;
pub mod logging;
pub mod session;
pub mod text;
pub mod transport;
pub mod types;
pub mod utils;

verus! {

/// Crate version.
pub const VERSION: &'static str = "1.0.0";

/// Crate name.
pub const NAME: &'static str = "agent";

} // verus!
