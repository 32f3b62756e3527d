//! Locating, installing and launching the clangd language server for a
//! plugin host. The library decides; the host performs the file, network and
//! process work that each decision asks for and reports the outcome back.
//!
//! - `platform`: which hosts are served, and the archive and executable names for each.
//! - `config`: the host's options merged over the built-in defaults.
//! - `install`: install paths, archive names, download addresses and the
//!   entry-by-entry extraction plan.
//! - `session`: the initialization as a state machine from outcomes to actions.

use vstd::prelude::*;

pub mod config;
pub mod install;
pub mod platform;
pub mod session;

verus! {

} // verus!
