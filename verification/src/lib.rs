//! Orchestration core for driving configuration tasks across a fleet of
//! identities grouped into devices.
//!
//! The crate holds the decisions: the registry of identities and devices,
//! the run-once protocol, the planning and folding of file transfers, the
//! choice of the identity that acts for a package manager. Transport,
//! storage and scripting stay with the caller, which performs the requests
//! handed out here and reports their outcomes back.

pub mod arg;
pub mod assoc;
pub mod dv;
pub mod error;
pub mod multi;
pub mod text;
pub mod util;
pub mod value;
