//! Core logic of a tunnel-backed page-capture toolkit.
//!
//! The crate verifies the decision-making parts of the system: resolving
//! platform-specific download targets, planning idempotent archive fetches,
//! guarding archive extraction against entries that escape the target
//! directory, selecting pages and building capture records for the web
//! service, parsing numeric prompt input, and discovering the public tunnel
//! URL in a helper process's log output.  Network and filesystem side effects
//! are performed by a thin unverified shell that consumes the plans and
//! values produced here.

pub mod archive;
pub mod capture;
pub mod deps;
pub mod errors;
pub mod fetch;
pub mod menu;
pub mod paths;
pub mod platform;
pub mod text;
pub mod tunnel;
pub mod web;
