//! Remote-control agent core for kiosk / digital-signage endpoints.
//!
//! The crate models the four cooperating pieces of the agent: a command
//! result algebra, an operation-mode state machine over competing display
//! services, a browser lifecycle supervisor, and a merge routine for the
//! browser's preferences document.  Commands arrive through [`rpc::Command`]
//! and every handler reports back through the result algebra.

pub mod config;
pub mod constants;
pub mod pacman;
pub mod rpc;
pub mod screenshot;
pub mod sysinfo;
pub mod systemctl;
pub mod try_from_io;
