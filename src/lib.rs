//! Status dashboard and control core for a containerised game server:
//! restart throttling, credential checks, container lookup, backup
//! cataloguing, restore sequencing and page assembly.

pub mod text;
pub mod throttle;
pub mod error;
pub mod docker;
pub mod auth;
pub mod valve;
pub mod catalog;
pub mod control;
pub mod page;
pub mod assets;
