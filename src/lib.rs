//! Verified core of a field-of-view zoom patch: signature scanning over a
//! module image, key-name handling for the settings record, and the
//! per-frame zoom state machine.

pub mod config;
pub mod input;
pub mod install;
pub mod keys;
pub mod overlay;
pub mod scan;
pub mod zoom;
