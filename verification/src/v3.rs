//! CVSS v3 metric types.

pub mod base;
pub mod env;
pub mod temporal;
