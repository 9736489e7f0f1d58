//! The languages Hunter can mutate and their settings.
pub mod common;
pub mod noir;
pub mod solidity;
