//! Helpers that do not belong to the service: errors, mirrors, stubs.

pub mod candy;
pub mod config;
pub mod dialog;
pub mod error;
pub mod platform;
