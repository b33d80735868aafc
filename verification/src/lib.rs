//! Lifecycle and health monitoring of the privileged helper service of a
//! desktop proxy client.
//!
//! The helper performs what needs elevated rights (above all the tunnel
//! interface) while the application runs unprivileged. This crate holds the
//! decisions: where the helper's executable is looked for, how its status
//! output is read, which step of an install, start or stop comes next, how
//! the connectivity flag moves, and what a privileged operation reports.
//!
//! Nothing here launches a process, sleeps or touches the configuration.
//! Where a procedure alternates decisions and outside work it is a machine:
//! it names the next thing to do, the caller does it and hands the outcome
//! back as a plain value.
//!
//! - [`service`]: the helper's status, its location, its control operations
//!   and the health-check loop.
//! - [`privilege`]: privileged operations, their manager and handler, and
//!   the service commands of the user interface.
//! - [`enhance`] and [`yaml`]: the tunnel section of the proxy core's
//!   configuration.
//! - [`clash`], [`deep_link`], [`svg`], [`widget`], [`utils`], [`setup`],
//!   [`event_handler`], [`text`]: what the rest of the application shares.

pub mod clash;
pub mod deep_link;
pub mod enhance;
pub mod event_handler;
pub mod privilege;
pub mod service;
pub mod setup;
pub mod svg;
pub mod text;
pub mod utils;
pub mod widget;
pub mod yaml;
