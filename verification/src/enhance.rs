//! Enhancements applied to the proxy core's configuration.

pub mod tun;
