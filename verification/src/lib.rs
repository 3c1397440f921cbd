//! Desk Switch: the protocol, configuration, discovery and role logic of a
//! two-machine KVM switch, with their contracts proved by Verus.

pub mod framing;
pub mod numparse;
pub mod text;
pub mod protocol;
pub mod identity;
pub mod config;
pub mod ipv4;
pub mod discovery;
pub mod session;
pub mod service;
pub mod input;
pub mod imaging;
pub mod logbuf;
pub mod capture;
pub mod platform;
pub mod virtual_display;
pub mod presentation;
