//! What travels between the daemon and its clients.

pub mod event;
pub mod request;
pub mod vpn_state;
