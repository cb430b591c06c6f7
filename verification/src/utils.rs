//! Pieces that several parts of the service share.

pub mod crypto;
pub mod lock_file;
pub mod pid_text;
