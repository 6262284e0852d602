//! Configuration, credential protection and WebDAV synchronisation rules
//! for a small desktop countdown application.
//!
//! The library decides; the caller performs the file and network work.
pub mod cipher;
pub mod error;
pub mod config;
pub mod webdav;
pub mod sync;
pub mod paths;
