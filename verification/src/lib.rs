//! The core of a minimal SSH daemon that runs one configured command in a PTY.
pub mod config;
pub mod hostkey;
pub mod lines;
pub mod logging;
pub mod net;
pub mod platform;
pub mod pty;
pub mod pump;
pub mod server;
pub mod session;
pub mod shutdown;
pub mod supervise;
pub mod text;
pub mod transfer;
