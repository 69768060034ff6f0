//! Host side of the DBI title-installation protocol: wire codec, file
//! registry, transfer progress and the command/response state machine.

pub mod buffer;
pub mod file_manager;
pub mod laws;
pub mod listing;
pub mod model;
pub mod progress;
pub mod protocol;
pub mod range;
pub mod registry;
pub mod server;
pub mod transport;
