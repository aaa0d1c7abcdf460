//! Verified core of the OpenCode desktop shell: configuration file layout and
//! the flows that read, write and back up the configuration, the sidecar
//! server's launch description and start-up supervision, the bounded server
//! log, port selection, the table of open pseudo-terminals and the updater.

pub mod flows;
pub mod logs;
pub mod paths;
pub mod pathtext;
pub mod platform;
pub mod ports;
pub mod sidecar;
pub mod stamp;
pub mod pty;
pub mod supervisor;
pub mod text;
