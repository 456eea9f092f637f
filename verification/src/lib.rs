//! A minimal desktop-application backend: a closed registry of four commands
//! (system information query, file-existence check, file read, file write)
//! exposed to a front-end shell by name. The registry and the system-info
//! report are pure and verified here; the file and environment calls
//! themselves happen in the surrounding application, which hands this
//! library plain strings and takes plain strings back.

pub mod commands;
pub mod sysinfo;
