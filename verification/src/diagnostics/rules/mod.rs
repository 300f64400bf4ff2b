//! Pure diagnostic rule modules. No file system, D-Bus, commands or network.

pub mod boot;
pub mod clock;
pub mod common;
pub mod coredumps;
pub mod etc_meta;
pub mod failed_services;
pub mod journal;
pub mod oom;
pub mod pstore;
pub mod smart;
