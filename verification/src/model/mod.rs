//! Data model shared by every screen and by the diagnostics.

pub mod diagnostics;
pub mod health;
pub mod inspect;
pub mod log;
pub mod metrics;
pub mod process;
pub mod process_tree;
pub mod screen;
pub mod service;
pub mod storage;
pub mod unit_registry;
