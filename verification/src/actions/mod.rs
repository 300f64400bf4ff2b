//! Guards and argument building around administrative actions.

pub mod process;
pub mod trusted;
