//! Diagnostics: pure rules over a snapshot, the evaluator and the reports.

pub mod evaluator;
pub mod report;
pub mod rules;
