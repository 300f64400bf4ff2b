//! Side effects requested by the reducer and performed by the runtime.

use vstd::prelude::*;

use crate::model::process::ProcessSignal;
use crate::model::service::ServiceActionKind;

verus! {

/// Format of a saved support report.
#[derive(Debug, Clone, Copy, PartialEq, Eq, Structural)]
pub enum SupportFormat {
    Text,
    Markdown,
    Json,
}

#[derive(Debug, Clone)]
pub enum SideEffect {
    RefreshMetrics,
    RefreshProcesses,
    RefreshServices,
    RefreshLogs { unit: Option<String> },
    RefreshDiagnostics,
    FetchServiceDetails { unit: String },
    FetchProcessDetails { pid: u32 },
    FetchPpidMap,
    /// Preview of the file at `path` (as text).
    PreviewFile { path: String },
    StartFollow { unit: Option<String> },
    StopFollow,
    /// Scan of the directory at `path` (as text).
    StartScan { path: String },
    CancelScan,
    SendSignal { pid: u32, signal: ProcessSignal, start_time: u64 },
    ServiceAction { unit: String, action: ServiceActionKind },
    /// After a permission failure: an explicit `sudo -n systemctl` retry.
    SudoServiceAction { unit: String, action: ServiceActionKind },
    CleanupReports,
    /// Write a report body off the reducer path (the runtime owns I/O).
    SaveReport { body: String, format: SupportFormat },
    /// Publish the latest configuration to the pollers.
    PublishConfig,
    /// Write the current configuration to its file; the runtime reports
    /// how that went.
    SaveConfig,
    /// Write the persisted state to its file.
    SavePersist,
}

} // verus!
