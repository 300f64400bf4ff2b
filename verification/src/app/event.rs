//! Results that come back into the application loop.

use vstd::prelude::*;

use crate::app::guards::SignalTarget;
use crate::app::input::KeyPress;
use crate::error::AppError;
use crate::model::inspect::FilePreview;
use crate::model::inspect::ProcessDetails;
use crate::model::log::LogEntry;
use crate::model::log::LogPreset;
use crate::model::service::ServiceActionKind;
use crate::model::service::ServiceInfo;
use crate::model::storage::StorageProgress;
use crate::model::storage::StorageTree;
use crate::model::metrics::DiskUsage;
use crate::model::diagnostics::Finding;
use crate::model::diagnostics::HealthStatus;

verus! {

/// Session-local freshness identity for replaceable asynchronous work.
#[derive(Debug, Clone, Copy, PartialEq, Eq, Hash, Structural)]
pub struct RequestId(pub u64);

impl RequestId {
    pub fn new(value: u64) -> (r: Self)
        ensures
            r.0 == value,
    {
        RequestId(value)
    }

    /// Whether a result tagged `other` answers this request.
    pub fn matches(self, other: RequestId) -> (b: bool)
        ensures
            b == (self.0 == other.0),
    {
        self.0 == other.0
    }
}

#[derive(Debug)]
pub struct DiagnosticOutcome {
    pub findings: Vec<Finding>,
    pub health: HealthStatus,
    pub report: String,
    pub probes_degraded: Vec<String>,
    pub smart_crc_observations: Vec<(String, u64)>,
}

#[derive(Debug, Clone)]
pub enum OperationResult {
    Success(String),
    Failure(AppError),
}

/// What enters the application loop: a key, a resize, or the result of
/// work the runtime did. Results carry the request they answer; a result
/// for a request that is no longer current is dropped.
#[derive(Debug)]
pub enum AppEvent {
    Tick,
    Input(KeyPress),
    Resize(u16, u16),
    /// The process list as the runtime orders and filters it.
    ProcessesUpdated(Vec<SignalTarget>),
    /// The mounted file systems, as the latest metrics sample lists them.
    DisksUpdated(Vec<DiskUsage>),
    ServicesUpdated(Vec<ServiceInfo>),
    LogsRefreshFinished {
        request_id: RequestId,
        unit: Option<String>,
        preset: LogPreset,
        result: Result<Vec<LogEntry>, AppError>,
    },
    LogsAppended { session_id: RequestId, entries: Vec<LogEntry> },
    StorageProgress { request_id: RequestId, progress: StorageProgress },
    StorageFinished { request_id: RequestId, result: Result<StorageTree, AppError> },
    DiagnosticsFinished { request_id: RequestId, result: Result<DiagnosticOutcome, AppError> },
    ProcessDetailsFinished { request_id: RequestId, pid: u32, result: Result<ProcessDetails, AppError> },
    ServiceDetailsFinished { request_id: RequestId, unit: String, result: Result<ServiceInfo, AppError> },
    FilePreviewFinished { request_id: RequestId, path: String, result: Result<FilePreview, AppError> },
    OperationFinished(OperationResult),
    /// Permission denial that may recover through an explicit sudo confirmation.
    ElevationRequired { unit: String, action: ServiceActionKind },
    ReportSaved(String),
    Error(AppError),
    Quit,
}

} // verus!
