//! The application state the reducer works on: the screen, focus, dialog
//! and search, one substate per screen, the configuration and the persisted
//! state. Figures that need floating point (CPU, memory, sensors) stay with
//! the runtime; it hands the process list in as rows already ordered.

use vstd::prelude::*;

use crate::app::action::FocusPane;
use crate::app::event::RequestId;
use crate::app::guards::SignalTarget;
use crate::app::state::Dialog;
use crate::app::state::SearchQueries;
use crate::app::substates::ScanState;
use crate::app::substates::SettingsState;
use crate::config::Config;
use crate::error::AppError;
use crate::model::diagnostics::HealthStatus;
use crate::model::health::SubsystemHealth;
use crate::model::health::SubsystemHealthMap;
use crate::model::inspect::FilePreview;
use crate::model::storage::StorageProgress;
use crate::model::diagnostics::Finding;
use crate::model::log::LogBuffer;
use crate::model::log::LogEntry;
use crate::model::log::LogPreset;
use crate::model::log::LogPriority;
use crate::model::process::ProcessSort;
use crate::model::screen::Screen;
use crate::model::service::ServiceFilter;
use crate::model::service::ServiceInfo;
use crate::model::storage::StorageSort;
use crate::model::storage::StorageTab;
use crate::model::storage::StorageTree;
use crate::model::storage::StorageNode;
use crate::model::metrics::DiskUsage;
use crate::model::inspect::ProcessDetails;
use crate::persist::AppPersistState;
use crate::profile::PerformanceProfile;
use crate::profile::TerminalProfile;

verus! {

/// The kind of a status-line message.
#[derive(Debug, Clone, Copy, PartialEq, Eq, Structural)]
pub enum ToastKind {
    Info,
    Success,
    Warning,
    Error,
    Progress,
}

/// The status line: one message and its kind.
#[derive(Debug, Clone)]
pub struct Toast {
    pub kind: ToastKind,
    pub message: String,
}

/// The process list as shown: one row per visible process, in display order.
#[derive(Debug)]
pub struct ProcessState {
    pub rows: Vec<SignalTarget>,
    pub sort: ProcessSort,
    pub selected: usize,
    pub selected_pid: Option<u32>,
    pub follow_pid: Option<u32>,
    pub tree_mode: bool,
    pub show_full_cmd: bool,
    /// The systemd unit of the process whose details were last loaded.
    pub details_unit: Option<String>,
    /// The details request in flight: its request and process.
    pub details_request: Option<(RequestId, u32)>,
    /// The details last loaded.
    pub details: Option<ProcessDetails>,
}

impl ProcessState {
    pub fn new() -> (s: Self)
        ensures
            s.rows@.len() == 0,
            s.sort == ProcessSort::Cpu,
            s.selected == 0,
            s.selected_pid is None,
            s.follow_pid is None,
            !s.tree_mode,
            !s.show_full_cmd,
            s.details_unit is None,
            s.details_request is None,
            s.details is None,
    {
        ProcessState {
            rows: Vec::new(),
            sort: ProcessSort::Cpu,
            selected: 0,
            selected_pid: None,
            follow_pid: None,
            tree_mode: false,
            show_full_cmd: false,
            details_unit: None,
            details_request: None,
            details: None,
        }
    }
}

#[derive(Debug)]
pub struct ServiceState {
    pub items: Vec<ServiceInfo>,
    pub filter: ServiceFilter,
    pub selected: usize,
    pub selected_unit: Option<String>,
    pub failed_only: bool,
    pub recent_logs: Vec<LogEntry>,
    pub pending_inspect: bool,
    /// The details load in flight: its request and unit.
    pub details_request: Option<(RequestId, String)>,
}

impl ServiceState {
    pub fn new() -> (s: Self)
        ensures
            s.items@.len() == 0,
            s.filter == ServiceFilter::All,
            s.selected == 0,
            s.selected_unit is None,
            !s.failed_only,
            s.recent_logs@.len() == 0,
            !s.pending_inspect,
            s.details_request is None,
    {
        ServiceState {
            items: Vec::new(),
            filter: ServiceFilter::All,
            selected: 0,
            selected_unit: None,
            failed_only: false,
            recent_logs: Vec::new(),
            pending_inspect: false,
            details_request: None,
        }
    }
}

#[derive(Debug)]
pub struct LogState {
    pub buffer: LogBuffer,
    pub unit: Option<String>,
    pub follow: bool,
    pub wrap: bool,
    pub min_priority: LogPriority,
    pub selected: usize,
    pub match_idx: Option<usize>,
    pub preset: LogPreset,
    /// The refresh in flight: its request, unit and preset.
    pub refresh_request: Option<(RequestId, Option<String>, LogPreset)>,
    /// The follow session whose entries are taken.
    pub follow_session: Option<RequestId>,
}

impl LogState {
    /// An empty log view keeping up to `capacity` entries.
    pub fn new(capacity: usize) -> (s: Self)
        ensures
            s.buffer.contents().len() == 0,
            s.buffer.cap() == if capacity == 0 {
                1
            } else {
                capacity as nat
            },
            s.unit is None,
            !s.follow,
            !s.wrap,
            s.min_priority == LogPriority::Debug,
            s.selected == 0,
            s.match_idx is None,
            s.preset == LogPreset::Important,
            s.refresh_request is None,
            s.follow_session is None,
    {
        LogState {
            buffer: LogBuffer::new(capacity),
            unit: None,
            follow: false,
            wrap: false,
            min_priority: LogPriority::Debug,
            selected: 0,
            match_idx: None,
            preset: LogPreset::Important,
            refresh_request: None,
            follow_session: None,
        }
    }
}

#[derive(Debug)]
pub struct StorageState {
    pub scan_path: String,
    pub scan_state: ScanState,
    pub tree: Option<StorageTree>,
    pub cwd: Vec<String>,
    pub tab: StorageTab,
    pub sort: StorageSort,
    pub use_apparent: bool,
    pub stay_on_fs: bool,
    pub selected: usize,
    /// The mounted file systems the mounts tab lists.
    pub disks: Vec<DiskUsage>,
    pub scan_request: Option<RequestId>,
    pub scan_progress: Option<StorageProgress>,
    pub file_preview: Option<FilePreview>,
    /// The preview in flight: its request and path.
    pub preview_request: Option<(RequestId, String)>,
}

impl StorageState {
    pub fn new(scan_path: String, stay_on_fs: bool) -> (s: Self)
        ensures
            s.scan_path == scan_path,
            s.scan_state == ScanState::Idle,
            s.tree is None,
            s.cwd@.len() == 0,
            s.tab == StorageTab::Mounts,
            s.sort == StorageSort::Size,
            !s.use_apparent,
            s.stay_on_fs == stay_on_fs,
            s.selected == 0,
            s.disks@.len() == 0,
            s.scan_request is None,
            s.scan_progress is None,
            s.file_preview is None,
            s.preview_request is None,
    {
        StorageState {
            scan_path,
            scan_state: ScanState::Idle,
            tree: None,
            cwd: Vec::new(),
            tab: StorageTab::Mounts,
            sort: StorageSort::Size,
            use_apparent: false,
            stay_on_fs,
            selected: 0,
            disks: Vec::new(),
            scan_request: None,
            scan_progress: None,
            file_preview: None,
            preview_request: None,
        }
    }
}

#[derive(Debug)]
pub struct DiagnosticState {
    pub findings: Vec<Finding>,
    pub selected: usize,
    pub deep: bool,
    pub running: bool,
    pub report: Option<String>,
    pub request: Option<RequestId>,
}

impl DiagnosticState {
    pub fn new() -> (s: Self)
        ensures
            s.findings@.len() == 0,
            s.selected == 0,
            !s.deep,
            !s.running,
            s.report is None,
            s.request is None,
    {
        DiagnosticState {
            findings: Vec::new(),
            selected: 0,
            deep: false,
            running: false,
            report: None,
            request: None,
        }
    }
}

/// Everything the reducer reads and changes.
#[derive(Debug)]
pub struct AppState {
    pub screen: Screen,
    pub focus: FocusPane,
    pub config: Config,
    pub demo: bool,
    pub read_only: bool,
    pub color: bool,
    pub should_quit: bool,
    pub dialog: Option<Dialog>,
    pub searching: bool,
    pub search: SearchQueries,
    pub process: ProcessState,
    pub service: ServiceState,
    pub log: LogState,
    pub storage: StorageState,
    pub diagnostic: DiagnosticState,
    pub settings: SettingsState,
    pub persist: AppPersistState,
    pub glossary_selected: usize,
    pub toast: Option<Toast>,
    pub terminal_profile: TerminalProfile,
    pub performance_profile: PerformanceProfile,
    pub wallboard: bool,
    /// Rows of a list that fit on the screen (a page).
    pub viewport_rows: usize,
    /// This process's id, which is never signalled.
    pub self_pid: u32,
    pub width: u16,
    pub height: u16,
    pub last_error: Option<AppError>,
    /// Recent operation messages, oldest first, at most 100.
    pub activity: Vec<String>,
    pub health_status: HealthStatus,
    pub subsystem_health: SubsystemHealthMap,
}

/// The entry selected in the directory shown on the storage screen, as the
/// search lists it, if there is one.
pub open spec fn storage_selected_node(o: AppState) -> Option<StorageNode> {
    match o.storage.tree {
        Some(t) => match crate::app::state::node_at(t.root, crate::app::state::names_view(o.storage.cwd@)) {
            Some(n) => {
                let kids = crate::app::state::children_kept(
                    n.children@,
                    crate::text::unicode_lower(crate::app::state::current_query(o.dialog, o.search, o.screen)),
                );
                if o.storage.selected < kids.len() {
                    Some(kids[o.storage.selected as int])
                } else {
                    None
                }
            },
            None => None,
        },
        None => None,
    }
}

/// `a` is `b` but for the status line.
pub open spec fn same_but_toast(a: AppState, b: AppState) -> bool {
    a == AppState { toast: a.toast, ..b }
}

impl AppState {
    /// A fresh session on the dashboard, with the content pane focused.
    pub fn new(
        config: Config,
        demo: bool,
        read_only: bool,
        color: bool,
        scan_path: String,
        persist: AppPersistState,
        self_pid: u32,
    ) -> (s: Self)
        ensures
            s.screen == Screen::Dashboard,
            s.focus == FocusPane::Content,
            s.config == config,
            s.demo == demo,
            s.read_only == read_only,
            s.color == color,
            !s.should_quit,
            s.dialog is None,
            !s.searching,
            s.log.buffer.cap() == if config.max_log_entries == 0 {
                1
            } else {
                config.max_log_entries as nat
            },
            s.storage.scan_path == scan_path,
            s.storage.stay_on_fs == config.stay_on_filesystem,
            s.persist == persist,
            s.toast is None,
            s.terminal_profile == TerminalProfile::Auto,
            s.performance_profile == PerformanceProfile::Auto,
            !s.wallboard,
            s.viewport_rows == 20,
            s.self_pid == self_pid,
            s.width == 80 && s.height == 24,
            s.last_error is None,
            s.activity@.len() == 0,
            s.health_status == HealthStatus::Unknown,
    {
        let max_logs = config.max_log_entries;
        let stay = config.stay_on_filesystem;
        AppState {
            screen: Screen::Dashboard,
            focus: FocusPane::Content,
            config,
            demo,
            read_only,
            color,
            should_quit: false,
            dialog: None,
            searching: false,
            search: SearchQueries::default(),
            process: ProcessState::new(),
            service: ServiceState::new(),
            log: LogState::new(max_logs),
            storage: StorageState::new(scan_path, stay),
            diagnostic: DiagnosticState::new(),
            settings: SettingsState::default(),
            persist,
            glossary_selected: 0,
            toast: None,
            terminal_profile: TerminalProfile::Auto,
            performance_profile: PerformanceProfile::Auto,
            wallboard: false,
            viewport_rows: 20,
            self_pid,
            width: 80,
            height: 24,
            last_error: None,
            activity: Vec::new(),
            health_status: HealthStatus::Unknown,
            subsystem_health: SubsystemHealthMap {
                systemd: SubsystemHealth::Unknown,
                journal: SubsystemHealth::Unknown,
                diagnostics: SubsystemHealth::Unknown,
            },
        }
    }

    /// Sets the status line; nothing else changes.
    pub fn set_toast(&mut self, kind: ToastKind, message: String)
        ensures
            final(self).toast matches Some(t) && t.kind == kind && t.message == message,
            same_but_toast(*final(self), *old(self)),
    {
        self.toast = Some(Toast { kind, message });
    }

    /// The status line's text: the message, or `ready`.
    pub fn status_line(&self) -> (s: &str)
        ensures
            s@ == match self.toast {
                Some(t) => t.message@,
                None => "ready"@,
            },
    {
        match &self.toast {
            Some(t) => t.message.as_str(),
            None => {
                proof {
                    reveal_strlit("ready");
                }
                "ready"
            },
        }
    }
}

} // verus!
