//! Diagnostic finding types and the `/` search over findings. Pure data — no I/O.

use vstd::prelude::*;

use crate::text::{has_substring, str_contains, to_lower, unicode_lower};

verus! {

/// Overall host health from required/optional subsystem observation + findings.
#[derive(Debug, Clone, Copy, PartialEq, Eq, Structural)]
pub enum HealthStatus {
    Unknown,
    Healthy,
    Warning,
    Critical,
}

impl HealthStatus {
    /// Badness order: Unknown < Ok < Warning < Critical.
    pub open spec fn rank(self) -> int {
        match self {
            HealthStatus::Unknown => 0,
            HealthStatus::Healthy => 1,
            HealthStatus::Warning => 2,
            HealthStatus::Critical => 3,
        }
    }

    /// The worse of two statuses (ties keep `self`).
    pub open spec fn worse_of(self, other: Self) -> Self {
        if other.rank() > self.rank() {
            other
        } else {
            self
        }
    }

    pub open spec fn label_text(self) -> Seq<char> {
        match self {
            HealthStatus::Unknown => "unknown"@,
            HealthStatus::Healthy => "ok"@,
            HealthStatus::Warning => "warning"@,
            HealthStatus::Critical => "critical"@,
        }
    }

    pub fn label(self) -> (s: &'static str)
        ensures
            s@ == self.label_text(),
    {
        match self {
            HealthStatus::Unknown => "unknown",
            HealthStatus::Healthy => "ok",
            HealthStatus::Warning => "warning",
            HealthStatus::Critical => "critical",
        }
    }

    fn rank_of(self) -> (r: u8)
        ensures
            r == self.rank(),
    {
        match self {
            HealthStatus::Unknown => 0,
            HealthStatus::Healthy => 1,
            HealthStatus::Warning => 2,
            HealthStatus::Critical => 3,
        }
    }

    /// The worse of `self` and `other`.
    pub fn worse(self, other: Self) -> (r: Self)
        ensures
            r == self.worse_of(other),
            r.rank() == if self.rank() >= other.rank() {
                self.rank()
            } else {
                other.rank()
            },
    {
        if other.rank_of() > self.rank_of() {
            other
        } else {
            self
        }
    }
}

impl Default for HealthStatus {
    fn default() -> (r: Self)
        ensures
            r == HealthStatus::Unknown,
    {
        HealthStatus::Unknown
    }
}

/// `worse` is commutative and associative, and keeps the rank maximum:
/// folding findings in any order gives the same status.
pub proof fn lemma_worse_is_max(a: HealthStatus, b: HealthStatus, c: HealthStatus)
    ensures
        a.worse_of(b) == b.worse_of(a),
        a.worse_of(b).worse_of(c) == a.worse_of(b.worse_of(c)),
        a.worse_of(a) == a,
        a.worse_of(b).rank() >= a.rank(),
        a.worse_of(b).rank() >= b.rank(),
{
}

#[derive(Debug, Clone, Copy, PartialEq, Eq, Structural)]
pub enum Severity {
    Info,
    Warning,
    Critical,
}

impl Severity {
    pub open spec fn label_text(self) -> Seq<char> {
        match self {
            Severity::Info => "info"@,
            Severity::Warning => "warning"@,
            Severity::Critical => "critical"@,
        }
    }

    pub fn label(self) -> (s: &'static str)
        ensures
            s@ == self.label_text(),
    {
        match self {
            Severity::Info => "info",
            Severity::Warning => "warning",
            Severity::Critical => "critical",
        }
    }

    pub open spec fn health(self) -> HealthStatus {
        match self {
            Severity::Info => HealthStatus::Healthy,
            Severity::Warning => HealthStatus::Warning,
            Severity::Critical => HealthStatus::Critical,
        }
    }

    /// Info → Ok, Warning → Warning, Critical → Critical.
    pub fn to_health(self) -> (h: HealthStatus)
        ensures
            h == self.health(),
    {
        match self {
            Severity::Info => HealthStatus::Healthy,
            Severity::Warning => HealthStatus::Warning,
            Severity::Critical => HealthStatus::Critical,
        }
    }
}

#[derive(Debug, Clone, Copy, PartialEq, Eq, Structural)]
pub enum Confidence {
    Low,
    Medium,
    High,
}

impl Confidence {
    pub open spec fn label_text(self) -> Seq<char> {
        match self {
            Confidence::Low => "low"@,
            Confidence::Medium => "medium"@,
            Confidence::High => "high"@,
        }
    }

    pub fn label(self) -> (s: &'static str)
        ensures
            s@ == self.label_text(),
    {
        match self {
            Confidence::Low => "low",
            Confidence::Medium => "medium",
            Confidence::High => "high",
        }
    }
}

#[derive(Debug, Clone, Copy, PartialEq, Eq, Structural)]
pub enum Category {
    Services,
    Journal,
    Memory,
    Storage,
    Temperature,
    Clock,
    Boot,
    CoreDump,
    Pressure,
    Config,
    Hardware,
    Kernel,
    Other,
}

impl Category {
    pub open spec fn label_text(self) -> Seq<char> {
        match self {
            Category::Services => "services"@,
            Category::Journal => "journal"@,
            Category::Memory => "memory"@,
            Category::Storage => "storage"@,
            Category::Temperature => "temperature"@,
            Category::Clock => "clock"@,
            Category::Boot => "boot"@,
            Category::CoreDump => "coredump"@,
            Category::Pressure => "pressure"@,
            Category::Config => "config"@,
            Category::Hardware => "hardware"@,
            Category::Kernel => "kernel"@,
            Category::Other => "other"@,
        }
    }

    pub fn label(self) -> (s: &'static str)
        ensures
            s@ == self.label_text(),
    {
        match self {
            Category::Services => "services",
            Category::Journal => "journal",
            Category::Memory => "memory",
            Category::Storage => "storage",
            Category::Temperature => "temperature",
            Category::Clock => "clock",
            Category::Boot => "boot",
            Category::CoreDump => "coredump",
            Category::Pressure => "pressure",
            Category::Config => "config",
            Category::Hardware => "hardware",
            Category::Kernel => "kernel",
            Category::Other => "other",
        }
    }
}

#[derive(Debug, Clone, Copy, PartialEq, Eq, Structural)]
pub enum ScreenTarget {
    Dashboard,
    Processes,
    Services,
    Logs,
    Storage,
    Diagnostics,
}

impl ScreenTarget {
    pub open spec fn label_text(self) -> Seq<char> {
        match self {
            ScreenTarget::Dashboard => "dashboard"@,
            ScreenTarget::Processes => "processes"@,
            ScreenTarget::Services => "services"@,
            ScreenTarget::Logs => "logs"@,
            ScreenTarget::Storage => "storage"@,
            ScreenTarget::Diagnostics => "diagnostics"@,
        }
    }

    pub fn label(self) -> (s: &'static str)
        ensures
            s@ == self.label_text(),
    {
        match self {
            ScreenTarget::Dashboard => "dashboard",
            ScreenTarget::Processes => "processes",
            ScreenTarget::Services => "services",
            ScreenTarget::Logs => "logs",
            ScreenTarget::Storage => "storage",
            ScreenTarget::Diagnostics => "diagnostics",
        }
    }
}

/// Deep-link target into an existing screen with optional search prefill.
#[derive(Debug, Clone)]
pub struct DiagnosticTarget {
    pub screen: ScreenTarget,
    pub search: Option<String>,
}

#[derive(Debug, Clone)]
pub struct Evidence {
    pub summary: String,
    pub details: Vec<String>,
}

#[derive(Debug, Clone)]
pub struct SuggestedCheck {
    pub description: String,
    /// Informational only — never executed by the app.
    pub command_hint: Option<String>,
}

#[derive(Debug, Clone)]
pub struct Finding {
    pub id: String,
    pub title: String,
    pub summary: String,
    pub severity: Severity,
    pub confidence: Confidence,
    pub category: Category,
    pub evidence: Evidence,
    pub targets: Vec<DiagnosticTarget>,
    pub suggested_check: Option<SuggestedCheck>,
    /// When false, absence of the probe must not invent a finding.
    pub degradable: bool,
}

/// Mathematical model of a deep-link target.
pub struct TargetView {
    pub screen: ScreenTarget,
    pub search: Option<Seq<char>>,
}

/// Mathematical model of a suggested check.
pub struct CheckView {
    pub description: Seq<char>,
    pub command_hint: Option<Seq<char>>,
}

/// Mathematical model of evidence.
pub struct EvidenceView {
    pub summary: Seq<char>,
    pub details: Seq<Seq<char>>,
}

/// Mathematical model of a finding: every field as plain values.
pub struct FindingView {
    pub id: Seq<char>,
    pub title: Seq<char>,
    pub summary: Seq<char>,
    pub severity: Severity,
    pub confidence: Confidence,
    pub category: Category,
    pub evidence: EvidenceView,
    pub targets: Seq<TargetView>,
    pub suggested_check: Option<CheckView>,
    pub degradable: bool,
}

pub open spec fn opt_text(o: Option<String>) -> Option<Seq<char>> {
    match o {
        Some(s) => Some(s@),
        None => None,
    }
}

pub open spec fn texts(v: Seq<String>) -> Seq<Seq<char>> {
    v.map_values(|s: String| s@)
}

impl View for DiagnosticTarget {
    type V = TargetView;

    open spec fn view(&self) -> TargetView {
        TargetView { screen: self.screen, search: opt_text(self.search) }
    }
}

impl View for SuggestedCheck {
    type V = CheckView;

    open spec fn view(&self) -> CheckView {
        CheckView { description: self.description@, command_hint: opt_text(self.command_hint) }
    }
}

impl View for Evidence {
    type V = EvidenceView;

    open spec fn view(&self) -> EvidenceView {
        EvidenceView { summary: self.summary@, details: texts(self.details@) }
    }
}

impl View for Finding {
    type V = FindingView;

    open spec fn view(&self) -> FindingView {
        FindingView {
            id: self.id@,
            title: self.title@,
            summary: self.summary@,
            severity: self.severity,
            confidence: self.confidence,
            category: self.category,
            evidence: self.evidence@,
            targets: self.targets@.map_values(|t: DiagnosticTarget| t@),
            suggested_check: match self.suggested_check {
                Some(c) => Some(c@),
                None => None,
            },
            degradable: self.degradable,
        }
    }
}

/// The models of a list of findings.
pub open spec fn findings_view(v: Seq<Finding>) -> Seq<FindingView> {
    v.map_values(|f: Finding| f@)
}

/// `text`, lower-cased, contains the lower-cased query `q`.
pub open spec fn hits(text: Seq<char>, q: Seq<char>) -> bool {
    has_substring(unicode_lower(text), q)
}

/// The text fields of `check` that the search reads.
pub open spec fn check_hits(check: Option<CheckView>, q: Seq<char>) -> bool {
    match check {
        Some(c) => hits(c.description, q) || match c.command_hint {
            Some(h) => hits(h, q),
            None => false,
        },
        None => false,
    }
}

pub open spec fn target_hits(t: TargetView, q: Seq<char>) -> bool {
    hits(t.screen.label_text(), q) || match t.search {
        Some(s) => hits(s, q),
        None => false,
    }
}

/// Case-insensitive substring match across the finding fields used by `/` search.
pub open spec fn finding_matches_spec(f: FindingView, query: Seq<char>) -> bool {
    let q = unicode_lower(query);
    query.len() == 0 || hits(f.id, q) || hits(f.title, q) || hits(f.summary, q) || hits(
        f.category.label_text(),
        q,
    ) || hits(f.severity.label_text(), q) || hits(f.confidence.label_text(), q) || hits(
        f.evidence.summary,
        q,
    ) || (exists|i: int| 0 <= i < f.evidence.details.len() && hits(f.evidence.details[i], q))
        || check_hits(f.suggested_check, q) || (exists|i: int|
        0 <= i < f.targets.len() && target_hits(#[trigger] f.targets[i], q))
}

fn hit(text: &str, q: &str) -> (b: bool)
    ensures
        b == hits(text@, q@),
{
    let lowered = to_lower(text);
    str_contains(lowered.as_str(), q)
}

/// Case-insensitive substring match across finding fields used by `/` search.
pub fn finding_matches(f: &Finding, query: &str) -> (b: bool)
    ensures
        b == finding_matches_spec(f@, query@),
{
    if query.is_empty() {
        return true;
    }
    let lowered = to_lower(query);
    let q = lowered.as_str();
    if hit(f.id.as_str(), q) || hit(f.title.as_str(), q) || hit(f.summary.as_str(), q) || hit(
        f.category.label(),
        q,
    ) || hit(f.severity.label(), q) || hit(f.confidence.label(), q) || hit(
        f.evidence.summary.as_str(),
        q,
    ) {
        return true;
    }
    let mut i: usize = 0;
    while i < f.evidence.details.len()
        invariant
            q@ == unicode_lower(query@),
            i <= f.evidence.details.len(),
            forall|j: int| 0 <= j < i ==> !hits(f.evidence.details@[j]@, q@),
        decreases f.evidence.details.len() - i,
    {
        if hit(f.evidence.details[i].as_str(), q) {
            assert(f@.evidence.details[i as int] == f.evidence.details@[i as int]@);
            return true;
        }
        i += 1;
    }
    match &f.suggested_check {
        Some(check) => {
            if hit(check.description.as_str(), q) {
                return true;
            }
            match &check.command_hint {
                Some(h) => {
                    if hit(h.as_str(), q) {
                        return true;
                    }
                },
                None => {},
            }
        },
        None => {},
    }
    let mut k: usize = 0;
    while k < f.targets.len()
        invariant
            q@ == unicode_lower(query@),
            k <= f.targets.len(),
            forall|j: int| 0 <= j < k ==> !target_hits(#[trigger] f.targets@[j]@, q@),
        decreases f.targets.len() - k,
    {
        let t = &f.targets[k];
        assert(f@.targets[k as int] == t@);
        if hit(t.screen.label(), q) {
            assert(target_hits(f@.targets[k as int], q@));
            return true;
        }
        match &t.search {
            Some(s) => {
                if hit(s.as_str(), q) {
                    assert(target_hits(f@.targets[k as int], q@));
                    return true;
                }
            },
            None => {},
        }
        k += 1;
    }
    false
}

#[derive(Debug, Clone)]
pub struct SmartDiskSnapshot {
    pub device: String,
    pub available: bool,
    pub passed: Option<bool>,
    pub uda_crc_error_count: Option<u64>,
    pub prev_uda_crc_error_count: Option<u64>,
    pub summary: String,
    pub details: Vec<String>,
}

#[derive(Debug, Clone)]
pub struct FailedUnitSnapshot {
    pub unit: String,
    pub active_state: String,
    pub sub_state: String,
    pub description: String,
}

#[derive(Debug, Clone)]
pub struct JournalCriticalGroup {
    pub unit: String,
    pub count: usize,
    pub sample_message: String,
}

#[derive(Debug, Clone)]
pub struct OomEvent {
    pub process: String,
    pub message: String,
}

#[derive(Debug, Clone)]
pub struct PreviousBootSummary {
    pub boot_id: String,
    /// True only when strong evidence of unclean shutdown WITHOUT claiming kernel panic.
    pub unclean_hint: bool,
    pub note: String,
}

#[derive(Debug, Clone)]
pub struct PstoreEntry {
    pub name: String,
    pub bytes: u64,
}

#[derive(Debug, Clone)]
pub struct CoredumpEntry {
    pub exe: String,
    pub signal: Option<String>,
    pub timestamp: String,
}

#[derive(Debug, Clone)]
pub struct ClockSyncSnapshot {
    pub ntp_synchronized: Option<bool>,
    pub system_time_status: String,
}

#[derive(Debug, Clone)]
pub struct EtcMetaChange {
    pub path: String,
    pub kind: String,
}

/// Snapshot built from in-memory app/probe data for the evaluator: every
/// probe result the integer and text rules read.
#[derive(Debug, Clone)]
pub struct DiagnosticSnapshot {
    pub boot_id: Option<String>,
    pub previous_boot_id: Option<String>,
    pub failed_units: Vec<FailedUnitSnapshot>,
    pub journal_critical: Vec<JournalCriticalGroup>,
    pub oom_events: Vec<OomEvent>,
    pub previous_boot_summary: Option<PreviousBootSummary>,
    pub pstore_entries: Vec<PstoreEntry>,
    pub coredumps: Vec<CoredumpEntry>,
    pub clock_sync: Option<ClockSyncSnapshot>,
    pub etc_mtime_notable: Vec<EtcMetaChange>,
    pub smart_disks: Vec<SmartDiskSnapshot>,
    pub systemd_observable: bool,
    pub journal_observable: bool,
    pub probes_degraded: Vec<String>,
}

impl DiagnosticSnapshot {
    /// Nothing observed: empty lists, no optional probe, both required subsystems unobservable.
    pub fn empty() -> (s: Self)
        ensures
            s.boot_id is None,
            s.previous_boot_id is None,
            s.failed_units@.len() == 0,
            s.journal_critical@.len() == 0,
            s.oom_events@.len() == 0,
            s.previous_boot_summary is None,
            s.pstore_entries@.len() == 0,
            s.coredumps@.len() == 0,
            s.clock_sync is None,
            s.etc_mtime_notable@.len() == 0,
            s.smart_disks@.len() == 0,
            !s.systemd_observable,
            !s.journal_observable,
            s.probes_degraded@.len() == 0,
    {
        DiagnosticSnapshot {
            boot_id: None,
            previous_boot_id: None,
            failed_units: Vec::new(),
            journal_critical: Vec::new(),
            oom_events: Vec::new(),
            previous_boot_summary: None,
            pstore_entries: Vec::new(),
            coredumps: Vec::new(),
            clock_sync: None,
            etc_mtime_notable: Vec::new(),
            smart_disks: Vec::new(),
            systemd_observable: false,
            journal_observable: false,
            probes_degraded: Vec::new(),
        }
    }
}

impl Default for DiagnosticSnapshot {
    /// The same as `empty`.
    fn default() -> (s: Self)
        ensures
            s.boot_id is None,
            s.previous_boot_id is None,
            s.failed_units@.len() == 0,
            s.journal_critical@.len() == 0,
            s.oom_events@.len() == 0,
            s.previous_boot_summary is None,
            s.pstore_entries@.len() == 0,
            s.coredumps@.len() == 0,
            s.clock_sync is None,
            s.etc_mtime_notable@.len() == 0,
            s.smart_disks@.len() == 0,
            !s.systemd_observable,
            !s.journal_observable,
            s.probes_degraded@.len() == 0,
    {
        DiagnosticSnapshot::empty()
    }
}

} // verus!
