//! Systemd service models, filtering and selection.

use vstd::prelude::*;

use crate::model::diagnostics::hits;
use crate::text::{
    ascii_lower_chars, ascii_lower_seq, chars_eq, chars_of, eq_ignore_ascii_case,
    eq_ignore_ascii_case_spec, lemma_normal_word, lemma_plain_word_normal, plain_word, str_contains, str_eq, to_lower, trim, trim_chars, unicode_lower,
};

verus! {

#[derive(Debug, Clone, Copy, PartialEq, Eq, Structural)]
pub enum ServiceFilter {
    All,
    Active,
    Inactive,
    Failed,
}

impl ServiceFilter {
    pub open spec fn following(self) -> Self {
        match self {
            ServiceFilter::All => ServiceFilter::Active,
            ServiceFilter::Active => ServiceFilter::Inactive,
            ServiceFilter::Inactive => ServiceFilter::Failed,
            ServiceFilter::Failed => ServiceFilter::All,
        }
    }

    /// Cycles all → active → inactive → failed → all.
    pub fn next(self) -> (r: Self)
        ensures
            r == self.following(),
    {
        match self {
            ServiceFilter::All => ServiceFilter::Active,
            ServiceFilter::Active => ServiceFilter::Inactive,
            ServiceFilter::Inactive => ServiceFilter::Failed,
            ServiceFilter::Failed => ServiceFilter::All,
        }
    }

    pub open spec fn label_text(self) -> Seq<char> {
        match self {
            ServiceFilter::All => "all"@,
            ServiceFilter::Active => "active"@,
            ServiceFilter::Inactive => "inactive"@,
            ServiceFilter::Failed => "failed"@,
        }
    }

    pub fn label(self) -> (s: &'static str)
        ensures
            s@ == self.label_text(),
    {
        match self {
            ServiceFilter::All => "all",
            ServiceFilter::Active => "active",
            ServiceFilter::Inactive => "inactive",
            ServiceFilter::Failed => "failed",
        }
    }
}

impl Default for ServiceFilter {
    fn default() -> (r: Self)
        ensures
            r == ServiceFilter::All,
    {
        ServiceFilter::All
    }
}

#[derive(Debug, Clone, Copy, PartialEq, Eq, Structural)]
pub enum ServiceActionKind {
    Start,
    Stop,
    Restart,
    Reload,
    Enable,
    Disable,
}

impl ServiceActionKind {
    pub open spec fn label_text(self) -> Seq<char> {
        match self {
            ServiceActionKind::Start => "start"@,
            ServiceActionKind::Stop => "stop"@,
            ServiceActionKind::Restart => "restart"@,
            ServiceActionKind::Reload => "reload"@,
            ServiceActionKind::Enable => "enable"@,
            ServiceActionKind::Disable => "disable"@,
        }
    }

    /// The systemctl verb.
    pub fn label(self) -> (s: &'static str)
        ensures
            s@ == self.label_text(),
    {
        match self {
            ServiceActionKind::Start => "start",
            ServiceActionKind::Stop => "stop",
            ServiceActionKind::Restart => "restart",
            ServiceActionKind::Reload => "reload",
            ServiceActionKind::Enable => "enable",
            ServiceActionKind::Disable => "disable",
        }
    }
}

/// Explicit unit-file enablement state from systemd.
#[derive(Debug, Clone, Copy, PartialEq, Eq, Structural)]
pub enum UnitFileState {
    Enabled,
    EnabledRuntime,
    Linked,
    LinkedRuntime,
    Masked,
    MaskedRuntime,
    Static,
    Disabled,
    Invalid,
    Unknown,
}

/// The state a unit-file state name denotes, after trimming white space and
/// ASCII lower-casing; unrecognised or empty names are Unknown.
pub open spec fn unit_file_state_named(raw: Seq<char>) -> UnitFileState {
    let t = ascii_lower_seq(trim(raw));
    if t == "enabled"@ {
        UnitFileState::Enabled
    } else if t == "enabled-runtime"@ {
        UnitFileState::EnabledRuntime
    } else if t == "linked"@ {
        UnitFileState::Linked
    } else if t == "linked-runtime"@ {
        UnitFileState::LinkedRuntime
    } else if t == "masked"@ {
        UnitFileState::Masked
    } else if t == "masked-runtime"@ {
        UnitFileState::MaskedRuntime
    } else if t == "static"@ {
        UnitFileState::Static
    } else if t == "disabled"@ {
        UnitFileState::Disabled
    } else if t == "invalid"@ {
        UnitFileState::Invalid
    } else {
        UnitFileState::Unknown
    }
}

fn is_name(t: &Vec<char>, name: &str) -> (b: bool)
    ensures
        b == (t@ == name@),
{
    let n = chars_of(name);
    chars_eq(t, &n)
}

impl UnitFileState {
    pub fn parse(raw: &str) -> (r: Self)
        ensures
            r == unit_file_state_named(raw@),
    {
        let v = chars_of(raw);
        let trimmed = trim_chars(&v);
        let t = ascii_lower_chars(&trimmed);
        if is_name(&t, "enabled") {
            UnitFileState::Enabled
        } else if is_name(&t, "enabled-runtime") {
            UnitFileState::EnabledRuntime
        } else if is_name(&t, "linked") {
            UnitFileState::Linked
        } else if is_name(&t, "linked-runtime") {
            UnitFileState::LinkedRuntime
        } else if is_name(&t, "masked") {
            UnitFileState::Masked
        } else if is_name(&t, "masked-runtime") {
            UnitFileState::MaskedRuntime
        } else if is_name(&t, "static") {
            UnitFileState::Static
        } else if is_name(&t, "disabled") {
            UnitFileState::Disabled
        } else if is_name(&t, "invalid") {
            UnitFileState::Invalid
        } else {
            UnitFileState::Unknown
        }
    }

    pub open spec fn label_text(self) -> Seq<char> {
        match self {
            UnitFileState::Enabled => "enabled"@,
            UnitFileState::EnabledRuntime => "enabled-runtime"@,
            UnitFileState::Linked => "linked"@,
            UnitFileState::LinkedRuntime => "linked-runtime"@,
            UnitFileState::Masked => "masked"@,
            UnitFileState::MaskedRuntime => "masked-runtime"@,
            UnitFileState::Static => "static"@,
            UnitFileState::Disabled => "disabled"@,
            UnitFileState::Invalid => "invalid"@,
            UnitFileState::Unknown => "unknown"@,
        }
    }

    pub fn label(self) -> (s: &'static str)
        ensures
            s@ == self.label_text(),
    {
        match self {
            UnitFileState::Enabled => "enabled",
            UnitFileState::EnabledRuntime => "enabled-runtime",
            UnitFileState::Linked => "linked",
            UnitFileState::LinkedRuntime => "linked-runtime",
            UnitFileState::Masked => "masked",
            UnitFileState::MaskedRuntime => "masked-runtime",
            UnitFileState::Static => "static",
            UnitFileState::Disabled => "disabled",
            UnitFileState::Invalid => "invalid",
            UnitFileState::Unknown => "unknown",
        }
    }

    pub open spec fn short_label_text(self) -> Seq<char> {
        match self {
            UnitFileState::Enabled | UnitFileState::EnabledRuntime => "enabled"@,
            UnitFileState::Linked | UnitFileState::LinkedRuntime => "linked"@,
            UnitFileState::Masked | UnitFileState::MaskedRuntime => "masked"@,
            UnitFileState::Static => "static"@,
            UnitFileState::Disabled => "disabled"@,
            UnitFileState::Invalid => "invalid"@,
            UnitFileState::Unknown => "?"@,
        }
    }

    /// Label without the runtime distinction; `?` when unknown.
    pub fn short_label(self) -> (s: &'static str)
        ensures
            s@ == self.short_label_text(),
    {
        match self {
            UnitFileState::Enabled | UnitFileState::EnabledRuntime => "enabled",
            UnitFileState::Linked | UnitFileState::LinkedRuntime => "linked",
            UnitFileState::Masked | UnitFileState::MaskedRuntime => "masked",
            UnitFileState::Static => "static",
            UnitFileState::Disabled => "disabled",
            UnitFileState::Invalid => "invalid",
            UnitFileState::Unknown => "?",
        }
    }
}

impl Default for UnitFileState {
    fn default() -> (r: Self)
        ensures
            r == UnitFileState::Unknown,
    {
        UnitFileState::Unknown
    }
}

#[derive(Debug, Clone)]
pub struct ServiceInfo {
    pub unit: String,
    pub description: String,
    pub load_state: String,
    pub active_state: String,
    pub sub_state: String,
    pub unit_path: String,
    pub unit_file_state: UnitFileState,
    pub fragment_path: Option<String>,
}

impl ServiceInfo {
    pub open spec fn failed(self) -> bool {
        eq_ignore_ascii_case_spec(self.active_state@, "failed"@)
    }

    pub open spec fn active(self) -> bool {
        eq_ignore_ascii_case_spec(self.active_state@, "active"@)
    }

    pub open spec fn inactive(self) -> bool {
        eq_ignore_ascii_case_spec(self.active_state@, "inactive"@) || eq_ignore_ascii_case_spec(
            self.active_state@,
            "dead"@,
        )
    }

    /// The active state is `failed`, ignoring ASCII case.
    pub fn is_failed(&self) -> (b: bool)
        ensures
            b == self.failed(),
    {
        eq_ignore_ascii_case(self.active_state.as_str(), "failed")
    }

    /// The active state is `active`, ignoring ASCII case.
    pub fn is_active(&self) -> (b: bool)
        ensures
            b == self.active(),
    {
        eq_ignore_ascii_case(self.active_state.as_str(), "active")
    }

    /// The active state is `inactive` or `dead`, ignoring ASCII case.
    pub fn is_inactive(&self) -> (b: bool)
        ensures
            b == self.inactive(),
    {
        eq_ignore_ascii_case(self.active_state.as_str(), "inactive") || eq_ignore_ascii_case(
            self.active_state.as_str(),
            "dead",
        )
    }
}

/// The service passes the state filter.
pub open spec fn filter_admits(s: ServiceInfo, filter: ServiceFilter) -> bool {
    match filter {
        ServiceFilter::All => true,
        ServiceFilter::Active => s.active(),
        ServiceFilter::Inactive => s.inactive(),
        ServiceFilter::Failed => s.failed(),
    }
}

/// The lower-cased query `q` occurs in one of the searched fields (or is empty).
pub open spec fn service_query_admits(s: ServiceInfo, q: Seq<char>) -> bool {
    q.len() == 0 || hits(s.unit@, q) || hits(s.description@, q) || hits(s.active_state@, q) || hits(
        s.sub_state@,
        q,
    ) || hits(s.load_state@, q) || hits(s.unit_file_state.label_text(), q) || match s.fragment_path {
        Some(p) => hits(p@, q),
        None => false,
    }
}

/// The services passing the filter and the query, in order.
pub open spec fn services_kept(items: Seq<ServiceInfo>, q: Seq<char>, filter: ServiceFilter) -> Seq<ServiceInfo>
    decreases items.len(),
{
    if items.len() == 0 {
        seq![]
    } else {
        let prev = services_kept(items.drop_last(), q, filter);
        if filter_admits(items.last(), filter) && service_query_admits(items.last(), q) {
            prev.push(items.last())
        } else {
            prev
        }
    }
}

pub open spec fn deref_services(v: Seq<&ServiceInfo>) -> Seq<ServiceInfo> {
    v.map_values(|s: &ServiceInfo| *s)
}

fn service_query_match(s: &ServiceInfo, q: &str) -> (b: bool)
    ensures
        b == service_query_admits(*s, q@),
{
    if q.is_empty() {
        return true;
    }
    if str_contains(to_lower(s.unit.as_str()).as_str(), q) || str_contains(
        to_lower(s.description.as_str()).as_str(),
        q,
    ) || str_contains(to_lower(s.active_state.as_str()).as_str(), q) || str_contains(
        to_lower(s.sub_state.as_str()).as_str(),
        q,
    ) || str_contains(to_lower(s.load_state.as_str()).as_str(), q) || str_contains(
        to_lower(s.unit_file_state.label()).as_str(),
        q,
    ) {
        return true;
    }
    match &s.fragment_path {
        Some(p) => str_contains(to_lower(p.as_str()).as_str(), q),
        None => false,
    }
}

/// Services passing the state filter whose searched fields contain the query
/// (case-insensitively), in input order.
pub fn filter_services<'a>(items: &'a [ServiceInfo], query: &str, filter: ServiceFilter) -> (r: Vec<
    &'a ServiceInfo,
>)
    ensures
        deref_services(r@) == services_kept(items@, unicode_lower(query@), filter),
        query@.len() == 0 ==> deref_services(r@) == services_kept(items@, Seq::empty(), filter),
{
    let lowered = to_lower(query);
    assert(query@.len() == 0 ==> lowered@ =~= Seq::<char>::empty());
    let q = lowered.as_str();
    let mut out: Vec<&'a ServiceInfo> = Vec::new();
    let mut i: usize = 0;
    while i < items.len()
        invariant
            i <= items.len(),
            q@ == unicode_lower(query@),
            deref_services(out@) == services_kept(items@.take(i as int), q@, filter),
        decreases items.len() - i,
    {
        let s = &items[i];
        assert(items@.take(i + 1).drop_last() =~= items@.take(i as int));
        assert(items@.take(i + 1).last() == *s);
        let passes = match filter {
            ServiceFilter::All => true,
            ServiceFilter::Active => s.is_active(),
            ServiceFilter::Inactive => s.is_inactive(),
            ServiceFilter::Failed => s.is_failed(),
        };
        if passes && service_query_match(s, q) {
            assert(deref_services(out@.push(s)) =~= deref_services(out@).push(*s));
            out.push(s);
        }
        i += 1;
    }
    assert(items@.take(items.len() as int) =~= items@);
    out
}

/// The index a selection keeps: the first service with the selected unit
/// name, or 0 when there is none (or the list is empty).
pub open spec fn service_selection_index(filtered: Seq<ServiceInfo>, selected: Option<Seq<char>>, r: int) -> bool {
    match selected {
        Some(u) => if exists|j: int| 0 <= j < filtered.len() && filtered[j].unit@ == u {
            0 <= r < filtered.len() && filtered[r].unit@ == u && forall|j: int|
                0 <= j < r ==> filtered[j].unit@ != u
        } else {
            r == 0
        },
        None => r == 0,
    }
}

/// Keeps the selected unit selected across refreshes.
pub fn preserve_service_selection(filtered: &[&ServiceInfo], selected: Option<&str>) -> (r: usize)
    ensures
        service_selection_index(
            deref_services(filtered@),
            match selected {
                Some(u) => Some(u@),
                None => None,
            },
            r as int,
        ),
{
    let ghost fs = deref_services(filtered@);
    if filtered.len() == 0 {
        return 0;
    }
    match selected {
        Some(unit) => {
            let mut i: usize = 0;
            while i < filtered.len()
                invariant
                    fs == deref_services(filtered@),
                    fs.len() == filtered@.len(),
                    selected == Some(unit),
                    i <= filtered.len(),
                    forall|j: int| 0 <= j < i ==> fs[j].unit@ != unit@,
                decreases filtered.len() - i,
            {
                if str_eq(filtered[i].unit.as_str(), unit) {
                    assert(fs[i as int] == *filtered@[i as int]);
                    assert(fs[i as int].unit@ == unit@);
                    return i;
                }
                i += 1;
            }
            0
        },
        None => 0,
    }
}

/// Number of failed services.
pub open spec fn failed_count(items: Seq<ServiceInfo>) -> nat
    decreases items.len(),
{
    if items.len() == 0 {
        0
    } else {
        failed_count(items.drop_last()) + if items.last().failed() {
            1nat
        } else {
            0nat
        }
    }
}

pub fn count_failed(items: &[ServiceInfo]) -> (n: usize)
    ensures
        n == failed_count(items@),
{
    let mut n: usize = 0;
    let mut i: usize = 0;
    while i < items.len()
        invariant
            i <= items.len(),
            n == failed_count(items@.take(i as int)),
            n <= i,
        decreases items.len() - i,
    {
        assert(items@.take(i + 1).drop_last() =~= items@.take(i as int));
        if items[i].is_failed() {
            n += 1;
        }
        i += 1;
    }
    assert(items@.take(items.len() as int) =~= items@);
    n
}

/// Parsing a state's label gives the state back.
pub proof fn lemma_unit_file_state_round_trip(s: UnitFileState)
    ensures
        unit_file_state_named(s.label_text()) == s,
{
    reveal_strlit("enabled");
    reveal_strlit("enabled-runtime");
    reveal_strlit("linked");
    reveal_strlit("linked-runtime");
    reveal_strlit("masked");
    reveal_strlit("masked-runtime");
    reveal_strlit("static");
    reveal_strlit("disabled");
    reveal_strlit("invalid");
    reveal_strlit("unknown");
    reveal_with_fuel(plain_word, 16);
    assert(plain_word(s.label_text()));
    lemma_plain_word_normal(s.label_text());
}

/// Parsing ignores surrounding white space and ASCII case: a state name
/// parses as its trimmed, lower-cased form does.
pub proof fn lemma_unit_file_state_normalized(raw: Seq<char>)
    ensures
        unit_file_state_named(raw) == unit_file_state_named(ascii_lower_seq(trim(raw))),
{
    lemma_normal_word(raw);
}

/// With an empty query every service passes the query: the unfiltered
/// listing is the whole list, and the failed listing holds exactly the
/// failed services, so `count_failed` and the failed listing agree.
pub proof fn lemma_empty_query_listings(items: Seq<ServiceInfo>)
    ensures
        services_kept(items, Seq::empty(), ServiceFilter::All) == items,
        services_kept(items, Seq::empty(), ServiceFilter::Failed).len() == failed_count(items),
    decreases items.len(),
{
    if items.len() > 0 {
        lemma_empty_query_listings(items.drop_last());
        assert(items =~= items.drop_last().push(items.last()));
    }
}

/// The filter cycle visits all four filters and comes back.
pub proof fn lemma_filter_cycle(f: ServiceFilter)
    ensures
        f.following().following().following().following() == f,
        f.following() != f,
{
}

} // verus!
