//! Keybinding registry: scopes, keys and labels, and the checks that find
//! colliding or shadowed bindings.

use vstd::prelude::*;

use crate::app::action::AppAction;
use crate::model::screen::Screen;
use crate::settings::SettingId;

verus! {

/// A key as the bindings name it.
#[derive(Debug, Clone, Copy, PartialEq, Eq, Structural)]
pub enum KeyCode {
    Char(char),
    Enter,
    Esc,
    Tab,
    BackTab,
    Backspace,
    Delete,
    Up,
    Down,
    Left,
    Right,
    PageUp,
    PageDown,
    Home,
    End,
    F(u8),
}

#[derive(Debug, Clone, Copy, PartialEq, Eq, Structural)]
pub enum BindingScope {
    Global,
    Screen(Screen),
    Dialog,
    Search,
}

#[derive(Debug, Clone, Copy, PartialEq, Eq, Structural)]
pub enum BindingVisibility {
    Footer,
    Help,
    Hidden,
}

/// Lightweight action tokens used by the registry (mapped to `AppAction` when
/// a key is resolved).
#[derive(Debug, Clone, Copy, PartialEq, Eq, Structural)]
pub enum BindingAction {
    Quit,
    ToggleHelp,
    ToggleGlossary,
    ChangeScreen(Screen),
    ToggleSetting(SettingId),
    Refresh,
    SaveSettings,
    ResetSettings,
}

#[derive(Debug, Clone, Copy)]
pub struct Binding {
    pub scope: BindingScope,
    pub key: KeyCode,
    pub action: BindingAction,
    pub label: &'static str,
    pub visibility: BindingVisibility,
}

/// A binding as plain values.
pub type BindingView = (BindingScope, KeyCode, BindingAction, Seq<char>, BindingVisibility);

pub open spec fn binding_view(b: Binding) -> BindingView {
    (b.scope, b.key, b.action, b.label@, b.visibility)
}

pub open spec fn bindings_view(v: Seq<Binding>) -> Seq<BindingView> {
    v.map_values(|b: Binding| binding_view(b))
}

fn push_binding(
    v: &mut Vec<Binding>,
    scope: BindingScope,
    key: KeyCode,
    action: BindingAction,
    label: &'static str,
    visibility: BindingVisibility,
)
    ensures
        bindings_view(final(v)@) == bindings_view(old(v)@).push(
            (scope, key, action, label@, visibility),
        ),
{
    let ghost before = v@;
    v.push(Binding { scope, key, action, label, visibility });
    assert(bindings_view(v@) =~= bindings_view(before).push((scope, key, action, label@, visibility)));
}

pub open spec fn digit_binding(c: char, s: Screen, label: Seq<char>) -> BindingView {
    (BindingScope::Global, KeyCode::Char(c), BindingAction::ChangeScreen(s), label, BindingVisibility::Help)
}

/// Digits 1 to 7 jump to the seven screens from anywhere.
pub open spec fn global_digits() -> Seq<BindingView> {
    seq![
        digit_binding('1', Screen::Dashboard, "Dashboard"@),
        digit_binding('2', Screen::Processes, "Processes"@),
        digit_binding('3', Screen::Services, "Services"@),
        digit_binding('4', Screen::Logs, "Logs"@),
        digit_binding('5', Screen::Storage, "Storage"@),
        digit_binding('6', Screen::Diagnostics, "Diagnostics"@),
        digit_binding('7', Screen::Settings, "Settings"@),
    ]
}

/// Global digit to screen navigation. Screen-local maps take precedence when
/// both claim a key.
pub fn global_digit_bindings() -> (v: Vec<Binding>)
    ensures
        bindings_view(v@) == global_digits(),
{
    let mut v: Vec<Binding> = Vec::new();
    let g = BindingScope::Global;
    let h = BindingVisibility::Help;
    push_binding(&mut v, g, KeyCode::Char('1'), BindingAction::ChangeScreen(Screen::Dashboard), "Dashboard", h);
    push_binding(&mut v, g, KeyCode::Char('2'), BindingAction::ChangeScreen(Screen::Processes), "Processes", h);
    push_binding(&mut v, g, KeyCode::Char('3'), BindingAction::ChangeScreen(Screen::Services), "Services", h);
    push_binding(&mut v, g, KeyCode::Char('4'), BindingAction::ChangeScreen(Screen::Logs), "Logs", h);
    push_binding(&mut v, g, KeyCode::Char('5'), BindingAction::ChangeScreen(Screen::Storage), "Storage", h);
    push_binding(&mut v, g, KeyCode::Char('6'), BindingAction::ChangeScreen(Screen::Diagnostics), "Diagnostics", h);
    push_binding(&mut v, g, KeyCode::Char('7'), BindingAction::ChangeScreen(Screen::Settings), "Settings", h);
    assert(bindings_view(v@) =~= global_digits());
    v
}

pub open spec fn settings_binding(c: char, action: BindingAction, label: Seq<char>, visibility: BindingVisibility) -> BindingView {
    (BindingScope::Screen(Screen::Settings), KeyCode::Char(c), action, label, visibility)
}

/// The Settings screen's own keys.
pub open spec fn settings_keys() -> Seq<BindingView> {
    seq![
        settings_binding('1', BindingAction::ToggleSetting(SettingId::ConfirmSigterm), "toggle confirm SIGTERM"@, BindingVisibility::Footer),
        settings_binding('2', BindingAction::ToggleSetting(SettingId::ConfirmSigkill), "toggle confirm SIGKILL"@, BindingVisibility::Footer),
        settings_binding('3', BindingAction::ToggleSetting(SettingId::ConfirmServiceActions), "toggle confirm service actions"@, BindingVisibility::Footer),
        settings_binding('4', BindingAction::ToggleSetting(SettingId::EnableSmartProbes), "toggle SMART probes"@, BindingVisibility::Footer),
        settings_binding('5', BindingAction::ToggleSetting(SettingId::DiagnosticsLightScan), "toggle light diagnostics"@, BindingVisibility::Footer),
        settings_binding('S', BindingAction::SaveSettings, "save settings"@, BindingVisibility::Footer),
        settings_binding('d', BindingAction::ResetSettings, "reset settings"@, BindingVisibility::Help),
    ]
}

pub fn settings_bindings() -> (v: Vec<Binding>)
    ensures
        bindings_view(v@) == settings_keys(),
{
    let mut v: Vec<Binding> = Vec::new();
    let s = BindingScope::Screen(Screen::Settings);
    let f = BindingVisibility::Footer;
    push_binding(&mut v, s, KeyCode::Char('1'), BindingAction::ToggleSetting(SettingId::ConfirmSigterm), "toggle confirm SIGTERM", f);
    push_binding(&mut v, s, KeyCode::Char('2'), BindingAction::ToggleSetting(SettingId::ConfirmSigkill), "toggle confirm SIGKILL", f);
    push_binding(&mut v, s, KeyCode::Char('3'), BindingAction::ToggleSetting(SettingId::ConfirmServiceActions), "toggle confirm service actions", f);
    push_binding(&mut v, s, KeyCode::Char('4'), BindingAction::ToggleSetting(SettingId::EnableSmartProbes), "toggle SMART probes", f);
    push_binding(&mut v, s, KeyCode::Char('5'), BindingAction::ToggleSetting(SettingId::DiagnosticsLightScan), "toggle light diagnostics", f);
    push_binding(&mut v, s, KeyCode::Char('S'), BindingAction::SaveSettings, "save settings", f);
    push_binding(&mut v, s, KeyCode::Char('d'), BindingAction::ResetSettings, "reset settings", BindingVisibility::Help);
    assert(bindings_view(v@) =~= settings_keys());
    v
}

/// The application action a binding stands for.
pub open spec fn action_of(a: BindingAction) -> AppAction {
    match a {
        BindingAction::Quit => AppAction::Quit,
        BindingAction::ToggleHelp => AppAction::ToggleHelp,
        BindingAction::ToggleGlossary => AppAction::ToggleGlossary,
        BindingAction::ChangeScreen(s) => AppAction::ChangeScreen(s),
        BindingAction::ToggleSetting(id) => AppAction::ToggleSetting(id),
        BindingAction::Refresh => AppAction::Refresh,
        BindingAction::SaveSettings => AppAction::SaveSettings,
        BindingAction::ResetSettings => AppAction::ResetSettings,
    }
}

pub fn binding_to_action(action: BindingAction) -> (r: AppAction)
    ensures
        r == action_of(action),
{
    match action {
        BindingAction::Quit => AppAction::Quit,
        BindingAction::ToggleHelp => AppAction::ToggleHelp,
        BindingAction::ToggleGlossary => AppAction::ToggleGlossary,
        BindingAction::ChangeScreen(s) => AppAction::ChangeScreen(s),
        BindingAction::ToggleSetting(id) => AppAction::ToggleSetting(id),
        BindingAction::Refresh => AppAction::Refresh,
        BindingAction::SaveSettings => AppAction::SaveSettings,
        BindingAction::ResetSettings => AppAction::ResetSettings,
    }
}

/// Scope and key of binding `i`.
pub open spec fn slot(b: Seq<Binding>, i: int) -> (BindingScope, KeyCode) {
    (b[i].scope, b[i].key)
}

/// Binding `i` reuses the scope and key of an earlier binding.
pub open spec fn repeats_earlier(b: Seq<Binding>, i: int) -> bool {
    exists|j: int| 0 <= j < i && slot(b, j) == slot(b, i)
}

/// The scope and key of every binding that repeats an earlier one, in order.
pub open spec fn collisions_in(b: Seq<Binding>) -> Seq<(BindingScope, KeyCode)>
    decreases b.len(),
{
    if b.len() == 0 {
        Seq::empty()
    } else {
        let rest = collisions_in(b.drop_last());
        if repeats_earlier(b, b.len() - 1) {
            rest.push(slot(b, b.len() - 1))
        } else {
            rest
        }
    }
}

/// Detect duplicate keys within the same scope.
pub fn find_scope_collisions(bindings: &[Binding]) -> (r: Vec<(BindingScope, KeyCode)>)
    ensures
        r@ == collisions_in(bindings@),
{
    let mut seen: Vec<(BindingScope, KeyCode)> = Vec::new();
    let mut collisions: Vec<(BindingScope, KeyCode)> = Vec::new();
    let mut i: usize = 0;
    while i < bindings.len()
        invariant
            i <= bindings@.len(),
            collisions@ == collisions_in(bindings@.take(i as int)),
            forall|k: (BindingScope, KeyCode)|
                seen@.contains(k) <==> exists|j: int| 0 <= j < i && slot(bindings@, j) == k,
        decreases bindings@.len() - i,
    {
        let key = (bindings[i].scope, bindings[i].key);
        let mut found = false;
        let mut m: usize = 0;
        while m < seen.len()
            invariant
                m <= seen@.len(),
                found == exists|t: int| 0 <= t < m && seen@[t] == key,
            decreases seen@.len() - m,
        {
            if seen[m].0 == key.0 && seen[m].1 == key.1 {
                found = true;
            }
            m += 1;
        }
        let ghost pre = bindings@.take(i as int);
        let ghost now = bindings@.take(i + 1);
        proof {
            assert(now.drop_last() =~= pre);
            assert(slot(now, i as int) == key);
            assert(found == repeats_earlier(now, i as int)) by {
                if found {
                    let t = choose|t: int| 0 <= t < seen@.len() && seen@[t] == key;
                    assert(seen@.contains(key));
                    let j = choose|j: int| 0 <= j < i && slot(bindings@, j) == key;
                    assert(slot(now, j) == key);
                }
                if repeats_earlier(now, i as int) {
                    let j = choose|j: int| 0 <= j < i && slot(now, j) == slot(now, i as int);
                    assert(slot(bindings@, j) == key);
                    assert(seen@.contains(key));
                }
            }
        }
        if found {
            collisions.push(key);
        } else {
            let ghost before = seen@;
            seen.push(key);
            proof {
                assert forall|k: (BindingScope, KeyCode)|
                    seen@.contains(k) <==> exists|j: int| 0 <= j < i + 1 && slot(bindings@, j) == k by {
                    if seen@.contains(k) {
                        let t = choose|t: int| 0 <= t < seen@.len() && seen@[t] == k;
                        if t < before.len() {
                            assert(before[t] == k);
                            assert(before.contains(k));
                        } else {
                            assert(slot(bindings@, i as int) == k);
                        }
                    }
                    if exists|j: int| 0 <= j < i + 1 && slot(bindings@, j) == k {
                        let j = choose|j: int| 0 <= j < i + 1 && slot(bindings@, j) == k;
                        if j < i {
                            assert(before.contains(k));
                            let t = choose|t: int| 0 <= t < before.len() && before[t] == k;
                            assert(seen@[t] == k);
                        } else {
                            assert(seen@[before.len() as int] == k);
                        }
                    }
                }
            }
        }
        proof {
            if found {
                assert forall|k: (BindingScope, KeyCode)|
                    seen@.contains(k) <==> exists|j: int| 0 <= j < i + 1 && slot(bindings@, j) == k by {
                    if exists|j: int| 0 <= j < i + 1 && slot(bindings@, j) == k {
                        let j = choose|j: int| 0 <= j < i + 1 && slot(bindings@, j) == k;
                        if j == i {
                            let t = choose|t: int| 0 <= t < seen@.len() && seen@[t] == key;
                            assert(seen@.contains(key));
                        }
                    }
                }
            }
        }
        i += 1;
    }
    assert(bindings@.take(bindings@.len() as int) =~= bindings@);
    collisions
}

/// Labels of the local bindings whose key some global binding also claims,
/// in order: these would be unreachable if globals were resolved first.
pub open spec fn shadowed_labels(local: Seq<Binding>, global: Seq<Binding>) -> Seq<Seq<char>>
    decreases local.len(),
{
    if local.len() == 0 {
        Seq::empty()
    } else {
        let rest = shadowed_labels(local.drop_last(), global);
        let l = local.last();
        if exists|g: int| 0 <= g < global.len() && global[g].key == l.key {
            rest.push(l.label@)
        } else {
            rest
        }
    }
}

pub fn find_unreachable_under_global_first(local: &[Binding], global: &[Binding]) -> (r: Vec<
    &'static str,
>)
    ensures
        r@.map_values(|s: &'static str| s@) == shadowed_labels(local@, global@),
{
    let mut out: Vec<&'static str> = Vec::new();
    let mut i: usize = 0;
    while i < local.len()
        invariant
            i <= local@.len(),
            out@.map_values(|s: &'static str| s@) == shadowed_labels(local@.take(i as int), global@),
        decreases local@.len() - i,
    {
        let l = local[i];
        let mut hit = false;
        let mut g: usize = 0;
        while g < global.len()
            invariant
                g <= global@.len(),
                hit == exists|t: int| 0 <= t < g && global@[t].key == l.key,
            decreases global@.len() - g,
        {
            if global[g].key == l.key {
                hit = true;
            }
            g += 1;
        }
        let ghost before = out@;
        proof {
            assert(local@.take(i + 1).drop_last() =~= local@.take(i as int));
            assert(local@.take(i + 1).last() == l);
        }
        if hit {
            out.push(l.label);
            assert(out@.map_values(|s: &'static str| s@) =~= before.map_values(
                |s: &'static str| s@,
            ).push(l.label@));
        }
        i += 1;
    }
    assert(local@.take(local@.len() as int) =~= local@);
    out
}

/// No two Settings bindings share a key.
pub proof fn lemma_settings_keys_distinct(b: Seq<Binding>)
    requires
        bindings_view(b) == settings_keys(),
    ensures
        collisions_in(b) == Seq::<(BindingScope, KeyCode)>::empty(),
{
    assert(bindings_view(b).len() == b.len());
    assert(settings_keys().len() == 7);
    assert forall|i: int, j: int| 0 <= j < i < 7 implies slot(b, j) != slot(b, i) by {
        assert(bindings_view(b)[i] == binding_view(b[i]));
        assert(bindings_view(b)[j] == binding_view(b[j]));
    }
    lemma_no_repeats_no_collisions(b);
}

/// No two global bindings share a key.
pub proof fn lemma_global_digits_distinct(b: Seq<Binding>)
    requires
        bindings_view(b) == global_digits(),
    ensures
        collisions_in(b) == Seq::<(BindingScope, KeyCode)>::empty(),
{
    assert(bindings_view(b).len() == b.len());
    assert(global_digits().len() == 7);
    assert forall|i: int, j: int| 0 <= j < i < 7 implies slot(b, j) != slot(b, i) by {
        assert(bindings_view(b)[i] == binding_view(b[i]));
        assert(bindings_view(b)[j] == binding_view(b[j]));
    }
    lemma_no_repeats_no_collisions(b);
}

proof fn lemma_shadow_step(l: Seq<Binding>, g: Seq<Binding>, k: int)
    requires
        0 <= k < l.len(),
    ensures
        shadowed_labels(l.take(k + 1), g) == if exists|t: int|
            0 <= t < g.len() && g[t].key == l[k].key {
            shadowed_labels(l.take(k), g).push(l[k].label@)
        } else {
            shadowed_labels(l.take(k), g)
        },
{
    assert(l.take(k + 1).drop_last() =~= l.take(k));
    assert(l.take(k + 1).last() == l[k]);
}

proof fn lemma_no_repeats_no_collisions(b: Seq<Binding>)
    requires
        forall|i: int, j: int| 0 <= j < i < b.len() ==> slot(b, j) != slot(b, i),
    ensures
        collisions_in(b) == Seq::<(BindingScope, KeyCode)>::empty(),
    decreases b.len(),
{
    if b.len() > 0 {
        let p = b.drop_last();
        assert forall|i: int, j: int| 0 <= j < i < p.len() implies slot(p, j) != slot(p, i) by {
            assert(slot(p, j) == slot(b, j) && slot(p, i) == slot(b, i));
        }
        lemma_no_repeats_no_collisions(p);
        assert(!repeats_earlier(b, b.len() - 1));
    }
}

/// The five Settings digit toggles are shadowed by the global digit keys;
/// save and reset are not.
pub proof fn lemma_settings_digits_shadowed(local: Seq<Binding>, global: Seq<Binding>)
    requires
        bindings_view(local) == settings_keys(),
        bindings_view(global) == global_digits(),
    ensures
        shadowed_labels(local, global) == seq![
            "toggle confirm SIGTERM"@,
            "toggle confirm SIGKILL"@,
            "toggle confirm service actions"@,
            "toggle SMART probes"@,
            "toggle light diagnostics"@,
        ],
{
    assert(bindings_view(local).len() == local.len());
    assert(bindings_view(global).len() == global.len());
    assert(settings_keys().len() == 7 && global_digits().len() == 7);
    assert forall|i: int| 0 <= i < 7 implies #[trigger] bindings_view(local)[i] == binding_view(
        local[i],
    ) by {}
    assert forall|i: int| 0 <= i < 7 implies #[trigger] bindings_view(global)[i] == binding_view(
        global[i],
    ) by {}
    let g = global;
    assert forall|t: int| 0 <= t < 7 implies {
        let k = #[trigger] g[t].key;
        k == KeyCode::Char('1') || k == KeyCode::Char('2') || k == KeyCode::Char('3') || k
            == KeyCode::Char('4') || k == KeyCode::Char('5') || k == KeyCode::Char('6') || k
            == KeyCode::Char('7')
    } by {
        assert(bindings_view(global)[t] == binding_view(global[t]));
    }
    assert(g[0].key == local[0].key);
    assert(g[1].key == local[1].key);
    assert(g[2].key == local[2].key);
    assert(g[3].key == local[3].key);
    assert(g[4].key == local[4].key);
    assert(local[5].key == KeyCode::Char('S'));
    assert(local[6].key == KeyCode::Char('d'));
    lemma_shadow_step(local, g, 0);
    lemma_shadow_step(local, g, 1);
    lemma_shadow_step(local, g, 2);
    lemma_shadow_step(local, g, 3);
    lemma_shadow_step(local, g, 4);
    lemma_shadow_step(local, g, 5);
    lemma_shadow_step(local, g, 6);
    assert(local.take(0) =~= Seq::<Binding>::empty());
    assert(local.take(7) =~= local);
    assert(shadowed_labels(local, g) =~= seq![
        local[0].label@,
        local[1].label@,
        local[2].label@,
        local[3].label@,
        local[4].label@,
    ]);
}

} // verus!
