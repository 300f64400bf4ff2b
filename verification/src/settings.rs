//! Settings that a key or a menu entry can toggle.

use vstd::prelude::*;

use crate::config::Config;
use crate::model::log::LogPreset;
use crate::model::log::LogPriority;

verus! {

/// A boolean setting of the configuration that the Settings screen toggles.
#[derive(Debug, Clone, Copy, PartialEq, Eq, Structural)]
pub enum SettingId {
    ConfirmSigterm,
    ConfirmSigkill,
    ConfirmServiceActions,
    EnableSmartProbes,
    DiagnosticsLightScan,
    Color,
    Wallboard,
}

/// The value of a switch: most live in the configuration; the wallboard
/// and color switches are the session's own.
pub open spec fn setting_value(config: Config, wallboard: bool, color: bool, id: SettingId) -> bool {
    match id {
        SettingId::ConfirmSigterm => config.confirm_sigterm,
        SettingId::ConfirmSigkill => config.confirm_sigkill,
        SettingId::ConfirmServiceActions => config.confirm_service_actions,
        SettingId::EnableSmartProbes => config.enable_smart_probes,
        SettingId::DiagnosticsLightScan => config.diagnostics_light_scan,
        SettingId::Wallboard => wallboard,
        SettingId::Color => color,
    }
}

/// The configuration and session switches after setting `id` to `value`;
/// the wallboard and color switches are written to the configuration too.
pub open spec fn with_setting(config: Config, wallboard: bool, color: bool, id: SettingId, value: bool) -> (
    Config,
    bool,
    bool,
) {
    match id {
        SettingId::ConfirmSigterm => (Config { confirm_sigterm: value, ..config }, wallboard, color),
        SettingId::ConfirmSigkill => (Config { confirm_sigkill: value, ..config }, wallboard, color),
        SettingId::ConfirmServiceActions => (
            Config { confirm_service_actions: value, ..config },
            wallboard,
            color,
        ),
        SettingId::EnableSmartProbes => (
            Config { enable_smart_probes: value, ..config },
            wallboard,
            color,
        ),
        SettingId::DiagnosticsLightScan => (
            Config { diagnostics_light_scan: value, ..config },
            wallboard,
            color,
        ),
        SettingId::Wallboard => (Config { wallboard_default: value, ..config }, value, color),
        SettingId::Color => (Config { color: value, ..config }, wallboard, value),
    }
}

/// The current value of a switch.
pub fn setting_bool(config: &Config, wallboard: bool, color: bool, id: SettingId) -> (b: bool)
    ensures
        b == setting_value(*config, wallboard, color, id),
{
    match id {
        SettingId::ConfirmSigterm => config.confirm_sigterm,
        SettingId::ConfirmSigkill => config.confirm_sigkill,
        SettingId::ConfirmServiceActions => config.confirm_service_actions,
        SettingId::EnableSmartProbes => config.enable_smart_probes,
        SettingId::DiagnosticsLightScan => config.diagnostics_light_scan,
        SettingId::Wallboard => wallboard,
        SettingId::Color => color,
    }
}

/// Sets a switch (until saved, for the configuration on disk).
pub fn set_setting(config: &mut Config, wallboard: &mut bool, color: &mut bool, id: SettingId, value: bool)
    ensures
        (*final(config), *final(wallboard), *final(color)) == with_setting(
            *old(config),
            *old(wallboard),
            *old(color),
            id,
            value,
        ),
{
    match id {
        SettingId::ConfirmSigterm => config.confirm_sigterm = value,
        SettingId::ConfirmSigkill => config.confirm_sigkill = value,
        SettingId::ConfirmServiceActions => config.confirm_service_actions = value,
        SettingId::EnableSmartProbes => config.enable_smart_probes = value,
        SettingId::DiagnosticsLightScan => config.diagnostics_light_scan = value,
        SettingId::Wallboard => {
            *wallboard = value;
            config.wallboard_default = value;
        },
        SettingId::Color => {
            *color = value;
            config.color = value;
        },
    }
}

/// Flips a switch; returns its new value.
pub fn toggle_setting(config: &mut Config, wallboard: &mut bool, color: &mut bool, id: SettingId) -> (v: bool)
    ensures
        v == !setting_value(*old(config), *old(wallboard), *old(color), id),
        (*final(config), *final(wallboard), *final(color)) == with_setting(
            *old(config),
            *old(wallboard),
            *old(color),
            id,
            v,
        ),
{
    let next = !setting_bool(config, *wallboard, *color, id);
    set_setting(config, wallboard, color, id, next);
    next
}

/// Setting a switch gives that value back when read, and leaves every other
/// switch as it was.
pub proof fn lemma_set_then_read(config: Config, wallboard: bool, color: bool, id: SettingId, value: bool, other: SettingId)
    ensures
        ({
            let (c, w, k) = with_setting(config, wallboard, color, id, value);
            &&& setting_value(c, w, k, id) == value
            &&& other != id ==> setting_value(c, w, k, other) == setting_value(
                config,
                wallboard,
                color,
                other,
            )
        }),
{
    match id {
        SettingId::ConfirmSigterm => {},
        SettingId::ConfirmSigkill => {},
        SettingId::ConfirmServiceActions => {},
        SettingId::EnableSmartProbes => {},
        SettingId::DiagnosticsLightScan => {},
        SettingId::Wallboard => {},
        SettingId::Color => {},
    }
}

/// Toggling a switch twice gives every switch its value back.
pub proof fn lemma_toggle_twice(config: Config, wallboard: bool, color: bool, id: SettingId, any: SettingId)
    ensures
        ({
            let (c1, w1, k1) = with_setting(
                config,
                wallboard,
                color,
                id,
                !setting_value(config, wallboard, color, id),
            );
            let (c2, w2, k2) = with_setting(c1, w1, k1, id, !setting_value(c1, w1, k1, id));
            setting_value(c2, w2, k2, any) == setting_value(config, wallboard, color, any)
        }),
{
    let v = !setting_value(config, wallboard, color, id);
    lemma_set_then_read(config, wallboard, color, id, v, any);
    let (c1, w1, k1) = with_setting(config, wallboard, color, id, v);
    lemma_set_then_read(c1, w1, k1, id, !setting_value(c1, w1, k1, id), any);
}

/// Steps the log preset back (negative `delta`) or forward; the Important
/// preset also sets the minimum priority to warning. Gives the new preset
/// and minimum, and the status line that reports them.
pub fn cycle_log_preset(preset: LogPreset, min_priority: LogPriority, delta: i8) -> (r: (
    LogPreset,
    LogPriority,
    String,
))
    ensures
        r.0 == (if delta < 0 {
            preset.preceding()
        } else {
            preset.following()
        }),
        r.1 == (if r.0 == LogPreset::Important {
            LogPriority::Warning
        } else {
            min_priority
        }),
        r.2@ == "log preset: "@ + r.0.label_text(),
{
    let next = if delta < 0 {
        preset.prev()
    } else {
        preset.next()
    };
    let min = if next == LogPreset::Important {
        LogPriority::Warning
    } else {
        min_priority
    };
    let mut status = String::from_str("log preset: ");
    status.append(next.label());
    (next, min, status)
}

} // verus!
