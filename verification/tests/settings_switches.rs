use server_tui::config::Config;
use server_tui::model::log::{LogPreset, LogPriority};
use server_tui::settings::{cycle_log_preset, set_setting, setting_bool, toggle_setting, SettingId};

const ALL: [SettingId; 7] = [
    SettingId::ConfirmSigterm,
    SettingId::ConfirmSigkill,
    SettingId::ConfirmServiceActions,
    SettingId::EnableSmartProbes,
    SettingId::DiagnosticsLightScan,
    SettingId::Color,
    SettingId::Wallboard,
];

#[test]
fn set_then_read_each_switch() {
    for id in ALL {
        for value in [true, false] {
            let mut config = Config::default();
            let (mut wallboard, mut color) = (false, true);
            let before: Vec<bool> = ALL.iter().map(|o| setting_bool(&config, wallboard, color, *o)).collect();
            set_setting(&mut config, &mut wallboard, &mut color, id, value);
            assert_eq!(setting_bool(&config, wallboard, color, id), value);
            for (i, other) in ALL.iter().enumerate() {
                if *other != id {
                    assert_eq!(setting_bool(&config, wallboard, color, *other), before[i]);
                }
            }
        }
    }
}

#[test]
fn session_switches_are_written_to_the_config() {
    let mut config = Config::default();
    let (mut wallboard, mut color) = (false, false);
    set_setting(&mut config, &mut wallboard, &mut color, SettingId::Wallboard, true);
    assert!(wallboard && config.wallboard_default);
    set_setting(&mut config, &mut wallboard, &mut color, SettingId::Color, true);
    assert!(color && config.color);
}

#[test]
fn toggling_twice_restores_every_switch() {
    let mut config = Config::default();
    config.confirm_sigkill = false;
    let (mut wallboard, mut color) = (true, false);
    for id in ALL {
        let before: Vec<bool> = ALL.iter().map(|o| setting_bool(&config, wallboard, color, *o)).collect();
        let first = toggle_setting(&mut config, &mut wallboard, &mut color, id);
        assert_eq!(first, !before[ALL.iter().position(|o| *o == id).unwrap()]);
        toggle_setting(&mut config, &mut wallboard, &mut color, id);
        let after: Vec<bool> = ALL.iter().map(|o| setting_bool(&config, wallboard, color, *o)).collect();
        assert_eq!(before, after);
    }
}

#[test]
fn log_preset_cycles_and_important_raises_the_minimum() {
    let (p, min, status) = cycle_log_preset(LogPreset::All, LogPriority::Debug, 1);
    assert_eq!(p, LogPreset::Important);
    assert_eq!(min, LogPriority::Warning);
    assert_eq!(status, "log preset: important");
    let (p, min, status) = cycle_log_preset(LogPreset::Important, LogPriority::Info, 1);
    assert_eq!(p, LogPreset::CurrentBoot);
    assert_eq!(min, LogPriority::Info);
    assert_eq!(status, "log preset: boot");
    let (p, _, _) = cycle_log_preset(LogPreset::CurrentBoot, LogPriority::Info, -1);
    assert_eq!(p, LogPreset::Important);
}
