use librazer::device::DeviceInfo;
use librazer::menu::{
    build_menu, choice_menu, fan_choice, fan_menu, manual_fan_plan, perf_mode_options, Action,
    Choice, FanChoice, Features,
};
use librazer::types::{BatteryCare, CpuBoost, FanMode, LogoMode, PerfMode};

#[test]
fn menu_without_optional_features() {
    let f = Features { kbd_backlight: false, lid_logo: false, battery_care: false, lights_always_on: false };
    let items = build_menu(&f);
    let actions: Vec<Action> = items.iter().map(|i| i.action).collect();
    assert_eq!(
        actions,
        vec![Action::PerfMode, Action::CpuBoost, Action::GpuBoost, Action::FanControl, Action::MaxFanSpeed, Action::Exit]
    );
    let labels: Vec<&str> = items.iter().map(|i| i.label).collect();
    assert_eq!(labels, vec!["Performance Mode", "CPU Boost", "GPU Boost", "Fan Control", "Max Fan Speed", "Exit"]);
}

#[test]
fn menu_with_some_features() {
    let f = Features { kbd_backlight: true, lid_logo: false, battery_care: true, lights_always_on: true };
    let actions: Vec<Action> = build_menu(&f).iter().map(|i| i.action).collect();
    assert_eq!(
        actions,
        vec![
            Action::PerfMode,
            Action::CpuBoost,
            Action::GpuBoost,
            Action::FanControl,
            Action::MaxFanSpeed,
            Action::KeyboardBrightness,
            Action::BatteryCare,
            Action::LightsAlwaysOn,
            Action::Exit
        ]
    );
    let f = Features { kbd_backlight: false, lid_logo: true, battery_care: false, lights_always_on: false };
    let items = build_menu(&f);
    assert_eq!(items[5].action, Action::LogoMode);
    assert_eq!(items[5].label, "Logo Mode");
}

#[test]
fn choice_menu_marks_current() {
    let options = [CpuBoost::Low, CpuBoost::Medium, CpuBoost::High, CpuBoost::Boost, CpuBoost::Overclock];
    let m = choice_menu(&options, Some(CpuBoost::High));
    assert_eq!(m.labels, vec!["Low", "Medium", "High (current)", "Boost", "Overclock"]);
    assert_eq!(m.default, 2);
    let m = choice_menu(&options, None);
    assert_eq!(m.labels, vec!["Low", "Medium", "High", "Boost", "Overclock"]);
    assert_eq!(m.default, 0);
}

#[test]
fn choice_menu_current_missing_or_repeated() {
    let m = choice_menu(&[LogoMode::Static, LogoMode::Breathing], Some(LogoMode::Off));
    assert_eq!(m.labels, vec!["Static", "Breathing"]);
    assert_eq!(m.default, 0);
    let m = choice_menu(&[BatteryCare::Disable, BatteryCare::Enable, BatteryCare::Enable], Some(BatteryCare::Enable));
    assert_eq!(m.labels, vec!["Disable", "Enable (current)", "Enable (current)"]);
    assert_eq!(m.default, 1);
    let empty: [PerfMode; 0] = [];
    let m = choice_menu(&empty, Some(PerfMode::Silent));
    assert!(m.labels.is_empty());
    assert_eq!(m.default, 0);
}

#[test]
fn choice_names() {
    assert_eq!(PerfMode::Balanced.name(), "Balanced");
    assert!(PerfMode::Custom.same(PerfMode::Custom));
    assert!(!PerfMode::Custom.same(PerfMode::Silent));
}

#[test]
fn perf_mode_options_default_and_listed() {
    let info = DeviceInfo { perf_modes: None, fan_zones: 2 };
    assert_eq!(perf_mode_options(&info), vec![PerfMode::Silent, PerfMode::Balanced, PerfMode::Custom]);
    let info = DeviceInfo { perf_modes: Some(vec![PerfMode::Balanced, PerfMode::Custom]), fan_zones: 2 };
    assert_eq!(perf_mode_options(&info), vec![PerfMode::Balanced, PerfMode::Custom]);
    assert!(info.supports(PerfMode::Custom));
    assert!(!info.supports(PerfMode::Silent));
}

#[test]
fn manual_fan_plan_steps() {
    let p = manual_fan_plan(PerfMode::Custom, FanMode::Manual);
    assert!(p.switch_to_balanced && p.set_manual);
    let p = manual_fan_plan(PerfMode::Balanced, FanMode::Auto);
    assert!(!p.switch_to_balanced && p.set_manual);
    let p = manual_fan_plan(PerfMode::Balanced, FanMode::Manual);
    assert!(!p.switch_to_balanced && !p.set_manual);
}

#[test]
fn fan_menu_entries_and_choices() {
    let entries = fan_menu();
    assert_eq!(entries, vec![FanChoice::Auto, FanChoice::Manual, FanChoice::Back]);
    let labels: Vec<&str> = entries.iter().map(|e| e.label()).collect();
    assert_eq!(labels, vec!["Auto", "Manual (set RPM)", "Back"]);
    assert_eq!(fan_choice(Some(0)), FanChoice::Auto);
    assert_eq!(fan_choice(Some(1)), FanChoice::Manual);
    assert_eq!(fan_choice(Some(2)), FanChoice::Back);
    assert_eq!(fan_choice(None), FanChoice::Back);
}
