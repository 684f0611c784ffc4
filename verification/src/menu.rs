//! Decisions of the interactive menu: which entries it offers, how a list
//! of choices is labelled and which choice is preselected, and which steps
//! manual fan control needs.  The prompts themselves belong to the caller.
use vstd::prelude::*;

use crate::device::DeviceInfo;
use crate::types::{
    BatteryCare, CpuBoost, FanMode, GpuBoost, LightsAlwaysOn, LogoMode, MaxFanSpeedMode, PerfMode,
};

verus! {

/// An entry of the main menu.
#[derive(Clone, Copy, Debug, PartialEq, Eq, Structural)]
pub enum Action {
    PerfMode,
    CpuBoost,
    GpuBoost,
    FanControl,
    MaxFanSpeed,
    KeyboardBrightness,
    LogoMode,
    BatteryCare,
    LightsAlwaysOn,
    Exit,
}

impl Action {
    pub open spec fn spec_label(self) -> Seq<char> {
        match self {
            Action::PerfMode => "Performance Mode"@,
            Action::CpuBoost => "CPU Boost"@,
            Action::GpuBoost => "GPU Boost"@,
            Action::FanControl => "Fan Control"@,
            Action::MaxFanSpeed => "Max Fan Speed"@,
            Action::KeyboardBrightness => "Keyboard Brightness"@,
            Action::LogoMode => "Logo Mode"@,
            Action::BatteryCare => "Battery Care"@,
            Action::LightsAlwaysOn => "Lights Always On"@,
            Action::Exit => "Exit"@,
        }
    }

    /// The text of the entry.
    pub fn label(self) -> (s: &'static str)
        ensures
            s@ == self.spec_label(),
    {
        match self {
            Action::PerfMode => "Performance Mode",
            Action::CpuBoost => "CPU Boost",
            Action::GpuBoost => "GPU Boost",
            Action::FanControl => "Fan Control",
            Action::MaxFanSpeed => "Max Fan Speed",
            Action::KeyboardBrightness => "Keyboard Brightness",
            Action::LogoMode => "Logo Mode",
            Action::BatteryCare => "Battery Care",
            Action::LightsAlwaysOn => "Lights Always On",
            Action::Exit => "Exit",
        }
    }
}

/// An entry of the main menu with its text.
#[derive(Clone, Copy, Debug)]
pub struct MenuItem {
    pub label: &'static str,
    pub action: Action,
}

/// The optional features of a laptop model that the menu depends on.
#[derive(Clone, Copy, Debug)]
pub struct Features {
    pub kbd_backlight: bool,
    pub lid_logo: bool,
    pub battery_care: bool,
    pub lights_always_on: bool,
}

/// `seq![a]` when `present`, nothing otherwise.
pub open spec fn entry_if(present: bool, a: Action) -> Seq<Action> {
    if present {
        seq![a]
    } else {
        seq![]
    }
}

/// The main menu: performance, boosts and fans always; each optional
/// feature that the model has; Exit last.
pub open spec fn menu_actions(features: Features) -> Seq<Action> {
    seq![Action::PerfMode, Action::CpuBoost, Action::GpuBoost, Action::FanControl, Action::MaxFanSpeed]
        + entry_if(features.kbd_backlight, Action::KeyboardBrightness)
        + entry_if(features.lid_logo, Action::LogoMode)
        + entry_if(features.battery_care, Action::BatteryCare)
        + entry_if(features.lights_always_on, Action::LightsAlwaysOn)
        + seq![Action::Exit]
}

fn push_item(items: &mut Vec<MenuItem>, action: Action)
    ensures
        final(items)@.len() == old(items)@.len() + 1,
        forall|i: int| 0 <= i < old(items)@.len() ==> final(items)@[i] == old(items)@[i],
        final(items)@.last().action == action,
        final(items)@.last().label@ == action.spec_label(),
{
    items.push(MenuItem { label: action.label(), action });
}

/// The actions of `items`, in order.
pub open spec fn item_actions(items: Seq<MenuItem>) -> Seq<Action> {
    items.map_values(|item: MenuItem| item.action)
}

/// Builds the main menu for a model with `features`.
pub fn build_menu(features: &Features) -> (items: Vec<MenuItem>)
    ensures
        item_actions(items@) == menu_actions(*features),
        forall|i: int| 0 <= i < items@.len() ==> #[trigger] items@[i].label@ == items@[i].action.spec_label(),
{
    let mut items: Vec<MenuItem> = Vec::new();
    push_item(&mut items, Action::PerfMode);
    push_item(&mut items, Action::CpuBoost);
    push_item(&mut items, Action::GpuBoost);
    push_item(&mut items, Action::FanControl);
    push_item(&mut items, Action::MaxFanSpeed);
    let ghost fixed = item_actions(items@);
    assert(fixed =~= seq![Action::PerfMode, Action::CpuBoost, Action::GpuBoost, Action::FanControl, Action::MaxFanSpeed]);
    let ghost before = items@;
    if features.kbd_backlight {
        push_item(&mut items, Action::KeyboardBrightness);
    }
    assert(item_actions(items@) =~= item_actions(before) + entry_if(features.kbd_backlight, Action::KeyboardBrightness));
    let ghost before = items@;
    if features.lid_logo {
        push_item(&mut items, Action::LogoMode);
    }
    assert(item_actions(items@) =~= item_actions(before) + entry_if(features.lid_logo, Action::LogoMode));
    let ghost before = items@;
    if features.battery_care {
        push_item(&mut items, Action::BatteryCare);
    }
    assert(item_actions(items@) =~= item_actions(before) + entry_if(features.battery_care, Action::BatteryCare));
    let ghost before = items@;
    if features.lights_always_on {
        push_item(&mut items, Action::LightsAlwaysOn);
    }
    assert(item_actions(items@) =~= item_actions(before) + entry_if(features.lights_always_on, Action::LightsAlwaysOn));
    let ghost before = items@;
    push_item(&mut items, Action::Exit);
    assert(item_actions(items@) =~= item_actions(before) + seq![Action::Exit]);
    items
}


/// The main menu opens with the performance entry, closes with Exit, and
/// offers an optional entry exactly when the model has its feature.
pub proof fn law_menu_follows_features(features: Features)
    ensures
        menu_actions(features)[0] == Action::PerfMode,
        menu_actions(features).last() == Action::Exit,
        menu_actions(features).contains(Action::KeyboardBrightness) <==> features.kbd_backlight,
        menu_actions(features).contains(Action::LogoMode) <==> features.lid_logo,
        menu_actions(features).contains(Action::BatteryCare) <==> features.battery_care,
        menu_actions(features).contains(Action::LightsAlwaysOn) <==> features.lights_always_on,
{
    let m = menu_actions(features);
    let k = 5 + (if features.kbd_backlight { 1int } else { 0 });
    let l = k + (if features.lid_logo { 1int } else { 0 });
    let b = l + (if features.battery_care { 1int } else { 0 });
    if features.kbd_backlight {
        assert(m[5] == Action::KeyboardBrightness);
    }
    if features.lid_logo {
        assert(m[k] == Action::LogoMode);
    }
    if features.battery_care {
        assert(m[l] == Action::BatteryCare);
    }
    if features.lights_always_on {
        assert(m[b] == Action::LightsAlwaysOn);
    }
}

/// A value that the menu offers as one of a list of choices.
pub trait Choice: Copy + Sized {
    spec fn spec_name(self) -> Seq<char>;

    /// The name shown for the value.
    fn name(self) -> (s: &'static str)
        ensures
            s@ == self.spec_name(),
    ;

    /// Whether the two values are the same.
    fn same(self, other: Self) -> (b: bool)
        ensures
            b == (self == other),
    ;
}

impl Choice for PerfMode {
    open spec fn spec_name(self) -> Seq<char> {
        match self {
            PerfMode::Balanced => "Balanced"@,
            PerfMode::Silent => "Silent"@,
            PerfMode::Custom => "Custom"@,
        }
    }

    fn name(self) -> (s: &'static str) {
        match self {
            PerfMode::Balanced => "Balanced",
            PerfMode::Silent => "Silent",
            PerfMode::Custom => "Custom",
        }
    }

    fn same(self, other: Self) -> (b: bool) {
        self == other
    }
}

impl Choice for CpuBoost {
    open spec fn spec_name(self) -> Seq<char> {
        match self {
            CpuBoost::Low => "Low"@,
            CpuBoost::Medium => "Medium"@,
            CpuBoost::High => "High"@,
            CpuBoost::Boost => "Boost"@,
            CpuBoost::Overclock => "Overclock"@,
        }
    }

    fn name(self) -> (s: &'static str) {
        match self {
            CpuBoost::Low => "Low",
            CpuBoost::Medium => "Medium",
            CpuBoost::High => "High",
            CpuBoost::Boost => "Boost",
            CpuBoost::Overclock => "Overclock",
        }
    }

    fn same(self, other: Self) -> (b: bool) {
        self == other
    }
}

impl Choice for GpuBoost {
    open spec fn spec_name(self) -> Seq<char> {
        match self {
            GpuBoost::Low => "Low"@,
            GpuBoost::Medium => "Medium"@,
            GpuBoost::High => "High"@,
        }
    }

    fn name(self) -> (s: &'static str) {
        match self {
            GpuBoost::Low => "Low",
            GpuBoost::Medium => "Medium",
            GpuBoost::High => "High",
        }
    }

    fn same(self, other: Self) -> (b: bool) {
        self == other
    }
}

impl Choice for MaxFanSpeedMode {
    open spec fn spec_name(self) -> Seq<char> {
        match self {
            MaxFanSpeedMode::Enable => "Enable"@,
            MaxFanSpeedMode::Disable => "Disable"@,
        }
    }

    fn name(self) -> (s: &'static str) {
        match self {
            MaxFanSpeedMode::Enable => "Enable",
            MaxFanSpeedMode::Disable => "Disable",
        }
    }

    fn same(self, other: Self) -> (b: bool) {
        self == other
    }
}

impl Choice for LogoMode {
    open spec fn spec_name(self) -> Seq<char> {
        match self {
            LogoMode::Off => "Off"@,
            LogoMode::Static => "Static"@,
            LogoMode::Breathing => "Breathing"@,
        }
    }

    fn name(self) -> (s: &'static str) {
        match self {
            LogoMode::Off => "Off",
            LogoMode::Static => "Static",
            LogoMode::Breathing => "Breathing",
        }
    }

    fn same(self, other: Self) -> (b: bool) {
        self == other
    }
}

impl Choice for BatteryCare {
    open spec fn spec_name(self) -> Seq<char> {
        match self {
            BatteryCare::Enable => "Enable"@,
            BatteryCare::Disable => "Disable"@,
        }
    }

    fn name(self) -> (s: &'static str) {
        match self {
            BatteryCare::Enable => "Enable",
            BatteryCare::Disable => "Disable",
        }
    }

    fn same(self, other: Self) -> (b: bool) {
        self == other
    }
}

impl Choice for LightsAlwaysOn {
    open spec fn spec_name(self) -> Seq<char> {
        match self {
            LightsAlwaysOn::Enable => "Enable"@,
            LightsAlwaysOn::Disable => "Disable"@,
        }
    }

    fn name(self) -> (s: &'static str) {
        match self {
            LightsAlwaysOn::Enable => "Enable",
            LightsAlwaysOn::Disable => "Disable",
        }
    }

    fn same(self, other: Self) -> (b: bool) {
        self == other
    }
}

/// The text of a choice: its name, marked when it is the current value.
pub open spec fn choice_label<T: Choice>(option: T, current: Option<T>) -> Seq<char> {
    if current == Some(option) {
        option.spec_name() + " (current)"@
    } else {
        option.spec_name()
    }
}

/// The labelled choices of a menu and the position preselected in it.
pub struct ChoiceMenu {
    pub labels: Vec<String>,
    pub default: usize,
}

/// Labels `options`, marking the current value, and preselects the first
/// position that holds the current value, or the first position when the
/// current value is unknown or not among the options.
pub fn choice_menu<T: Choice>(options: &[T], current: Option<T>) -> (menu: ChoiceMenu)
    ensures
        menu.labels@.len() == options@.len(),
        forall|i: int|
            0 <= i < options@.len() ==> #[trigger] menu.labels@[i]@ == choice_label(options@[i], current),
        match current {
            Some(c) if options@.contains(c) => {
                &&& menu.default < options@.len()
                &&& options@[menu.default as int] == c
                &&& forall|j: int| 0 <= j < menu.default ==> options@[j] != c
            },
            _ => menu.default == 0,
        },
{
    let mut labels: Vec<String> = Vec::new();
    let mut default: usize = 0;
    let mut found = false;
    let mut i: usize = 0;
    while i < options.len()
        invariant
            i <= options@.len(),
            labels@.len() == i,
            forall|j: int| 0 <= j < i ==> #[trigger] labels@[j]@ == choice_label(options@[j], current),
            found ==> default < i && current == Some(options@[default as int]),
            found ==> forall|j: int| 0 <= j < default ==> Some(options@[j]) != current,
            !found ==> default == 0 && forall|j: int| 0 <= j < i ==> Some(options@[j]) != current,
        decreases options@.len() - i,
    {
        let option = options[i];
        let is_current = match current {
            Some(c) => c.same(option),
            None => false,
        };
        let mut label = String::from_str(option.name());
        if is_current {
            label.append(" (current)");
            if !found {
                found = true;
                default = i;
            }
        }
        labels.push(label);
        i = i + 1;
    }
    proof {
        if let Some(c) = current {
            if options@.contains(c) {
                let k = choose|k: int| 0 <= k < options@.len() && options@[k] == c;
                assert(Some(options@[k]) == current);
            }
        }
    }
    ChoiceMenu { labels, default }
}

/// The performance modes offered: those of the model, or all three when the
/// model does not list them.
pub fn perf_mode_options(device: &DeviceInfo) -> (modes: Vec<PerfMode>)
    ensures
        modes@ == match device.perf_modes {
            Some(listed) => listed@,
            None => seq![PerfMode::Silent, PerfMode::Balanced, PerfMode::Custom],
        },
{
    match device.perf_modes.as_ref() {
        Some(listed) => {
            let mut modes: Vec<PerfMode> = Vec::new();
            let mut i: usize = 0;
            while i < listed.len()
                invariant
                    i <= listed@.len(),
                    modes@ =~= listed@.take(i as int),
                decreases listed@.len() - i,
            {
                modes.push(listed[i]);
                i = i + 1;
            }
            modes
        },
        None => {
            let modes = vec![PerfMode::Silent, PerfMode::Balanced, PerfMode::Custom];
            assert(modes@ =~= seq![PerfMode::Silent, PerfMode::Balanced, PerfMode::Custom]);
            modes
        },
    }
}

/// The steps that put the fans under manual control, from the current
/// performance and fan modes.
pub struct ManualFanPlan {
    /// Switch to the Balanced performance mode first (the user is asked).
    pub switch_to_balanced: bool,
    /// Then set the fan mode to Manual.
    pub set_manual: bool,
}

/// Manual fan control needs Balanced mode; the fan mode is set to Manual
/// unless it already is in Balanced mode.
pub fn manual_fan_plan(perf: PerfMode, fan: FanMode) -> (plan: ManualFanPlan)
    ensures
        plan.switch_to_balanced == (perf != PerfMode::Balanced),
        plan.set_manual == (fan != FanMode::Manual || perf != PerfMode::Balanced),
{
    ManualFanPlan {
        switch_to_balanced: perf != PerfMode::Balanced,
        set_manual: fan != FanMode::Manual || perf != PerfMode::Balanced,
    }
}

/// An entry of the fan control menu.
#[derive(Clone, Copy, Debug, PartialEq, Eq, Structural)]
pub enum FanChoice {
    Auto,
    Manual,
    Back,
}

impl FanChoice {
    /// The text of the entry.
    pub fn label(self) -> (s: &'static str)
        ensures
            s@ == (match self {
                FanChoice::Auto => "Auto"@,
                FanChoice::Manual => "Manual (set RPM)"@,
                FanChoice::Back => "Back"@,
            }),
    {
        match self {
            FanChoice::Auto => "Auto",
            FanChoice::Manual => "Manual (set RPM)",
            FanChoice::Back => "Back",
        }
    }
}

/// The fan control menu, in order.
pub fn fan_menu() -> (entries: Vec<FanChoice>)
    ensures
        entries@ == seq![FanChoice::Auto, FanChoice::Manual, FanChoice::Back],
{
    let entries = vec![FanChoice::Auto, FanChoice::Manual, FanChoice::Back];
    assert(entries@ =~= seq![FanChoice::Auto, FanChoice::Manual, FanChoice::Back]);
    entries
}

/// What a selection in the fan control menu means; no selection (Escape)
/// and any position past the menu go back.
pub fn fan_choice(selection: Option<usize>) -> (choice: FanChoice)
    ensures
        choice == (match selection {
            Some(0) => FanChoice::Auto,
            Some(1) => FanChoice::Manual,
            _ => FanChoice::Back,
        }),
{
    match selection {
        Some(0) => FanChoice::Auto,
        Some(1) => FanChoice::Manual,
        _ => FanChoice::Back,
    }
}
} // verus!
