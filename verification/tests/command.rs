use librazer::command::{
    self, Step, GET_BATTERY_CARE, GET_BOOST, GET_FAN_RPM, GET_FIRMWARE_VERSION, GET_KBD_BRIGHTNESS,
    GET_LIGHTS_ALWAYS_ON, GET_LOGO_MODE, GET_LOGO_POWER, GET_MAX_FAN_SPEED, GET_PERF_MODE,
    SET_BATTERY_CARE, SET_BOOST, SET_FAN_RPM, SET_KBD_BRIGHTNESS, SET_LIGHTS_ALWAYS_ON,
    SET_LOGO_MODE, SET_LOGO_POWER, SET_MAX_FAN_SPEED, SET_PERF_MODE, GET_ACTUAL_FAN_RPM,
};
use librazer::device::DeviceInfo;
use librazer::error::{Precondition, RazerError, ValueKind};
use librazer::packet::Packet;
use librazer::types::{
    BatteryCare, CpuBoost, FanMode, FanZone, GpuBoost, LightsAlwaysOn, LogoMode, MaxFanSpeedMode,
    PerfMode,
};

/// Runs an operation against `device`, which answers each request; returns
/// the outcome and the requests sent, as (command, args).
fn run<T>(
    op: impl Fn(&[Packet]) -> Step<T>,
    mut device: impl FnMut(&Packet) -> Packet,
) -> (Result<T, RazerError>, Vec<(u16, Vec<u8>)>) {
    let mut replies: Vec<Packet> = Vec::new();
    let mut sent = Vec::new();
    loop {
        match op(&replies) {
            Step::Send(req) => {
                sent.push((req.get_command(), req.get_args().to_vec()));
                let reply = device(&req);
                assert!(reply.get_args().len() >= req.get_args().len());
                replies.push(reply);
            }
            Step::Done(r) => return (r, sent),
        }
    }
}

/// A device that echoes every request.
fn echo(req: &Packet) -> Packet {
    req.clone()
}

/// A device that answers every request with `args`.
fn answer(args: &'static [u8]) -> impl FnMut(&Packet) -> Packet {
    move |req: &Packet| Packet::new(req.get_command(), args)
}

/// A device that answers the performance-mode query with `perf`/`fan` and
/// echoes everything else.
fn in_mode(perf: PerfMode, fan: FanMode) -> impl FnMut(&Packet) -> Packet {
    move |req: &Packet| {
        if req.get_command() == GET_PERF_MODE {
            Packet::new(GET_PERF_MODE, &[0, 1, perf.to_byte(), fan.to_byte()])
        } else {
            req.clone()
        }
    }
}

fn any_mode() -> DeviceInfo {
    DeviceInfo { perf_modes: None, fan_zones: 2 }
}

#[test]
fn packet_new_pads_argument_area() {
    let p = Packet::new(0x0d82, &[0, 1, 0, 0]);
    assert_eq!(p.get_command(), 0x0d82);
    assert_eq!(p.get_args(), &[0, 1, 0, 0]);
    assert_eq!(p.get_raw_args().len(), 80);
    assert!(p.get_raw_args()[4..].iter().all(|b| *b == 0));
}

#[test]
fn packet_from_reply_checks_sizes() {
    let p = Packet::from_reply(1, 1, &[7, 8, 9]).unwrap();
    assert_eq!(p.get_args(), &[7]);
    assert_eq!(&p.get_raw_args()[..4], &[7, 8, 9, 0]);
    assert!(Packet::from_reply(1, 81, &[]).is_none());
    assert!(Packet::from_reply(1, 0, &[0u8; 81]).is_none());
}

#[test]
fn get_perf_mode_reads_mode_and_fan() {
    let (r, sent) = run(command::get_perf_mode, answer(&[0, 1, 4, 1]));
    assert_eq!(r, Ok((PerfMode::Custom, FanMode::Manual)));
    assert_eq!(sent, vec![(GET_PERF_MODE, vec![0, 1, 0, 0])]);
}

#[test]
fn get_perf_mode_rejects_unknown_bytes() {
    let (r, _) = run(command::get_perf_mode, answer(&[0, 1, 9, 0]));
    assert_eq!(r, Err(RazerError::InvalidValue { value: 9, kind: ValueKind::PerfMode }));
    let (r, _) = run(command::get_perf_mode, answer(&[0, 1, 5, 7]));
    assert_eq!(r, Err(RazerError::InvalidValue { value: 7, kind: ValueKind::FanMode }));
}

#[test]
fn set_perf_mode_sets_every_zone_with_auto_fan() {
    let info = any_mode();
    let (r, sent) = run(|rs: &[Packet]| command::set_perf_mode(&info, PerfMode::Silent, rs), echo);
    assert_eq!(r, Ok(()));
    assert_eq!(
        sent,
        vec![(SET_PERF_MODE, vec![1, 1, 5, 0]), (SET_PERF_MODE, vec![1, 2, 5, 0])]
    );
}

#[test]
fn set_perf_mode_refuses_unsupported_mode() {
    let info = DeviceInfo { perf_modes: Some(vec![PerfMode::Balanced, PerfMode::Silent]), fan_zones: 2 };
    let (r, sent) = run(|rs: &[Packet]| command::set_perf_mode(&info, PerfMode::Custom, rs), echo);
    assert_eq!(
        r,
        Err(RazerError::PreconditionFailed(Precondition::UnsupportedPerfMode(PerfMode::Custom)))
    );
    assert!(sent.is_empty());
    let (r, _) = run(|rs: &[Packet]| command::set_perf_mode(&info, PerfMode::Silent, rs), echo);
    assert_eq!(r, Ok(()));
}

#[test]
fn set_perf_mode_reports_mismatch_and_stops() {
    let info = any_mode();
    let (r, sent) = run(|rs: &[Packet]| command::set_perf_mode(&info, PerfMode::Balanced, rs), answer(&[1, 1, 4, 0]));
    assert_eq!(r, Err(RazerError::ResponseMismatch));
    assert_eq!(sent.len(), 1);
}

#[test]
fn set_cpu_boost_in_custom_mode() {
    let (r, sent) = run(|rs: &[Packet]| command::set_cpu_boost(CpuBoost::Boost, rs), in_mode(PerfMode::Custom, FanMode::Auto));
    assert_eq!(r, Ok(()));
    assert_eq!(sent, vec![(GET_PERF_MODE, vec![0, 1, 0, 0]), (SET_BOOST, vec![0, 1, 3])]);
}

#[test]
fn set_gpu_boost_needs_custom_mode() {
    let (r, sent) = run(|rs: &[Packet]| command::set_gpu_boost(GpuBoost::High, rs), in_mode(PerfMode::Balanced, FanMode::Auto));
    assert_eq!(
        r,
        Err(RazerError::PreconditionFailed(Precondition::PerfModeRequired(PerfMode::Custom)))
    );
    assert_eq!(sent, vec![(GET_PERF_MODE, vec![0, 1, 0, 0])]);
    let (r, sent) = run(|rs: &[Packet]| command::set_gpu_boost(GpuBoost::High, rs), in_mode(PerfMode::Custom, FanMode::Auto));
    assert_eq!(r, Ok(()));
    assert_eq!(sent[1], (SET_BOOST, vec![0, 2, 2]));
}

#[test]
fn get_boost_checks_cluster() {
    let (r, sent) = run(command::get_cpu_boost, answer(&[0, 1, 4]));
    assert_eq!(r, Ok(CpuBoost::Overclock));
    assert_eq!(sent, vec![(GET_BOOST, vec![0, 1, 0])]);
    let (r, _) = run(command::get_gpu_boost, answer(&[0, 1, 1]));
    assert_eq!(r, Err(RazerError::ResponseMismatch));
    let (r, _) = run(command::get_gpu_boost, answer(&[0, 2, 1]));
    assert_eq!(r, Ok(GpuBoost::Medium));
    let (r, _) = run(command::get_gpu_boost, answer(&[0, 2, 3]));
    assert_eq!(r, Err(RazerError::InvalidValue { value: 3, kind: ValueKind::GpuBoost }));
}

#[test]
fn boost_reads_back_what_was_set() {
    // a reply that echoes the set request, given to the query
    let set = Packet::new(SET_BOOST, &[0, 1, CpuBoost::High.to_byte()]);
    let (r, _) = run(command::get_cpu_boost, |_req: &Packet| Packet::new(GET_BOOST, set.get_args()));
    assert_eq!(r, Ok(CpuBoost::High));
}

#[test]
fn set_fan_rpm_range_and_mode() {
    let info = any_mode();
    for rpm in [0u16, 1999, 5001, 65535] {
        let (r, sent) = run(|rs: &[Packet]| command::set_fan_rpm(&info, rpm, rs), echo);
        assert_eq!(r, Err(RazerError::PreconditionFailed(Precondition::RpmOutOfRange(rpm))));
        assert!(sent.is_empty());
    }
    let (r, _) = run(|rs: &[Packet]| command::set_fan_rpm(&info, 3000, rs), in_mode(PerfMode::Balanced, FanMode::Auto));
    assert_eq!(r, Err(RazerError::PreconditionFailed(Precondition::BalancedManualRequired)));
    let (r, sent) = run(|rs: &[Packet]| command::set_fan_rpm(&info, 3456, rs), in_mode(PerfMode::Balanced, FanMode::Manual));
    assert_eq!(r, Ok(()));
    assert_eq!(
        sent,
        vec![
            (GET_PERF_MODE, vec![0, 1, 0, 0]),
            (SET_FAN_RPM, vec![0, 1, 34]),
            (SET_FAN_RPM, vec![0, 2, 34]),
        ]
    );
}

#[test]
fn set_fan_rpm_drives_at_most_four_fans() {
    let info = DeviceInfo { perf_modes: None, fan_zones: 9 };
    let (r, sent) = run(|rs: &[Packet]| command::set_fan_rpm(&info, 2000, rs), in_mode(PerfMode::Balanced, FanMode::Manual));
    assert_eq!(r, Ok(()));
    let zones: Vec<u8> = sent[1..].iter().map(|(_, a)| a[1]).collect();
    assert_eq!(zones, vec![1, 2, 3, 4]);
    assert!(sent[1..].iter().all(|(c, a)| *c == SET_FAN_RPM && a[2] == 20));
    let info = DeviceInfo { perf_modes: None, fan_zones: 0 };
    let (r, sent) = run(|rs: &[Packet]| command::set_fan_rpm(&info, 2000, rs), in_mode(PerfMode::Balanced, FanMode::Manual));
    assert_eq!(r, Ok(()));
    assert_eq!(sent.len(), 1);
}

#[test]
fn get_fan_rpm_scales_by_hundred() {
    let (r, sent) = run(|rs: &[Packet]| command::get_fan_rpm(FanZone::Zone2, rs), answer(&[0, 2, 35]));
    assert_eq!(r, Ok(3500));
    assert_eq!(sent, vec![(GET_FAN_RPM, vec![0, 2, 0])]);
    let (r, _) = run(|rs: &[Packet]| command::get_fan_rpm(FanZone::Zone1, rs), answer(&[0, 2, 35]));
    assert_eq!(r, Err(RazerError::ResponseMismatch));
    let (r, sent) = run(|rs: &[Packet]| command::get_actual_fan_rpm(FanZone::Zone1, rs), answer(&[0, 1, 255]));
    assert_eq!(r, Ok(25500));
    assert_eq!(sent, vec![(GET_ACTUAL_FAN_RPM, vec![0, 1, 0])]);
}

#[test]
fn fan_rpm_reads_back_rounded_down() {
    let info = any_mode();
    let (_, sent) = run(|rs: &[Packet]| command::set_fan_rpm(&info, 4321, rs), in_mode(PerfMode::Balanced, FanMode::Manual));
    let args = sent[1].1.clone();
    let (r, _) = run(|rs: &[Packet]| command::get_fan_rpm(FanZone::Zone1, rs), move |_req: &Packet| Packet::new(GET_FAN_RPM, &args));
    assert_eq!(r, Ok(4300));
}

fn firmware_reply(area: &'static [u8]) -> impl FnMut(&Packet) -> Packet {
    move |_req: &Packet| Packet::from_reply(GET_FIRMWARE_VERSION, 1, area).unwrap()
}

#[test]
fn firmware_version_formats() {
    let (r, sent) = run(command::get_firmware_version, firmware_reply(&[1, 0, 0, 0, 0x30, 0x31, 0x30, 0x33]));
    assert_eq!(r, Ok("v01.03".to_string()));
    assert_eq!(sent, vec![(GET_FIRMWARE_VERSION, vec![0])]);
    let (r, _) = run(command::get_firmware_version, firmware_reply(&[0x31, 0x32, 0x33, 0x34, 0x35]));
    assert_eq!(r, Ok("v12.34".to_string()));
    let (r, _) = run(command::get_firmware_version, firmware_reply(&[1, 0x37, 0, 0x38]));
    assert_eq!(r, Ok("78".to_string()));
    let (r, _) = run(command::get_firmware_version, firmware_reply(&[1, 2, 3]));
    assert_eq!(r, Err(RazerError::ResponseMismatch));
}

#[test]
fn max_fan_speed_needs_custom() {
    let (r, sent) = run(|rs: &[Packet]| command::set_max_fan_speed_mode(MaxFanSpeedMode::Enable, rs), in_mode(PerfMode::Custom, FanMode::Manual));
    assert_eq!(r, Ok(()));
    assert_eq!(sent[1], (SET_MAX_FAN_SPEED, vec![2]));
    let (r, sent) = run(|rs: &[Packet]| command::set_max_fan_speed_mode(MaxFanSpeedMode::Enable, rs), in_mode(PerfMode::Silent, FanMode::Auto));
    assert_eq!(r, Err(RazerError::PreconditionFailed(Precondition::PerfModeRequired(PerfMode::Custom))));
    assert_eq!(sent.len(), 1);
    let (r, sent) = run(command::get_max_fan_speed_mode, answer(&[0]));
    assert_eq!(r, Ok(MaxFanSpeedMode::Disable));
    assert_eq!(sent, vec![(GET_MAX_FAN_SPEED, vec![0])]);
    let (r, _) = run(command::get_max_fan_speed_mode, answer(&[1]));
    assert_eq!(r, Err(RazerError::InvalidValue { value: 1, kind: ValueKind::MaxFanSpeedMode }));
}

#[test]
fn set_fan_mode_needs_balanced() {
    let info = any_mode();
    let (r, sent) = run(|rs: &[Packet]| command::set_fan_mode(&info, FanMode::Manual, rs), in_mode(PerfMode::Balanced, FanMode::Auto));
    assert_eq!(r, Ok(()));
    assert_eq!(
        sent,
        vec![
            (GET_PERF_MODE, vec![0, 1, 0, 0]),
            (SET_PERF_MODE, vec![1, 1, 0, 1]),
            (SET_PERF_MODE, vec![1, 2, 0, 1]),
        ]
    );
    let (r, _) = run(|rs: &[Packet]| command::set_fan_mode(&info, FanMode::Manual, rs), in_mode(PerfMode::Custom, FanMode::Auto));
    assert_eq!(r, Err(RazerError::PreconditionFailed(Precondition::PerfModeRequired(PerfMode::Balanced))));
    let info = DeviceInfo { perf_modes: Some(vec![PerfMode::Custom]), fan_zones: 1 };
    let (r, _) = run(|rs: &[Packet]| command::set_fan_mode(&info, FanMode::Auto, rs), in_mode(PerfMode::Balanced, FanMode::Auto));
    assert_eq!(r, Err(RazerError::PreconditionFailed(Precondition::UnsupportedPerfMode(PerfMode::Balanced))));
}

#[test]
fn logo_mode_set_and_get() {
    let (r, sent) = run(|rs: &[Packet]| command::set_logo_mode(LogoMode::Breathing, rs), echo);
    assert_eq!(r, Ok(()));
    assert_eq!(sent, vec![(SET_LOGO_MODE, vec![1, 4, 2]), (SET_LOGO_POWER, vec![1, 4, 1])]);
    let (r, sent) = run(|rs: &[Packet]| command::set_logo_mode(LogoMode::Off, rs), echo);
    assert_eq!(r, Ok(()));
    assert_eq!(sent, vec![(SET_LOGO_POWER, vec![1, 4, 0])]);

    let (r, sent) = run(command::get_logo_mode, answer(&[1, 4, 0]));
    assert_eq!(r, Ok(LogoMode::Off));
    assert_eq!(sent, vec![(GET_LOGO_POWER, vec![1, 4, 0])]);
    let device = |req: &Packet| {
        if req.get_command() == GET_LOGO_POWER {
            Packet::new(GET_LOGO_POWER, &[1, 4, 1])
        } else {
            Packet::new(GET_LOGO_MODE, &[1, 4, 0])
        }
    };
    let (r, sent) = run(command::get_logo_mode, device);
    assert_eq!(r, Ok(LogoMode::Static));
    assert_eq!(sent, vec![(GET_LOGO_POWER, vec![1, 4, 0]), (GET_LOGO_MODE, vec![1, 4, 0])]);
    let (r, _) = run(command::get_logo_mode, answer(&[1, 4, 3]));
    assert_eq!(r, Err(RazerError::InvalidValue { value: 3, kind: ValueKind::LogoPower }));
    let device = |req: &Packet| {
        if req.get_command() == GET_LOGO_POWER {
            Packet::new(GET_LOGO_POWER, &[1, 4, 1])
        } else {
            Packet::new(GET_LOGO_MODE, &[1, 4, 1])
        }
    };
    let (r, _) = run(command::get_logo_mode, device);
    assert_eq!(r, Err(RazerError::InvalidValue { value: 1, kind: ValueKind::LogoMode }));
}

#[test]
fn logo_mode_reads_back_what_was_set() {
    for mode in [LogoMode::Off, LogoMode::Static, LogoMode::Breathing] {
        let (_, sent) = run(|rs: &[Packet]| command::set_logo_mode(mode, rs), echo);
        let power = sent.iter().find(|(c, _)| *c == SET_LOGO_POWER).unwrap().1.clone();
        let effect = sent.iter().find(|(c, _)| *c == SET_LOGO_MODE).map(|(_, a)| a.clone()).unwrap_or(vec![1, 4, 0]);
        let device = move |req: &Packet| {
            if req.get_command() == GET_LOGO_POWER {
                Packet::new(GET_LOGO_POWER, &power)
            } else {
                Packet::new(GET_LOGO_MODE, &effect)
            }
        };
        let (r, _) = run(command::get_logo_mode, device);
        assert_eq!(r, Ok(mode));
    }
}

#[test]
fn keyboard_brightness_set_and_get() {
    let (r, sent) = run(|rs: &[Packet]| command::set_keyboard_brightness(200, rs), echo);
    assert_eq!(r, Ok(()));
    assert_eq!(sent, vec![(SET_KBD_BRIGHTNESS, vec![1, 5, 200])]);
    let (r, _) = run(|rs: &[Packet]| command::set_keyboard_brightness(200, rs), answer(&[1, 5, 199]));
    assert_eq!(r, Err(RazerError::ResponseMismatch));
    let (r, sent) = run(command::get_keyboard_brightness, answer(&[1, 5, 200]));
    assert_eq!(r, Ok(200));
    assert_eq!(sent, vec![(GET_KBD_BRIGHTNESS, vec![1, 5, 0])]);
    let (r, _) = run(command::get_keyboard_brightness, answer(&[1, 4, 200]));
    assert_eq!(r, Err(RazerError::ResponseMismatch));
}

#[test]
fn lights_always_on_set_and_get() {
    let (r, sent) = run(|rs: &[Packet]| command::set_lights_always_on(LightsAlwaysOn::Enable, rs), echo);
    assert_eq!(r, Ok(()));
    assert_eq!(sent, vec![(SET_LIGHTS_ALWAYS_ON, vec![3, 0])]);
    let (r, sent) = run(command::get_lights_always_on, answer(&[3, 0]));
    assert_eq!(r, Ok(LightsAlwaysOn::Enable));
    assert_eq!(sent, vec![(GET_LIGHTS_ALWAYS_ON, vec![0, 0])]);
    let (r, _) = run(command::get_lights_always_on, answer(&[2, 0]));
    assert_eq!(r, Err(RazerError::InvalidValue { value: 2, kind: ValueKind::LightsAlwaysOn }));
}

#[test]
fn battery_care_set_and_get() {
    let (r, sent) = run(|rs: &[Packet]| command::set_battery_care(BatteryCare::Enable, rs), echo);
    assert_eq!(r, Ok(()));
    assert_eq!(sent, vec![(SET_BATTERY_CARE, vec![0xd0])]);
    let (r, sent) = run(command::get_battery_care, answer(&[0x50]));
    assert_eq!(r, Ok(BatteryCare::Disable));
    assert_eq!(sent, vec![(GET_BATTERY_CARE, vec![0])]);
    let (r, _) = run(command::get_battery_care, answer(&[0]));
    assert_eq!(r, Err(RazerError::InvalidValue { value: 0, kind: ValueKind::BatteryCare }));
    let (r, _) = run(|rs: &[Packet]| command::set_battery_care(BatteryCare::Disable, rs), answer(&[0xd0]));
    assert_eq!(r, Err(RazerError::ResponseMismatch));
}

#[test]
fn set_perf_mode_always_sends_auto_fan() {
    let info = any_mode();
    let (r, sent) = run(|rs: &[Packet]| command::set_perf_mode(&info, PerfMode::Custom, rs), echo);
    assert_eq!(r, Ok(()));
    assert_eq!(sent.len(), 2);
    assert!(sent.iter().all(|(_, a)| a[3] == FanMode::Auto.to_byte()));
}

/// The arguments that `op` sends with its request for `command`.
fn sent_args<T>(op: impl Fn(&[Packet]) -> Step<T>, device: impl FnMut(&Packet) -> Packet, command: u16) -> Vec<u8> {
    let (_, sent) = run(op, device);
    sent.into_iter().find(|(c, _)| *c == command).unwrap().1
}

/// A device that answers any query with `args`.
fn answering(args: Vec<u8>) -> impl FnMut(&Packet) -> Packet {
    move |req: &Packet| Packet::new(req.get_command(), &args)
}

#[test]
fn settings_read_back() {
    let info = any_mode();
    for mode in [PerfMode::Balanced, PerfMode::Silent, PerfMode::Custom] {
        let args = sent_args(|rs: &[Packet]| command::set_perf_mode(&info, mode, rs), echo, SET_PERF_MODE);
        assert_eq!(run(command::get_perf_mode, answering(args)).0, Ok((mode, FanMode::Auto)));
    }
    for fan in [FanMode::Auto, FanMode::Manual] {
        let args = sent_args(
            |rs: &[Packet]| command::set_fan_mode(&info, fan, rs),
            in_mode(PerfMode::Balanced, FanMode::Auto),
            SET_PERF_MODE,
        );
        assert_eq!(run(command::get_perf_mode, answering(args)).0, Ok((PerfMode::Balanced, fan)));
    }
    for mode in [MaxFanSpeedMode::Enable, MaxFanSpeedMode::Disable] {
        let args = sent_args(
            |rs: &[Packet]| command::set_max_fan_speed_mode(mode, rs),
            in_mode(PerfMode::Custom, FanMode::Auto),
            SET_MAX_FAN_SPEED,
        );
        assert_eq!(run(command::get_max_fan_speed_mode, answering(args)).0, Ok(mode));
    }
    for b in [0u8, 1, 128, 255] {
        let args = sent_args(|rs: &[Packet]| command::set_keyboard_brightness(b, rs), echo, SET_KBD_BRIGHTNESS);
        assert_eq!(run(command::get_keyboard_brightness, answering(args)).0, Ok(b));
    }
    for v in [LightsAlwaysOn::Enable, LightsAlwaysOn::Disable] {
        let args = sent_args(|rs: &[Packet]| command::set_lights_always_on(v, rs), echo, SET_LIGHTS_ALWAYS_ON);
        assert_eq!(run(command::get_lights_always_on, answering(args)).0, Ok(v));
    }
    for m in [BatteryCare::Enable, BatteryCare::Disable] {
        let args = sent_args(|rs: &[Packet]| command::set_battery_care(m, rs), echo, SET_BATTERY_CARE);
        assert_eq!(run(command::get_battery_care, answering(args)).0, Ok(m));
    }
    for g in [GpuBoost::Low, GpuBoost::Medium, GpuBoost::High] {
        let args = sent_args(|rs: &[Packet]| command::set_gpu_boost(g, rs), in_mode(PerfMode::Custom, FanMode::Auto), SET_BOOST);
        assert_eq!(run(command::get_gpu_boost, answering(args)).0, Ok(g));
    }
}

#[test]
fn set_fan_mode_never_reports_fan_mode_needs_balanced() {
    let info = any_mode();
    for perf in [PerfMode::Balanced, PerfMode::Silent, PerfMode::Custom] {
        let (r, _) = run(|rs: &[Packet]| command::set_fan_mode(&info, FanMode::Manual, rs), in_mode(perf, FanMode::Auto));
        assert!(!matches!(r, Err(RazerError::PreconditionFailed(Precondition::FanModeNeedsBalanced(_)))));
    }
}

#[test]
fn set_fan_mode_refused_outside_balanced() {
    let info = any_mode();
    let (r, sent) = run(|rs: &[Packet]| command::set_fan_mode(&info, FanMode::Manual, rs), in_mode(PerfMode::Silent, FanMode::Manual));
    assert_eq!(r, Err(RazerError::PreconditionFailed(Precondition::PerfModeRequired(PerfMode::Balanced))));
    assert_eq!(sent.len(), 1);
}
