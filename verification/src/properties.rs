//! Properties that span several operations: what a read gives back of a
//! write, which state a command insists on before it changes anything, and
//! how many exchanges each operation takes.
use vstd::prelude::*;

use crate::command::{
    battery_care_request, boost_request, driven_fans, echoes, fan_rpm_requests, fan_rpm_step,
    fan_zone_at, get_battery_care_step, get_cpu_boost_step, get_gpu_boost_step,
    get_keyboard_brightness_step, get_lights_always_on_step, get_logo_mode_step,
    get_max_fan_speed_mode_step, get_perf_mode_step, keyboard_brightness_request,
    lights_always_on_request, logo_effect_request, logo_power_request, logo_requests,
    max_fan_speed_request, perf_mode_query, perf_mode_reply, perf_mode_requests,
    send_commands_step, set_boost_step, set_fan_mode_step, set_fan_rpm_step,
    set_logo_mode_step, set_max_fan_speed_mode_step, set_perf_mode_internal_step, StepView,
    get_firmware_version_step, ascii_digits,
    GET_FAN_RPM, SET_BOOST, SET_FAN_RPM, SET_MAX_FAN_SPEED, SET_PERF_MODE,
};
use crate::device::DeviceInfo;
use crate::error::{Precondition, RazerError};
use crate::packet::{lemma_request_args, PacketView};
use crate::types::{
    FanZone, BatteryCare, Cluster, CpuBoost, FanMode, GpuBoost, LightsAlwaysOn, LogoMode, MaxFanSpeedMode,
    PerfMode, ThermalZone,
};

verus! {

/// A reply that echoes a request carries the request's argument `i`.
proof fn lemma_echo_arg(reply: PacketView, req: PacketView, i: int)
    requires
        echoes(reply, req),
        0 <= i < req.args().len(),
    ensures
        reply.args()[i] == req.args()[i],
{
    assert(req.args()[i] == reply.args().subrange(0, req.args().len() as int)[i]);
}

/// The requests that `send_commands_step` sends are the given ones, in order:
/// the next one is sent once every earlier one has been echoed.
pub proof fn law_send_commands(requests: Seq<PacketView>, replies: Seq<PacketView>)
    ensures
        replies.len() < requests.len() && (forall|i: int|
            0 <= i < replies.len() ==> #[trigger] echoes(replies[i], requests[i]))
            ==> send_commands_step(requests, replies) == StepView::<()>::Send(requests[replies.len() as int]),
        (exists|i: int|
            0 <= i < replies.len() && i < requests.len() && !#[trigger] echoes(replies[i], requests[i]))
            ==> send_commands_step(requests, replies) == StepView::<()>::Done(Err(RazerError::ResponseMismatch)),
        replies.len() >= requests.len() ==> send_commands_step(requests, replies) is Done,
        send_commands_step(requests, replies) matches StepView::Send(req) ==> requests.contains(req),
{
    if let StepView::Send(req) = send_commands_step(requests, replies) {
        assert(requests[replies.len() as int] == req);
    }
}

/// Setting the performance mode sets the fan mode to Auto: every request it
/// sends sets `perf_mode` with fan mode Auto in one thermal zone, and it is
/// over after two replies.
pub proof fn law_set_perf_mode_requests(device: DeviceInfo, perf_mode: PerfMode, replies: Seq<PacketView>)
    ensures
        set_perf_mode_internal_step(device, perf_mode, FanMode::Auto, replies) matches StepView::Send(req) ==> {
            &&& req.command == SET_PERF_MODE
            &&& req.args() == seq![1u8, req.args()[1], perf_mode.to_byte(), FanMode::Auto.to_byte()]
        },
        replies.len() >= 2 ==> set_perf_mode_internal_step(device, perf_mode, FanMode::Auto, replies) is Done,
{
    let requests = perf_mode_requests(perf_mode, FanMode::Auto);
    law_send_commands(requests, replies);
    lemma_request_args(SET_PERF_MODE, seq![1u8, ThermalZone::Zone1.to_byte(), perf_mode.to_byte(), FanMode::Auto.to_byte()]);
    lemma_request_args(SET_PERF_MODE, seq![1u8, ThermalZone::Zone2.to_byte(), perf_mode.to_byte(), FanMode::Auto.to_byte()]);
}

/// Reading the performance mode back from a device that echoes what
/// `set_perf_mode` sent gives the mode that was set, with fan mode Auto.
pub proof fn law_perf_mode_read_back(
    device: DeviceInfo,
    perf_mode: PerfMode,
    replies: Seq<PacketView>,
    req: PacketView,
    reply: PacketView,
)
    requires
        set_perf_mode_internal_step(device, perf_mode, FanMode::Auto, replies) == StepView::<()>::Send(req),
        echoes(reply, req),
    ensures
        get_perf_mode_step(seq![reply]) == StepView::Done(Ok::<(PerfMode, FanMode), RazerError>((perf_mode, FanMode::Auto))),
{
    law_set_perf_mode_requests(device, perf_mode, replies);
    lemma_echo_arg(reply, req, 2);
    lemma_echo_arg(reply, req, 3);
    crate::types::lemma_perf_mode_byte_roundtrip(perf_mode, 0);
    crate::types::lemma_fan_mode_byte_roundtrip(FanMode::Auto, 0);
}


/// Setting a boost level first asks for the performance mode and changes
/// the boost only when the laptop reports Custom with fan mode Auto; it is
/// over after two replies.
pub proof fn law_set_boost_needs_custom(cluster: Cluster, level: u8, replies: Seq<PacketView>)
    ensures
        set_boost_step(cluster, level, replies) matches StepView::Send(req) ==> {
            ||| replies.len() == 0 && req == perf_mode_query()
            ||| {
                &&& replies.len() == 1
                &&& perf_mode_reply(replies[0]) == Ok::<(PerfMode, FanMode), RazerError>((PerfMode::Custom, FanMode::Auto))
                &&& req == boost_request(cluster, level)
            }
        },
        replies.len() >= 2 ==> set_boost_step(cluster, level, replies) is Done,
{
    if replies.len() >= 1 {
        law_send_commands(seq![boost_request(cluster, level)], replies.drop_first());
    }
}

/// Reading the CPU boost back from a device that echoes the boost request
/// that `set_cpu_boost` sent gives the level that was set.
pub proof fn law_cpu_boost_read_back(boost: CpuBoost, replies: Seq<PacketView>, req: PacketView, reply: PacketView)
    requires
        set_boost_step(Cluster::Cpu, boost.to_byte(), replies) == StepView::<()>::Send(req),
        req.command == SET_BOOST,
        echoes(reply, req),
    ensures
        get_cpu_boost_step(seq![reply]) == StepView::Done(Ok::<CpuBoost, RazerError>(boost)),
{
    law_set_boost_needs_custom(Cluster::Cpu, boost.to_byte(), replies);
    lemma_request_args(SET_BOOST, seq![0u8, Cluster::Cpu.to_byte(), boost.to_byte()]);
    lemma_echo_arg(reply, req, 1);
    lemma_echo_arg(reply, req, 2);
    crate::types::lemma_cpu_boost_byte_roundtrip(boost, 0);
}

/// Reading the GPU boost back from a device that echoes the boost request
/// that `set_gpu_boost` sent gives the level that was set.
pub proof fn law_gpu_boost_read_back(boost: GpuBoost, replies: Seq<PacketView>, req: PacketView, reply: PacketView)
    requires
        set_boost_step(Cluster::Gpu, boost.to_byte(), replies) == StepView::<()>::Send(req),
        req.command == SET_BOOST,
        echoes(reply, req),
    ensures
        get_gpu_boost_step(seq![reply]) == StepView::Done(Ok::<GpuBoost, RazerError>(boost)),
{
    law_set_boost_needs_custom(Cluster::Gpu, boost.to_byte(), replies);
    lemma_request_args(SET_BOOST, seq![0u8, Cluster::Gpu.to_byte(), boost.to_byte()]);
    lemma_echo_arg(reply, req, 1);
    lemma_echo_arg(reply, req, 2);
    crate::types::lemma_gpu_boost_byte_roundtrip(boost, 0);
}

/// Setting the fan speed refuses, before sending anything, a speed outside
/// 2000..=5000 RPM; otherwise it asks for the performance mode and sets the
/// driven fans one by one, in zone order, only when the laptop reports
/// Balanced with fan mode Manual.  It is over after one reply per driven fan
/// and one more.
pub proof fn law_set_fan_rpm_guarded(device: DeviceInfo, rpm: u16, replies: Seq<PacketView>)
    ensures
        !(2000 <= rpm <= 5000) ==> set_fan_rpm_step(device, rpm, replies) == StepView::<()>::Done(
            Err(RazerError::PreconditionFailed(Precondition::RpmOutOfRange(rpm))),
        ),
        set_fan_rpm_step(device, rpm, replies) matches StepView::Send(req) ==> {
            ||| replies.len() == 0 && req == perf_mode_query()
            ||| {
                &&& 1 <= replies.len() <= driven_fans(device)
                &&& perf_mode_reply(replies[0]) == Ok::<(PerfMode, FanMode), RazerError>((PerfMode::Balanced, FanMode::Manual))
                &&& req.command == SET_FAN_RPM
                &&& req.args() == seq![0u8, fan_zone_at(replies.len() - 1).to_byte(), (rpm / 100) as u8]
            }
        },
        replies.len() >= 1 + driven_fans(device) ==> set_fan_rpm_step(device, rpm, replies) is Done,
{
    if replies.len() >= 1 {
        let requests = fan_rpm_requests(driven_fans(device), rpm);
        law_send_commands(requests, replies.drop_first());
        if replies.len() - 1 < requests.len() {
            lemma_request_args(
                SET_FAN_RPM,
                seq![0u8, fan_zone_at(replies.len() - 1).to_byte(), (rpm / 100) as u8],
            );
        }
    }
}

/// Reading the target speed back from a device that echoes a request that
/// `set_fan_rpm` sent gives the speed that was set, rounded down to hundreds
/// of RPM, for the fan that the request named.
pub proof fn law_fan_rpm_read_back(
    device: DeviceInfo,
    rpm: u16,
    replies: Seq<PacketView>,
    req: PacketView,
    reply: PacketView,
)
    requires
        set_fan_rpm_step(device, rpm, replies) == StepView::<()>::Send(req),
        req.command == SET_FAN_RPM,
        echoes(reply, req),
    ensures
        fan_rpm_step(GET_FAN_RPM, fan_zone_at(replies.len() - 1), seq![reply])
            == StepView::Done(Ok::<u16, RazerError>((rpm - rpm % 100) as u16)),
{
    law_set_fan_rpm_guarded(device, rpm, replies);
    lemma_echo_arg(reply, req, 1);
    lemma_echo_arg(reply, req, 2);
    assert(reply.args()[2] == (rpm / 100) as u8);
    assert((rpm / 100) * 100 == rpm - rpm % 100);
}

/// Max fan speed is changed only when the laptop reports the Custom
/// performance mode, after asking for it; it is over after two replies.
pub proof fn law_set_max_fan_speed_needs_custom(mode: MaxFanSpeedMode, replies: Seq<PacketView>)
    ensures
        set_max_fan_speed_mode_step(mode, replies) matches StepView::Send(req) ==> {
            ||| replies.len() == 0 && req == perf_mode_query()
            ||| {
                &&& replies.len() == 1
                &&& perf_mode_reply(replies[0]) matches Ok((perf, _)) && perf == PerfMode::Custom
                &&& req == max_fan_speed_request(mode)
            }
        },
        replies.len() >= 2 ==> set_max_fan_speed_mode_step(mode, replies) is Done,
{
    if replies.len() >= 1 {
        law_send_commands(seq![max_fan_speed_request(mode)], replies.drop_first());
    }
}

/// Reading max fan speed back from a device that echoes the request of
/// `set_max_fan_speed_mode` gives the mode that was set.
pub proof fn law_max_fan_speed_read_back(mode: MaxFanSpeedMode, reply: PacketView)
    requires
        echoes(reply, max_fan_speed_request(mode)),
    ensures
        get_max_fan_speed_mode_step(seq![reply]) == StepView::Done(Ok::<MaxFanSpeedMode, RazerError>(mode)),
{
    lemma_request_args(SET_MAX_FAN_SPEED, seq![mode.to_byte()]);
    lemma_echo_arg(reply, max_fan_speed_request(mode), 0);
    crate::types::lemma_max_fan_speed_mode_byte_roundtrip(mode, 0);
}

/// The fan mode is changed only when the laptop reports the Balanced
/// performance mode, after asking for it; then the requests set Balanced
/// with the new fan mode in each thermal zone, and it is over after three
/// replies.
pub proof fn law_set_fan_mode_needs_balanced(device: DeviceInfo, mode: FanMode, replies: Seq<PacketView>)
    ensures
        set_fan_mode_step(device, mode, replies) matches StepView::Send(req) ==> {
            ||| replies.len() == 0 && req == perf_mode_query()
            ||| {
                &&& 1 <= replies.len() <= 2
                &&& perf_mode_reply(replies[0]) matches Ok((perf, _)) && perf == PerfMode::Balanced
                &&& req == perf_mode_requests(PerfMode::Balanced, mode)[replies.len() - 1]
            }
        },
        replies.len() >= 3 ==> set_fan_mode_step(device, mode, replies) is Done,
{
    if replies.len() >= 1 {
        law_send_commands(perf_mode_requests(PerfMode::Balanced, mode), replies.drop_first());
    }
}

/// Reading the modes back from a device that echoes a request that
/// `set_fan_mode` sent to change the fan mode gives Balanced with the new
/// fan mode.
pub proof fn law_fan_mode_read_back(
    device: DeviceInfo,
    mode: FanMode,
    replies: Seq<PacketView>,
    req: PacketView,
    reply: PacketView,
)
    requires
        set_fan_mode_step(device, mode, replies) == StepView::<()>::Send(req),
        req.command == SET_PERF_MODE,
        echoes(reply, req),
    ensures
        get_perf_mode_step(seq![reply]) == StepView::Done(Ok::<(PerfMode, FanMode), RazerError>((PerfMode::Balanced, mode))),
{
    law_set_fan_mode_needs_balanced(device, mode, replies);
    lemma_request_args(SET_PERF_MODE, seq![1u8, ThermalZone::Zone1.to_byte(), PerfMode::Balanced.to_byte(), mode.to_byte()]);
    lemma_request_args(SET_PERF_MODE, seq![1u8, ThermalZone::Zone2.to_byte(), PerfMode::Balanced.to_byte(), mode.to_byte()]);
    lemma_echo_arg(reply, req, 2);
    lemma_echo_arg(reply, req, 3);
    crate::types::lemma_perf_mode_byte_roundtrip(PerfMode::Balanced, 0);
    crate::types::lemma_fan_mode_byte_roundtrip(mode, 0);
}

/// Reading the keyboard brightness back from a device that echoes the
/// request of `set_keyboard_brightness` gives the brightness that was set.
pub proof fn law_keyboard_brightness_read_back(brightness: u8, reply: PacketView)
    requires
        echoes(reply, keyboard_brightness_request(brightness)),
    ensures
        get_keyboard_brightness_step(seq![reply]) == StepView::Done(Ok::<u8, RazerError>(brightness)),
{
    lemma_request_args(crate::command::SET_KBD_BRIGHTNESS, seq![1u8, 5u8, brightness]);
    lemma_echo_arg(reply, keyboard_brightness_request(brightness), 1);
    lemma_echo_arg(reply, keyboard_brightness_request(brightness), 2);
}

/// Reading lights-always-on back from a device that echoes the request of
/// `set_lights_always_on` gives the setting that was made.
pub proof fn law_lights_always_on_read_back(setting: LightsAlwaysOn, reply: PacketView)
    requires
        echoes(reply, lights_always_on_request(setting)),
    ensures
        get_lights_always_on_step(seq![reply]) == StepView::Done(Ok::<LightsAlwaysOn, RazerError>(setting)),
{
    lemma_request_args(crate::command::SET_LIGHTS_ALWAYS_ON, seq![setting.to_byte(), 0u8]);
    lemma_echo_arg(reply, lights_always_on_request(setting), 0);
    crate::types::lemma_lights_always_on_byte_roundtrip(setting, 0);
}

/// Reading battery care back from a device that echoes the request of
/// `set_battery_care` gives the mode that was set.
pub proof fn law_battery_care_read_back(mode: BatteryCare, reply: PacketView)
    requires
        echoes(reply, battery_care_request(mode)),
    ensures
        get_battery_care_step(seq![reply]) == StepView::Done(Ok::<BatteryCare, RazerError>(mode)),
{
    lemma_request_args(crate::command::SET_BATTERY_CARE, seq![mode.to_byte()]);
    lemma_echo_arg(reply, battery_care_request(mode), 0);
    crate::types::lemma_battery_care_byte_roundtrip(mode, 0);
}

/// Setting the logo mode sends its requests with the power request last,
/// and reading the mode back from a device that echoes them (the power
/// request to the power query, the effect request to the effect query)
/// gives the mode that was set.
pub proof fn law_logo_mode_read_back(mode: LogoMode, power_reply: PacketView, effect_reply: PacketView)
    requires
        echoes(power_reply, logo_power_request(mode)),
        logo_effect_request(mode) matches Ok(effect) ==> echoes(effect_reply, effect),
    ensures
        logo_requests(mode).last() == logo_power_request(mode),
        mode == LogoMode::Off ==> get_logo_mode_step(seq![power_reply]) == StepView::Done(
            Ok::<LogoMode, RazerError>(LogoMode::Off),
        ),
        mode != LogoMode::Off ==> get_logo_mode_step(seq![power_reply, effect_reply]) == StepView::Done(
            Ok::<LogoMode, RazerError>(mode),
        ),
{
    let power_byte: u8 = if mode == LogoMode::Off { 0 } else { 1 };
    lemma_request_args(crate::command::SET_LOGO_POWER, seq![1u8, 4u8, power_byte]);
    lemma_echo_arg(power_reply, logo_power_request(mode), 2);
    if let Ok(effect) = logo_effect_request(mode) {
        let effect_byte: u8 = if mode == LogoMode::Static { 0 } else { 2 };
        lemma_request_args(crate::command::SET_LOGO_MODE, seq![1u8, 4u8, effect_byte]);
        lemma_echo_arg(effect_reply, effect, 2);
    }
}

/// The public operations never fail for a fan mode outside Balanced, nor
/// for a logo mode without an effect: `set_perf_mode` always asks for fan
/// mode Auto, `set_fan_mode` only runs in Balanced mode, and `set_logo_mode`
/// only selects an effect for a mode that has one.
pub proof fn law_unreachable_refusals(
    device: DeviceInfo,
    perf_mode: PerfMode,
    fan_mode: FanMode,
    logo_mode: LogoMode,
    replies: Seq<PacketView>,
)
    ensures
        !(set_perf_mode_internal_step(device, perf_mode, FanMode::Auto, replies) matches StepView::Done(
            Err(RazerError::PreconditionFailed(Precondition::FanModeNeedsBalanced(_))),
        )),
        !(set_fan_mode_step(device, fan_mode, replies) matches StepView::Done(
            Err(RazerError::PreconditionFailed(Precondition::FanModeNeedsBalanced(_))),
        )),
        set_logo_mode_step(logo_mode, replies) != StepView::<()>::Done(Err(RazerError::InvalidLogoMode)),
{
}

/// Setting a logo mode with a lighting effect first selects that effect
/// (command 0x0302, arguments `[1, 4, 0]` for Static and `[1, 4, 2]` for
/// Breathing), then switches the logo on (command 0x0300, `[1, 4, 1]`), and
/// is done once both are echoed; Off only switches the logo off
/// (`[1, 4, 0]`).
pub proof fn law_set_logo_mode_exchange(mode: LogoMode, first: PacketView, second: PacketView)
    ensures
        mode != LogoMode::Off ==> {
            let effect = PacketView::request(0x0302, seq![1u8, 4u8, if mode == LogoMode::Static { 0u8 } else { 2u8 }]);
            let power = PacketView::request(0x0300, seq![1u8, 4u8, 1u8]);
            &&& set_logo_mode_step(mode, seq![]) == StepView::<()>::Send(effect)
            &&& echoes(first, effect) ==> set_logo_mode_step(mode, seq![first]) == StepView::<()>::Send(power)
            &&& echoes(first, effect) && echoes(second, power) ==> set_logo_mode_step(mode, seq![first, second])
                == StepView::<()>::Done(Ok(()))
        },
        mode == LogoMode::Off ==> {
            let power = PacketView::request(0x0300, seq![1u8, 4u8, 0u8]);
            &&& set_logo_mode_step(mode, seq![]) == StepView::<()>::Send(power)
            &&& echoes(first, power) ==> set_logo_mode_step(mode, seq![first]) == StepView::<()>::Done(Ok(()))
        },
{
    let reqs = logo_requests(mode);
    law_send_commands(reqs, seq![]);
    law_send_commands(reqs, seq![first]);
    law_send_commands(reqs, seq![first, second]);
    assert(seq![first][0] == first);
    assert(seq![first, second][0] == first);
    assert(seq![first, second][1] == second);
}

/// Setting a performance mode (when the model accepts it and the fan mode
/// fits) sets it in thermal zone 1 (command 0x0d02, arguments
/// `[1, 1, perf, fan]`), then in thermal zone 2 (`[1, 2, perf, fan]`), and is
/// done only once both are echoed.
pub proof fn law_set_perf_mode_every_zone(
    device: DeviceInfo,
    perf: PerfMode,
    fan: FanMode,
    first: PacketView,
    second: PacketView,
)
    requires
        device.allows(perf),
        !(fan == FanMode::Manual && perf != PerfMode::Balanced),
    ensures
        ({
            let zone1 = PacketView::request(0x0d02, seq![1u8, 1u8, perf.to_byte(), fan.to_byte()]);
            let zone2 = PacketView::request(0x0d02, seq![1u8, 2u8, perf.to_byte(), fan.to_byte()]);
            &&& set_perf_mode_internal_step(device, perf, fan, seq![]) == StepView::<()>::Send(zone1)
            &&& echoes(first, zone1) ==> set_perf_mode_internal_step(device, perf, fan, seq![first])
                == StepView::<()>::Send(zone2)
            &&& echoes(first, zone1) && echoes(second, zone2) ==> set_perf_mode_internal_step(
                device,
                perf,
                fan,
                seq![first, second],
            ) == StepView::<()>::Done(Ok(()))
        }),
{
    let reqs = perf_mode_requests(perf, fan);
    law_send_commands(reqs, seq![]);
    law_send_commands(reqs, seq![first]);
    law_send_commands(reqs, seq![first, second]);
    assert(seq![first][0] == first);
    assert(seq![first, second][0] == first);
    assert(seq![first, second][1] == second);
}

/// A model that lists its performance modes accepts exactly the listed
/// ones, wherever they stand in the list; a model without a list accepts
/// every mode.  An accepted mode is set (its first request goes out), a
/// refused one is reported as unsupported before anything is sent.
pub proof fn law_model_accepts_listed_modes(device: DeviceInfo, perf: PerfMode)
    ensures
        device.perf_modes matches Some(l) ==> (device.allows(perf) <==> exists|i: int|
            0 <= i < l@.len() && l@[i] == perf),
        device.perf_modes is None ==> device.allows(perf),
        device.perf_modes matches Some(l) ==> (l@.len() > 0 ==> device.allows(l@[0])),
        device.allows(perf) ==> set_perf_mode_internal_step(device, perf, FanMode::Auto, seq![]) is Send,
        !device.allows(perf) ==> set_perf_mode_internal_step(device, perf, FanMode::Auto, seq![])
            == StepView::<()>::Done(Err(RazerError::PreconditionFailed(Precondition::UnsupportedPerfMode(perf)))),
{
    if let Some(l) = device.perf_modes {
        if l@.len() > 0 {
            assert(l@[0] == l@[0]);
            assert(l@.contains(l@[0]));
        }
    }
    law_send_commands(perf_mode_requests(perf, FanMode::Auto), seq![]);
}

/// Bytes 0x30 to 0x39 are exactly the ones that count as digits.
pub proof fn law_ascii_digits_of_one_byte(b: u8)
    ensures
        ascii_digits(seq![b]) == (if 0x30 <= b <= 0x39 { seq![b as char] } else { Seq::<char>::empty() }),
{
    assert(seq![b].drop_last() =~= Seq::<u8>::empty());
    assert(ascii_digits(Seq::<u8>::empty()) == Seq::<char>::empty());
    assert(Seq::<char>::empty().push(b as char) =~= seq![b as char]);
}

/// The digits of two byte sequences put together are the digits of the
/// first followed by those of the second.
pub proof fn law_ascii_digits_concat(s: Seq<u8>, t: Seq<u8>)
    ensures
        ascii_digits(s + t) == ascii_digits(s) + ascii_digits(t),
    decreases t.len(),
{
    if t.len() == 0 {
        assert(s + t =~= s);
        assert(ascii_digits(t) =~= Seq::<char>::empty());
        assert(ascii_digits(s) + ascii_digits(t) =~= ascii_digits(s));
    } else {
        law_ascii_digits_concat(s, t.drop_last());
        assert((s + t).drop_last() =~= s + t.drop_last());
        assert((s + t).last() == t.last());
        if 0x30 <= t.last() <= 0x39 {
            assert(ascii_digits(s) + ascii_digits(t) =~= (ascii_digits(s) + ascii_digits(t.drop_last())).push(
                t.last() as char,
            ));
        }
    }
}

/// Bytes outside 0x30..=0x39 contribute no digit.
proof fn lemma_no_digits(z: Seq<u8>)
    requires
        forall|i: int| 0 <= i < z.len() ==> !(0x30 <= #[trigger] z[i] <= 0x39),
    ensures
        ascii_digits(z) == Seq::<char>::empty(),
    decreases z.len(),
{
    if z.len() > 0 {
        lemma_no_digits(z.drop_last());
        assert(z.last() == z[z.len() - 1]);
    }
}

/// A firmware reply whose argument area holds exactly four digit bytes
/// `a`, `b`, `c`, `d` (each from '0' to '9'), in that order, with any
/// non-digit bytes around them, gives the version "v<a><b>.<c><d>".
pub proof fn law_firmware_version_of_four_digits(
    reply: PacketView,
    z1: Seq<u8>,
    z2: Seq<u8>,
    z3: Seq<u8>,
    z4: Seq<u8>,
    z5: Seq<u8>,
    a: u8,
    b: u8,
    c: u8,
    d: u8,
)
    requires
        0x30 <= a <= 0x39,
        0x30 <= b <= 0x39,
        0x30 <= c <= 0x39,
        0x30 <= d <= 0x39,
        forall|i: int| 0 <= i < z1.len() ==> !(0x30 <= #[trigger] z1[i] <= 0x39),
        forall|i: int| 0 <= i < z2.len() ==> !(0x30 <= #[trigger] z2[i] <= 0x39),
        forall|i: int| 0 <= i < z3.len() ==> !(0x30 <= #[trigger] z3[i] <= 0x39),
        forall|i: int| 0 <= i < z4.len() ==> !(0x30 <= #[trigger] z4[i] <= 0x39),
        forall|i: int| 0 <= i < z5.len() ==> !(0x30 <= #[trigger] z5[i] <= 0x39),
        reply.raw == z1 + seq![a] + z2 + seq![b] + z3 + seq![c] + z4 + seq![d] + z5,
    ensures
        get_firmware_version_step(seq![reply]) == StepView::Done(
            Ok::<Seq<char>, RazerError>(seq!['v', a as char, b as char, '.', c as char, d as char]),
        ),
{
    lemma_no_digits(z1);
    lemma_no_digits(z2);
    lemma_no_digits(z3);
    lemma_no_digits(z4);
    lemma_no_digits(z5);
    law_ascii_digits_of_one_byte(a);
    law_ascii_digits_of_one_byte(b);
    law_ascii_digits_of_one_byte(c);
    law_ascii_digits_of_one_byte(d);
    let p1 = z1 + seq![a];
    let p2 = p1 + z2;
    let p3 = p2 + seq![b];
    let p4 = p3 + z3;
    let p5 = p4 + seq![c];
    let p6 = p5 + z4;
    let p7 = p6 + seq![d];
    law_ascii_digits_concat(z1, seq![a]);
    law_ascii_digits_concat(p1, z2);
    law_ascii_digits_concat(p2, seq![b]);
    law_ascii_digits_concat(p3, z3);
    law_ascii_digits_concat(p4, seq![c]);
    law_ascii_digits_concat(p5, z4);
    law_ascii_digits_concat(p6, seq![d]);
    law_ascii_digits_concat(p7, z5);
    let digits = ascii_digits(reply.raw);
    assert(digits =~= seq![a as char, b as char, c as char, d as char]);
    assert(seq![reply][0] == reply);
}

/// Every speed from 2000 to 5000 RPM is accepted: with no reply yet,
/// setting it asks for the performance mode (command 0x0d82, arguments
/// `[0, 1, 0, 0]`), and it never fails as out of range.
pub proof fn law_fan_rpm_range_accepted(device: DeviceInfo, rpm: u16, replies: Seq<PacketView>)
    requires
        2000 <= rpm <= 5000,
    ensures
        set_fan_rpm_step(device, rpm, seq![]) == StepView::<()>::Send(
            PacketView::request(0x0d82, seq![0u8, 1u8, 0u8, 0u8]),
        ),
        !(set_fan_rpm_step(device, rpm, replies) matches StepView::Done(
            Err(RazerError::PreconditionFailed(Precondition::RpmOutOfRange(_))),
        )),
{
    if replies.len() >= 1 {
        law_send_commands(fan_rpm_requests(driven_fans(device), rpm), replies.drop_first());
    }
}

/// The command codes, and the bytes by which the laptop's controller
/// encodes each value.
pub proof fn law_protocol_encodings()
    ensures
        crate::command::SET_PERF_MODE == 0x0d02 && crate::command::GET_PERF_MODE == 0x0d82,
        crate::command::SET_BOOST == 0x0d07 && crate::command::GET_BOOST == 0x0d87,
        crate::command::SET_FAN_RPM == 0x0d01 && crate::command::GET_FAN_RPM == 0x0d81
            && crate::command::GET_ACTUAL_FAN_RPM == 0x0d88,
        crate::command::SET_MAX_FAN_SPEED == 0x070f && crate::command::GET_MAX_FAN_SPEED == 0x078f,
        crate::command::GET_FIRMWARE_VERSION == 0x0081,
        crate::command::SET_LOGO_POWER == 0x0300 && crate::command::GET_LOGO_POWER == 0x0380,
        crate::command::SET_LOGO_MODE == 0x0302 && crate::command::GET_LOGO_MODE == 0x0382,
        crate::command::SET_KBD_BRIGHTNESS == 0x0303 && crate::command::GET_KBD_BRIGHTNESS == 0x0383,
        crate::command::SET_LIGHTS_ALWAYS_ON == 0x0004 && crate::command::GET_LIGHTS_ALWAYS_ON == 0x0084,
        crate::command::SET_BATTERY_CARE == 0x0712 && crate::command::GET_BATTERY_CARE == 0x0792,
        crate::command::MIN_FAN_RPM == 2000 && crate::command::MAX_FAN_RPM == 5000,
        PerfMode::Balanced.to_byte() == 0 && PerfMode::Custom.to_byte() == 4 && PerfMode::Silent.to_byte() == 5,
        FanMode::Auto.to_byte() == 0 && FanMode::Manual.to_byte() == 1,
        CpuBoost::Low.to_byte() == 0 && CpuBoost::Medium.to_byte() == 1 && CpuBoost::High.to_byte() == 2
            && CpuBoost::Boost.to_byte() == 3 && CpuBoost::Overclock.to_byte() == 4,
        GpuBoost::Low.to_byte() == 0 && GpuBoost::Medium.to_byte() == 1 && GpuBoost::High.to_byte() == 2,
        MaxFanSpeedMode::Enable.to_byte() == 2 && MaxFanSpeedMode::Disable.to_byte() == 0,
        BatteryCare::Enable.to_byte() == 0xd0 && BatteryCare::Disable.to_byte() == 0x50,
        LightsAlwaysOn::Enable.to_byte() == 3 && LightsAlwaysOn::Disable.to_byte() == 0,
        Cluster::Cpu.to_byte() == 1 && Cluster::Gpu.to_byte() == 2,
        ThermalZone::Zone1.to_byte() == 1 && ThermalZone::Zone2.to_byte() == 2,
        FanZone::Zone1.to_byte() == 1 && FanZone::Zone2.to_byte() == 2 && FanZone::Zone3.to_byte() == 3
            && FanZone::Zone4.to_byte() == 4,
{
}

/// The first request of each reading operation, by command code and
/// arguments.
pub proof fn law_query_requests(cluster: Cluster, zone: FanZone)
    ensures
        get_perf_mode_step(seq![]) == StepView::<(PerfMode, FanMode)>::Send(
            PacketView::request(0x0d82, seq![0u8, 1u8, 0u8, 0u8]),
        ),
        get_cpu_boost_step(seq![]) == StepView::<CpuBoost>::Send(PacketView::request(0x0d87, seq![0u8, 1u8, 0u8])),
        get_gpu_boost_step(seq![]) == StepView::<GpuBoost>::Send(PacketView::request(0x0d87, seq![0u8, 2u8, 0u8])),
        fan_rpm_step(0x0d81, zone, seq![]) == StepView::<u16>::Send(
            PacketView::request(0x0d81, seq![0u8, zone.to_byte(), 0u8]),
        ),
        get_max_fan_speed_mode_step(seq![]) == StepView::<MaxFanSpeedMode>::Send(
            PacketView::request(0x078f, seq![0u8]),
        ),
        get_firmware_version_step(seq![]) == StepView::<Seq<char>>::Send(PacketView::request(0x0081, seq![0u8])),
        get_logo_mode_step(seq![]) == StepView::<LogoMode>::Send(PacketView::request(0x0380, seq![1u8, 4u8, 0u8])),
        get_keyboard_brightness_step(seq![]) == StepView::<u8>::Send(
            PacketView::request(0x0383, seq![1u8, 5u8, 0u8]),
        ),
        get_lights_always_on_step(seq![]) == StepView::<LightsAlwaysOn>::Send(
            PacketView::request(0x0084, seq![0u8, 0u8]),
        ),
        get_battery_care_step(seq![]) == StepView::<BatteryCare>::Send(PacketView::request(0x0792, seq![0u8])),
{
}

/// What the replies of the reading operations mean: the argument that
/// carries the value, the argument that must name what was asked for, and
/// the scale of fan speeds.
pub proof fn law_query_replies(reply: PacketView, logo_reply: PacketView, zone: FanZone)
    requires
        reply.args().len() >= 4,
    ensures
        get_perf_mode_step(seq![reply]) == StepView::Done(
            match (PerfMode::from_byte(reply.args()[2]), FanMode::from_byte(reply.args()[3])) {
                (Ok(p), Ok(f)) => Ok::<(PerfMode, FanMode), RazerError>((p, f)),
                (Err(e), _) => Err(e),
                (Ok(_), Err(e)) => Err(e),
            },
        ),
        get_cpu_boost_step(seq![reply]) == StepView::Done(
            if reply.args()[1] == 1 { CpuBoost::from_byte(reply.args()[2]) } else { Err(RazerError::ResponseMismatch) },
        ),
        get_gpu_boost_step(seq![reply]) == StepView::Done(
            if reply.args()[1] == 2 { GpuBoost::from_byte(reply.args()[2]) } else { Err(RazerError::ResponseMismatch) },
        ),
        fan_rpm_step(0x0d81, zone, seq![reply]) == StepView::Done(
            if reply.args()[1] == zone.to_byte() {
                Ok::<u16, RazerError>((reply.args()[2] * 100) as u16)
            } else {
                Err(RazerError::ResponseMismatch)
            },
        ),
        fan_rpm_step(0x0d88, zone, seq![reply]) == fan_rpm_step(0x0d81, zone, seq![reply]),
        get_max_fan_speed_mode_step(seq![reply]) == StepView::Done(MaxFanSpeedMode::from_byte(reply.args()[0])),
        get_keyboard_brightness_step(seq![reply]) == StepView::Done(
            if reply.args()[1] == 5 { Ok::<u8, RazerError>(reply.args()[2]) } else { Err(RazerError::ResponseMismatch) },
        ),
        get_lights_always_on_step(seq![reply]) == StepView::Done(LightsAlwaysOn::from_byte(reply.args()[0])),
        get_battery_care_step(seq![reply]) == StepView::Done(BatteryCare::from_byte(reply.args()[0])),
        reply.args()[2] == 0 ==> get_logo_mode_step(seq![reply]) == StepView::Done(Ok::<LogoMode, RazerError>(LogoMode::Off)),
        reply.args()[2] == 1 ==> get_logo_mode_step(seq![reply]) == StepView::<LogoMode>::Send(
            PacketView::request(0x0382, seq![1u8, 4u8, 0u8]),
        ),
        reply.args()[2] == 1 && logo_reply.args().len() >= 3 ==> get_logo_mode_step(seq![reply, logo_reply]) == StepView::Done(
            if logo_reply.args()[2] == 0 {
                Ok::<LogoMode, RazerError>(LogoMode::Static)
            } else if logo_reply.args()[2] == 2 {
                Ok(LogoMode::Breathing)
            } else {
                Err(RazerError::InvalidValue { value: logo_reply.args()[2], kind: crate::error::ValueKind::LogoMode })
            },
        ),
{
    assert(seq![reply][0] == reply);
    assert(seq![reply, logo_reply][0] == reply);
    assert(seq![reply, logo_reply][1] == logo_reply);
}

/// The requests of the writing operations with a single request, by
/// command code and arguments; each is done once its request is echoed.
pub proof fn law_single_write_requests(
    brightness: u8,
    lights: LightsAlwaysOn,
    care: BatteryCare,
    reply: PacketView,
)
    ensures
        send_commands_step(seq![keyboard_brightness_request(brightness)], seq![]) == StepView::<()>::Send(
            PacketView::request(0x0303, seq![1u8, 5u8, brightness]),
        ),
        send_commands_step(seq![lights_always_on_request(lights)], seq![]) == StepView::<()>::Send(
            PacketView::request(0x0004, seq![lights.to_byte(), 0u8]),
        ),
        send_commands_step(seq![battery_care_request(care)], seq![]) == StepView::<()>::Send(
            PacketView::request(0x0712, seq![care.to_byte()]),
        ),
        echoes(reply, PacketView::request(0x0303, seq![1u8, 5u8, brightness])) ==> send_commands_step(
            seq![keyboard_brightness_request(brightness)],
            seq![reply],
        ) == StepView::<()>::Done(Ok(())),
        !echoes(reply, PacketView::request(0x0303, seq![1u8, 5u8, brightness])) ==> send_commands_step(
            seq![keyboard_brightness_request(brightness)],
            seq![reply],
        ) == StepView::<()>::Done(Err(RazerError::ResponseMismatch)),
        max_fan_speed_request(MaxFanSpeedMode::Enable) == PacketView::request(0x070f, seq![2u8]),
        max_fan_speed_request(MaxFanSpeedMode::Disable) == PacketView::request(0x070f, seq![0u8]),
        forall|c: Cluster, level: u8| #[trigger] boost_request(c, level) == PacketView::request(
            0x0d07,
            seq![0u8, c.to_byte(), level],
        ),
{
    assert(seq![reply][0] == reply);
    law_send_commands(seq![keyboard_brightness_request(brightness)], seq![reply]);
}

/// With the laptop in Balanced mode with Manual fans, setting a speed sets
/// fan 1, 2, ... up to the model's number of fans (at most four) in turn,
/// each with command 0x0d01 and arguments `[0, fan, rpm / 100]`, the next
/// once the previous is echoed, and is done after the last.
pub proof fn law_set_fan_rpm_every_fan(device: DeviceInfo, rpm: u16, replies: Seq<PacketView>)
    requires
        2000 <= rpm <= 5000,
        replies.len() >= 1,
        perf_mode_reply(replies[0]) == Ok::<(PerfMode, FanMode), RazerError>((PerfMode::Balanced, FanMode::Manual)),
        forall|i: int|
            1 <= i < replies.len() ==> echoes(
                #[trigger] replies[i],
                PacketView::request(0x0d01, seq![0u8, i as u8, (rpm / 100) as u8]),
            ),
    ensures
        ({
            let fans: int = if device.fan_zones <= 4 { device.fan_zones as int } else { 4 };
            &&& replies.len() <= fans ==> set_fan_rpm_step(device, rpm, replies) == StepView::<()>::Send(
                PacketView::request(0x0d01, seq![0u8, replies.len() as u8, (rpm / 100) as u8]),
            )
            &&& replies.len() > fans ==> set_fan_rpm_step(device, rpm, replies) == StepView::<()>::Done(Ok(()))
        }),
{
    let rest = replies.drop_first();
    let reqs = fan_rpm_requests(driven_fans(device), rpm);
    assert forall|i: int| 0 <= i < rest.len() && i < reqs.len() implies echoes(rest[i], reqs[i]) by {
        assert(rest[i] == replies[i + 1]);
        assert(fan_zone_at(i).to_byte() == (i + 1) as u8);
    }
    law_send_commands(reqs, rest);
    if rest.len() < reqs.len() {
        assert(fan_zone_at(rest.len() as int).to_byte() == replies.len() as u8);
    }
}
} // verus!
