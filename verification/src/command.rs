//! The laptop's commands as request/reply exchanges.
//!
//! Each operation is a function of the replies received so far (`replies`,
//! oldest first).  It returns `Step::Send(request)` when the next request is
//! due, the reply to which the caller appends to `replies` before calling the
//! operation again, or `Step::Done(outcome)` when the operation is over.  An
//! operation that is `Done` sends nothing more, and a failed check on a reply
//! ends the operation at once.
use vstd::prelude::*;

use crate::device::DeviceInfo;
use crate::error::{Precondition, RazerError, ValueKind};
use crate::packet::{Packet, PacketView, ARGS_CAPACITY};
use crate::types::{
    BatteryCare, Cluster, CpuBoost, FanMode, FanZone, GpuBoost, LightsAlwaysOn, LogoMode,
    MaxFanSpeedMode, PerfMode, ThermalZone,
};

verus! {

// Command codes: the high byte is the command class, the low byte the command id.
pub const SET_PERF_MODE: u16 = 0x0d02;
pub const GET_PERF_MODE: u16 = 0x0d82;
pub const SET_BOOST: u16 = 0x0d07;
pub const GET_BOOST: u16 = 0x0d87;
pub const SET_FAN_RPM: u16 = 0x0d01;
pub const GET_FAN_RPM: u16 = 0x0d81;
pub const GET_ACTUAL_FAN_RPM: u16 = 0x0d88;
pub const SET_MAX_FAN_SPEED: u16 = 0x070f;
pub const GET_MAX_FAN_SPEED: u16 = 0x078f;
pub const GET_FIRMWARE_VERSION: u16 = 0x0081;
pub const SET_LOGO_POWER: u16 = 0x0300;
pub const GET_LOGO_POWER: u16 = 0x0380;
pub const SET_LOGO_MODE: u16 = 0x0302;
pub const GET_LOGO_MODE: u16 = 0x0382;
pub const SET_KBD_BRIGHTNESS: u16 = 0x0303;
pub const GET_KBD_BRIGHTNESS: u16 = 0x0383;
pub const SET_LIGHTS_ALWAYS_ON: u16 = 0x0004;
pub const GET_LIGHTS_ALWAYS_ON: u16 = 0x0084;
pub const SET_BATTERY_CARE: u16 = 0x0712;
pub const GET_BATTERY_CARE: u16 = 0x0792;

/// Slowest and fastest fan speed, in RPM, that may be set.
pub const MIN_FAN_RPM: u16 = 2000;
pub const MAX_FAN_RPM: u16 = 5000;

/// What an operation asks of its caller next.
pub enum Step<T> {
    /// Send this request and hand its reply back.
    Send(Packet),
    /// The operation is over, with this outcome.
    Done(Result<T, RazerError>),
}

/// The contents of a `Step`, with the outcome's value taken by its view.
pub enum StepView<V> {
    Send(PacketView),
    Done(Result<V, RazerError>),
}

impl<T: View> View for Step<T> {
    type V = StepView<T::V>;

    open spec fn view(&self) -> StepView<T::V> {
        match self {
            Step::Send(p) => StepView::Send(p@),
            Step::Done(Ok(v)) => StepView::Done(Ok(v@)),
            Step::Done(Err(e)) => StepView::Done(Err(*e)),
        }
    }
}

/// The contents of a sequence of packets.
pub open spec fn views(packets: Seq<Packet>) -> Seq<PacketView> {
    packets.map_values(|p: Packet| p@)
}

/// The `i`-th reply, if it has come, carries at least `n` argument bytes.
/// An operation reads its replies' arguments by position, so a shorter reply
/// cannot be read; a device replies with at least as many argument bytes as
/// the request that it answers, which is always enough.
pub open spec fn reply_has(replies: Seq<PacketView>, i: int, n: nat) -> bool {
    i < replies.len() ==> replies[i].args().len() >= n
}

/// The request `Packet::new(command, args)`.
pub open spec fn request(command: u16, args: Seq<u8>) -> PacketView {
    PacketView::request(command, args)
}

/// A reply echoes a request when its arguments begin with the request's.
pub open spec fn echoes(reply: PacketView, request: PacketView) -> bool {
    request.args().is_prefix_of(reply.args())
}

/// Sending `requests` in order, each of which must be echoed by its reply.
pub open spec fn send_commands_step(requests: Seq<PacketView>, replies: Seq<PacketView>) -> StepView<()> {
    if exists|i: int|
        0 <= i < replies.len() && i < requests.len() && !#[trigger] echoes(replies[i], requests[i]) {
        StepView::Done(Err(RazerError::ResponseMismatch))
    } else if replies.len() < requests.len() {
        StepView::Send(requests[replies.len() as int])
    } else {
        StepView::Done(Ok(()))
    }
}

/// Whether `prefix` is a prefix of `s`.
fn starts_with(s: &[u8], prefix: &[u8]) -> (b: bool)
    ensures
        b == prefix@.is_prefix_of(s@),
{
    if prefix.len() > s.len() {
        return false;
    }
    let mut i: usize = 0;
    while i < prefix.len()
        invariant
            i <= prefix@.len() <= s@.len(),
            forall|j: int| 0 <= j < i ==> prefix@[j] == s@[j],
        decreases prefix@.len() - i,
    {
        if prefix[i] != s[i] {
            return false;
        }
        i = i + 1;
    }
    true
}

/// Sends `requests` in order and checks that each reply echoes its request.
fn send_commands(requests: &Vec<Packet>, replies: &[Packet]) -> (s: Step<()>)
    ensures
        s@ == send_commands_step(views(requests@), views(replies@)),
{
    let ghost reqs = views(requests@);
    let ghost reps = views(replies@);
    let n = if replies.len() < requests.len() {
        replies.len()
    } else {
        requests.len()
    };
    let mut i: usize = 0;
    while i < n
        invariant
            i <= n,
            n <= replies@.len(),
            n <= requests@.len(),
            n == replies@.len() || n == requests@.len(),
            reqs == views(requests@),
            reps == views(replies@),
            forall|j: int| 0 <= j < i ==> echoes(reps[j], reqs[j]),
        decreases n - i,
    {
        if !starts_with(replies[i].get_args(), requests[i].get_args()) {
            assert(!echoes(reps[i as int], reqs[i as int]));
            return Step::Done(Err(RazerError::ResponseMismatch));
        }
        i = i + 1;
    }
    assert(!exists|j: int| 0 <= j < reps.len() && j < reqs.len() && !#[trigger] echoes(reps[j], reqs[j]));
    if replies.len() < requests.len() {
        Step::Send(requests[replies.len()].clone())
    } else {
        Step::Done(Ok(()))
    }
}

// ---------------------------------------------------------------------------
// Performance mode

/// The query for the performance mode and fan mode.
pub open spec fn perf_mode_query() -> PacketView {
    request(GET_PERF_MODE, seq![0u8, ThermalZone::Zone1.to_byte(), 0u8, 0u8])
}

/// What a reply to `perf_mode_query` says: argument 2 is the performance
/// mode, argument 3 the fan mode.
pub open spec fn perf_mode_reply(reply: PacketView) -> Result<(PerfMode, FanMode), RazerError> {
    match PerfMode::from_byte(reply.args()[2]) {
        Err(e) => Err(e),
        Ok(perf) => match FanMode::from_byte(reply.args()[3]) {
            Err(e) => Err(e),
            Ok(fan) => Ok((perf, fan)),
        },
    }
}

pub open spec fn get_perf_mode_step(replies: Seq<PacketView>) -> StepView<(PerfMode, FanMode)> {
    if replies.len() == 0 {
        StepView::Send(perf_mode_query())
    } else {
        StepView::Done(perf_mode_reply(replies[0]))
    }
}

fn perf_mode_query_packet() -> (p: Packet)
    ensures
        p@ == perf_mode_query(),
{
    Packet::new(GET_PERF_MODE, &[0, ThermalZone::Zone1.to_byte(), 0, 0])
}

fn parse_perf_mode(reply: &Packet) -> (r: Result<(PerfMode, FanMode), RazerError>)
    requires
        reply@.args().len() >= 4,
    ensures
        r == perf_mode_reply(reply@),
{
    let args = reply.get_args();
    let perf = match PerfMode::from_byte(args[2]) {
        Ok(perf) => perf,
        Err(e) => return Err(e),
    };
    let fan = match FanMode::from_byte(args[3]) {
        Ok(fan) => fan,
        Err(e) => return Err(e),
    };
    Ok((perf, fan))
}

/// Gets the current performance mode and fan mode.
pub fn get_perf_mode(replies: &[Packet]) -> (s: Step<(PerfMode, FanMode)>)
    requires
        reply_has(views(replies@), 0, 4),
    ensures
        s@ == get_perf_mode_step(views(replies@)),
{
    if replies.len() == 0 {
        Step::Send(perf_mode_query_packet())
    } else {
        Step::Done(parse_perf_mode(&replies[0]))
    }
}

/// The requests that set `perf` and `fan` in each thermal zone.
pub open spec fn perf_mode_requests(perf: PerfMode, fan: FanMode) -> Seq<PacketView> {
    seq![
        request(SET_PERF_MODE, seq![1u8, ThermalZone::Zone1.to_byte(), perf.to_byte(), fan.to_byte()]),
        request(SET_PERF_MODE, seq![1u8, ThermalZone::Zone2.to_byte(), perf.to_byte(), fan.to_byte()]),
    ]
}

pub open spec fn set_perf_mode_internal_step(
    device: DeviceInfo,
    perf: PerfMode,
    fan: FanMode,
    replies: Seq<PacketView>,
) -> StepView<()> {
    if fan == FanMode::Manual && perf != PerfMode::Balanced {
        StepView::Done(Err(RazerError::PreconditionFailed(Precondition::FanModeNeedsBalanced(fan))))
    } else if !device.allows(perf) {
        StepView::Done(Err(RazerError::PreconditionFailed(Precondition::UnsupportedPerfMode(perf))))
    } else {
        send_commands_step(perf_mode_requests(perf, fan), replies)
    }
}

fn set_perf_mode_internal(device: &DeviceInfo, perf: PerfMode, fan: FanMode, replies: &[Packet]) -> (s: Step<()>)
    ensures
        s@ == set_perf_mode_internal_step(*device, perf, fan, views(replies@)),
{
    if fan == FanMode::Manual && perf != PerfMode::Balanced {
        return Step::Done(Err(RazerError::PreconditionFailed(Precondition::FanModeNeedsBalanced(fan))));
    }
    if !device.supports(perf) {
        return Step::Done(Err(RazerError::PreconditionFailed(Precondition::UnsupportedPerfMode(perf))));
    }
    let mut requests: Vec<Packet> = Vec::new();
    requests.push(Packet::new(SET_PERF_MODE, &[1, ThermalZone::Zone1.to_byte(), perf.to_byte(), fan.to_byte()]));
    requests.push(Packet::new(SET_PERF_MODE, &[1, ThermalZone::Zone2.to_byte(), perf.to_byte(), fan.to_byte()]));
    assert(views(requests@) =~= perf_mode_requests(perf, fan));
    send_commands(&requests, replies)
}

/// Sets the laptop's performance mode (Silent, Balanced, or Custom).
///
/// Fan mode is automatically set to Auto. Use [`set_fan_mode`] to switch to manual fan control.
pub fn set_perf_mode(device: &DeviceInfo, perf_mode: PerfMode, replies: &[Packet]) -> (s: Step<()>)
    ensures
        s@ == set_perf_mode_internal_step(*device, perf_mode, FanMode::Auto, views(replies@)),
{
    set_perf_mode_internal(device, perf_mode, FanMode::Auto, replies)
}


/// Sends one request, whose reply must echo it.
fn send_command(command: u16, args: &[u8], replies: &[Packet]) -> (s: Step<()>)
    requires
        args@.len() <= ARGS_CAPACITY,
    ensures
        s@ == send_commands_step(seq![request(command, args@)], views(replies@)),
{
    let mut requests: Vec<Packet> = Vec::new();
    requests.push(Packet::new(command, args));
    assert(views(requests@) =~= seq![request(command, args@)]);
    send_commands(&requests, replies)
}

/// The replies after the first.
fn later_replies(replies: &[Packet]) -> (r: &[Packet])
    requires
        replies@.len() >= 1,
    ensures
        views(r@) == views(replies@).drop_first(),
{
    let r = vstd::slice::slice_subrange(replies, 1, replies.len());
    assert(views(r@) =~= views(replies@).drop_first());
    r
}

// ---------------------------------------------------------------------------
// CPU and GPU boost

pub open spec fn boost_request(cluster: Cluster, level: u8) -> PacketView {
    request(SET_BOOST, seq![0u8, cluster.to_byte(), level])
}

pub open spec fn set_boost_step(cluster: Cluster, level: u8, replies: Seq<PacketView>) -> StepView<()> {
    if replies.len() == 0 {
        StepView::Send(perf_mode_query())
    } else {
        match perf_mode_reply(replies[0]) {
            Err(e) => StepView::Done(Err(e)),
            Ok((perf, fan)) => if perf == PerfMode::Custom && fan == FanMode::Auto {
                send_commands_step(seq![boost_request(cluster, level)], replies.drop_first())
            } else {
                StepView::Done(
                    Err(RazerError::PreconditionFailed(Precondition::PerfModeRequired(PerfMode::Custom))),
                )
            },
        }
    }
}

fn set_boost_internal(cluster: Cluster, level: u8, replies: &[Packet]) -> (s: Step<()>)
    requires
        reply_has(views(replies@), 0, 4),
    ensures
        s@ == set_boost_step(cluster, level, views(replies@)),
{
    if replies.len() == 0 {
        return Step::Send(perf_mode_query_packet());
    }
    match parse_perf_mode(&replies[0]) {
        Err(e) => Step::Done(Err(e)),
        Ok((perf, fan)) => if perf == PerfMode::Custom && fan == FanMode::Auto {
            send_command(SET_BOOST, &[0, cluster.to_byte(), level], later_replies(replies))
        } else {
            Step::Done(Err(RazerError::PreconditionFailed(Precondition::PerfModeRequired(PerfMode::Custom))))
        },
    }
}

pub open spec fn boost_query(cluster: Cluster) -> PacketView {
    request(GET_BOOST, seq![0u8, cluster.to_byte(), 0u8])
}

/// A reply to `boost_query(cluster)` names the cluster in argument 1 and
/// carries its boost level in argument 2.
pub open spec fn boost_reply(cluster: Cluster, reply: PacketView) -> Result<u8, RazerError> {
    if reply.args()[1] != cluster.to_byte() {
        Err(RazerError::ResponseMismatch)
    } else {
        Ok(reply.args()[2])
    }
}

fn get_boost_internal(cluster: Cluster, reply: &Packet) -> (r: Result<u8, RazerError>)
    requires
        reply@.args().len() >= 3,
    ensures
        r == boost_reply(cluster, reply@),
{
    let args = reply.get_args();
    if args[1] != cluster.to_byte() {
        return Err(RazerError::ResponseMismatch);
    }
    Ok(args[2])
}

/// Sets the CPU boost level. Requires Custom performance mode.
pub fn set_cpu_boost(boost: CpuBoost, replies: &[Packet]) -> (s: Step<()>)
    requires
        reply_has(views(replies@), 0, 4),
    ensures
        s@ == set_boost_step(Cluster::Cpu, boost.to_byte(), views(replies@)),
{
    set_boost_internal(Cluster::Cpu, boost.to_byte(), replies)
}

/// Sets the GPU boost level. Requires Custom performance mode.
pub fn set_gpu_boost(boost: GpuBoost, replies: &[Packet]) -> (s: Step<()>)
    requires
        reply_has(views(replies@), 0, 4),
    ensures
        s@ == set_boost_step(Cluster::Gpu, boost.to_byte(), views(replies@)),
{
    set_boost_internal(Cluster::Gpu, boost.to_byte(), replies)
}

pub open spec fn get_cpu_boost_step(replies: Seq<PacketView>) -> StepView<CpuBoost> {
    if replies.len() == 0 {
        StepView::Send(boost_query(Cluster::Cpu))
    } else {
        StepView::Done(
            match boost_reply(Cluster::Cpu, replies[0]) {
                Err(e) => Err(e),
                Ok(level) => CpuBoost::from_byte(level),
            },
        )
    }
}

pub open spec fn get_gpu_boost_step(replies: Seq<PacketView>) -> StepView<GpuBoost> {
    if replies.len() == 0 {
        StepView::Send(boost_query(Cluster::Gpu))
    } else {
        StepView::Done(
            match boost_reply(Cluster::Gpu, replies[0]) {
                Err(e) => Err(e),
                Ok(level) => GpuBoost::from_byte(level),
            },
        )
    }
}

/// Gets the current CPU boost level.
pub fn get_cpu_boost(replies: &[Packet]) -> (s: Step<CpuBoost>)
    requires
        reply_has(views(replies@), 0, 3),
    ensures
        s@ == get_cpu_boost_step(views(replies@)),
{
    if replies.len() == 0 {
        return Step::Send(Packet::new(GET_BOOST, &[0, Cluster::Cpu.to_byte(), 0]));
    }
    match get_boost_internal(Cluster::Cpu, &replies[0]) {
        Err(e) => Step::Done(Err(e)),
        Ok(level) => Step::Done(CpuBoost::from_byte(level)),
    }
}

/// Gets the current GPU boost level.
pub fn get_gpu_boost(replies: &[Packet]) -> (s: Step<GpuBoost>)
    requires
        reply_has(views(replies@), 0, 3),
    ensures
        s@ == get_gpu_boost_step(views(replies@)),
{
    if replies.len() == 0 {
        return Step::Send(Packet::new(GET_BOOST, &[0, Cluster::Gpu.to_byte(), 0]));
    }
    match get_boost_internal(Cluster::Gpu, &replies[0]) {
        Err(e) => Step::Done(Err(e)),
        Ok(level) => Step::Done(GpuBoost::from_byte(level)),
    }
}

// ---------------------------------------------------------------------------
// Fans

pub open spec fn spec_fan_rpm_in_range(rpm: u16) -> bool {
    MIN_FAN_RPM <= rpm <= MAX_FAN_RPM
}

/// Whether `rpm` is a fan speed that may be set (2000 to 5000 RPM).
#[verifier::when_used_as_spec(spec_fan_rpm_in_range)]
pub fn fan_rpm_in_range(rpm: u16) -> (b: bool)
    ensures
        b == spec_fan_rpm_in_range(rpm),
{
    MIN_FAN_RPM <= rpm && rpm <= MAX_FAN_RPM
}

/// The number of fans that are driven: the model's fans, at most four.
pub open spec fn driven_fans(device: DeviceInfo) -> nat {
    if device.fan_zones <= 4 {
        device.fan_zones as nat
    } else {
        4
    }
}

/// The fan zone in position `i` (0 to 3).
pub open spec fn fan_zone_at(i: int) -> FanZone {
    if i == 0 {
        FanZone::Zone1
    } else if i == 1 {
        FanZone::Zone2
    } else if i == 2 {
        FanZone::Zone3
    } else {
        FanZone::Zone4
    }
}

/// The requests that set the first `count` fans to `rpm`, which is sent in
/// hundreds of RPM.
pub open spec fn fan_rpm_requests(count: nat, rpm: u16) -> Seq<PacketView> {
    Seq::new(count, |i: int| request(SET_FAN_RPM, seq![0u8, fan_zone_at(i).to_byte(), (rpm / 100) as u8]))
}

pub open spec fn set_fan_rpm_step(device: DeviceInfo, rpm: u16, replies: Seq<PacketView>) -> StepView<()> {
    if !fan_rpm_in_range(rpm) {
        StepView::Done(Err(RazerError::PreconditionFailed(Precondition::RpmOutOfRange(rpm))))
    } else if replies.len() == 0 {
        StepView::Send(perf_mode_query())
    } else {
        match perf_mode_reply(replies[0]) {
            Err(e) => StepView::Done(Err(e)),
            Ok((perf, fan)) => if perf == PerfMode::Balanced && fan == FanMode::Manual {
                send_commands_step(fan_rpm_requests(driven_fans(device), rpm), replies.drop_first())
            } else {
                StepView::Done(Err(RazerError::PreconditionFailed(Precondition::BalancedManualRequired)))
            },
        }
    }
}

fn fan_zone(i: usize) -> (z: FanZone)
    requires
        i < 4,
    ensures
        z == fan_zone_at(i as int),
{
    if i == 0 {
        FanZone::Zone1
    } else if i == 1 {
        FanZone::Zone2
    } else if i == 2 {
        FanZone::Zone3
    } else {
        FanZone::Zone4
    }
}

/// Sets the fan speed in RPM. Valid range is 2000-5000.
///
/// Requires Balanced performance mode with Manual fan mode.
pub fn set_fan_rpm(device: &DeviceInfo, rpm: u16, replies: &[Packet]) -> (s: Step<()>)
    requires
        reply_has(views(replies@), 0, 4),
    ensures
        s@ == set_fan_rpm_step(*device, rpm, views(replies@)),
{
    if !fan_rpm_in_range(rpm) {
        return Step::Done(Err(RazerError::PreconditionFailed(Precondition::RpmOutOfRange(rpm))));
    }
    if replies.len() == 0 {
        return Step::Send(perf_mode_query_packet());
    }
    match parse_perf_mode(&replies[0]) {
        Err(e) => Step::Done(Err(e)),
        Ok((perf, fan)) => if perf == PerfMode::Balanced && fan == FanMode::Manual {
            let count: usize = if device.fan_zones <= 4 {
                device.fan_zones as usize
            } else {
                4
            };
            let level = (rpm / 100) as u8;
            let mut requests: Vec<Packet> = Vec::new();
            let mut i: usize = 0;
            while i < count
                invariant
                    i <= count <= 4,
                    count == driven_fans(*device),
                    level == (rpm / 100) as u8,
                    views(requests@) =~= fan_rpm_requests(i as nat, rpm),
                decreases count - i,
            {
                let request = Packet::new(SET_FAN_RPM, &[0, fan_zone(i).to_byte(), level]);
                assert(request@ == fan_rpm_requests((i + 1) as nat, rpm)[i as int]);
                let ghost before = requests@;
                requests.push(request);
                assert(views(requests@) =~= views(before).push(request@));
                assert(fan_rpm_requests((i + 1) as nat, rpm) =~= fan_rpm_requests(i as nat, rpm).push(request@));
                i = i + 1;
            }
            send_commands(&requests, later_replies(replies))
        } else {
            Step::Done(Err(RazerError::PreconditionFailed(Precondition::BalancedManualRequired)))
        },
    }
}

pub open spec fn fan_rpm_query(command: u16, zone: FanZone) -> PacketView {
    request(command, seq![0u8, zone.to_byte(), 0u8])
}

/// A reply to `fan_rpm_query(_, zone)` names the zone in argument 1 and
/// carries the speed in hundreds of RPM in argument 2.
pub open spec fn fan_rpm_reply(zone: FanZone, reply: PacketView) -> Result<u16, RazerError> {
    if reply.args()[1] != zone.to_byte() {
        Err(RazerError::ResponseMismatch)
    } else {
        Ok((reply.args()[2] * 100) as u16)
    }
}

pub open spec fn fan_rpm_step(command: u16, zone: FanZone, replies: Seq<PacketView>) -> StepView<u16> {
    if replies.len() == 0 {
        StepView::Send(fan_rpm_query(command, zone))
    } else {
        StepView::Done(fan_rpm_reply(zone, replies[0]))
    }
}

fn query_fan_rpm(command: u16, zone: FanZone, replies: &[Packet]) -> (s: Step<u16>)
    requires
        reply_has(views(replies@), 0, 3),
    ensures
        s@ == fan_rpm_step(command, zone, views(replies@)),
{
    if replies.len() == 0 {
        return Step::Send(Packet::new(command, &[0, zone.to_byte(), 0]));
    }
    let args = replies[0].get_args();
    if args[1] != zone.to_byte() {
        return Step::Done(Err(RazerError::ResponseMismatch));
    }
    Step::Done(Ok(args[2] as u16 * 100))
}

/// Gets the target fan RPM for the specified zone.
pub fn get_fan_rpm(fan_zone: FanZone, replies: &[Packet]) -> (s: Step<u16>)
    requires
        reply_has(views(replies@), 0, 3),
    ensures
        s@ == fan_rpm_step(GET_FAN_RPM, fan_zone, views(replies@)),
{
    query_fan_rpm(GET_FAN_RPM, fan_zone, replies)
}

/// Gets the actual (live) fan RPM for the specified zone.
///
/// Unlike [`get_fan_rpm`] which returns the target RPM, this returns the
/// real current speed as reported by the fan controller. Works in any fan mode.
pub fn get_actual_fan_rpm(fan_zone: FanZone, replies: &[Packet]) -> (s: Step<u16>)
    requires
        reply_has(views(replies@), 0, 3),
    ensures
        s@ == fan_rpm_step(GET_ACTUAL_FAN_RPM, fan_zone, views(replies@)),
{
    query_fan_rpm(GET_ACTUAL_FAN_RPM, fan_zone, replies)
}

pub open spec fn max_fan_speed_request(mode: MaxFanSpeedMode) -> PacketView {
    request(SET_MAX_FAN_SPEED, seq![mode.to_byte()])
}

pub open spec fn set_max_fan_speed_mode_step(mode: MaxFanSpeedMode, replies: Seq<PacketView>) -> StepView<()> {
    if replies.len() == 0 {
        StepView::Send(perf_mode_query())
    } else {
        match perf_mode_reply(replies[0]) {
            Err(e) => StepView::Done(Err(e)),
            Ok((perf, _fan)) => if perf == PerfMode::Custom {
                send_commands_step(seq![max_fan_speed_request(mode)], replies.drop_first())
            } else {
                StepView::Done(
                    Err(RazerError::PreconditionFailed(Precondition::PerfModeRequired(PerfMode::Custom))),
                )
            },
        }
    }
}

/// Enables or disables max fan speed mode. Requires Custom performance mode.
pub fn set_max_fan_speed_mode(mode: MaxFanSpeedMode, replies: &[Packet]) -> (s: Step<()>)
    requires
        reply_has(views(replies@), 0, 4),
    ensures
        s@ == set_max_fan_speed_mode_step(mode, views(replies@)),
{
    if replies.len() == 0 {
        return Step::Send(perf_mode_query_packet());
    }
    match parse_perf_mode(&replies[0]) {
        Err(e) => Step::Done(Err(e)),
        Ok((perf, _fan)) => if perf == PerfMode::Custom {
            let args: [u8; 1] = [mode.to_byte()];
            assert(args@ =~= seq![mode.to_byte()]);
            send_command(SET_MAX_FAN_SPEED, &args, later_replies(replies))
        } else {
            Step::Done(Err(RazerError::PreconditionFailed(Precondition::PerfModeRequired(PerfMode::Custom))))
        },
    }
}

pub open spec fn get_max_fan_speed_mode_step(replies: Seq<PacketView>) -> StepView<MaxFanSpeedMode> {
    if replies.len() == 0 {
        StepView::Send(request(GET_MAX_FAN_SPEED, seq![0u8]))
    } else {
        StepView::Done(MaxFanSpeedMode::from_byte(replies[0].args()[0]))
    }
}

/// Gets the current max fan speed mode setting.
pub fn get_max_fan_speed_mode(replies: &[Packet]) -> (s: Step<MaxFanSpeedMode>)
    requires
        reply_has(views(replies@), 0, 1),
    ensures
        s@ == get_max_fan_speed_mode_step(views(replies@)),
{
    if replies.len() == 0 {
        let args: [u8; 1] = [0];
        assert(args@ =~= seq![0u8]);
        return Step::Send(Packet::new(GET_MAX_FAN_SPEED, &args));
    }
    Step::Done(MaxFanSpeedMode::from_byte(replies[0].get_args()[0]))
}

pub open spec fn set_fan_mode_step(device: DeviceInfo, mode: FanMode, replies: Seq<PacketView>) -> StepView<()> {
    if replies.len() == 0 {
        StepView::Send(perf_mode_query())
    } else {
        match perf_mode_reply(replies[0]) {
            Err(e) => StepView::Done(Err(e)),
            Ok((perf, _fan)) => if perf == PerfMode::Balanced {
                set_perf_mode_internal_step(device, PerfMode::Balanced, mode, replies.drop_first())
            } else {
                StepView::Done(
                    Err(RazerError::PreconditionFailed(Precondition::PerfModeRequired(PerfMode::Balanced))),
                )
            },
        }
    }
}

/// Sets the fan mode to Auto or Manual. Requires Balanced performance mode.
pub fn set_fan_mode(device: &DeviceInfo, mode: FanMode, replies: &[Packet]) -> (s: Step<()>)
    requires
        reply_has(views(replies@), 0, 4),
    ensures
        s@ == set_fan_mode_step(*device, mode, views(replies@)),
{
    if replies.len() == 0 {
        return Step::Send(perf_mode_query_packet());
    }
    match parse_perf_mode(&replies[0]) {
        Err(e) => Step::Done(Err(e)),
        Ok((perf, _fan)) => if perf == PerfMode::Balanced {
            set_perf_mode_internal(device, PerfMode::Balanced, mode, later_replies(replies))
        } else {
            Step::Done(Err(RazerError::PreconditionFailed(Precondition::PerfModeRequired(PerfMode::Balanced))))
        },
    }
}

// ---------------------------------------------------------------------------
// Firmware version

/// `String::push` (std) appends the character `ch` to the end of the string.
pub assume_specification[ String::push ](s: &mut String, ch: char)
    ensures
        final(s)@ == old(s)@.push(ch),
;

pub open spec fn is_ascii_digit(b: u8) -> bool {
    0x30 <= b <= 0x39
}

/// The ASCII digits in `bytes`, in order, as characters.
pub open spec fn ascii_digits(bytes: Seq<u8>) -> Seq<char>
    decreases bytes.len(),
{
    if bytes.len() == 0 {
        seq![]
    } else if is_ascii_digit(bytes.last()) {
        ascii_digits(bytes.drop_last()).push(bytes.last() as char)
    } else {
        ascii_digits(bytes.drop_last())
    }
}

/// The version that the digits `d` of a firmware reply spell: with four
/// digits or more `vAB.CD` from the first four, otherwise the digits as they
/// are; no digit at all is a mismatch.
pub open spec fn version_text(d: Seq<char>) -> Result<Seq<char>, RazerError> {
    if d.len() >= 4 {
        Ok(seq!['v', d[0], d[1], '.', d[2], d[3]])
    } else if d.len() > 0 {
        Ok(d)
    } else {
        Err(RazerError::ResponseMismatch)
    }
}

pub open spec fn get_firmware_version_step(replies: Seq<PacketView>) -> StepView<Seq<char>> {
    if replies.len() == 0 {
        StepView::Send(request(GET_FIRMWARE_VERSION, seq![0u8]))
    } else {
        StepView::Done(version_text(ascii_digits(replies[0].raw)))
    }
}

fn collect_ascii_digits(bytes: &[u8]) -> (d: Vec<char>)
    ensures
        d@ == ascii_digits(bytes@),
{
    let mut d: Vec<char> = Vec::new();
    let mut i: usize = 0;
    while i < bytes.len()
        invariant
            i <= bytes@.len(),
            d@ == ascii_digits(bytes@.take(i as int)),
        decreases bytes@.len() - i,
    {
        let b = bytes[i];
        assert(bytes@.take(i + 1).drop_last() =~= bytes@.take(i as int));
        if 0x30 <= b && b <= 0x39 {
            d.push(b as char);
        }
        i = i + 1;
    }
    assert(bytes@.take(bytes@.len() as int) =~= bytes@);
    d
}

fn string_of(chars: &[char]) -> (s: String)
    ensures
        s@ == chars@,
{
    let mut s = String::new();
    let mut i: usize = 0;
    while i < chars.len()
        invariant
            i <= chars@.len(),
            s@ =~= chars@.take(i as int),
        decreases chars@.len() - i,
    {
        s.push(chars[i]);
        i = i + 1;
    }
    s
}

/// Gets the device firmware version (e.g., "v01.03").
///
/// The reply names one argument byte in use, but the firmware's ASCII digits
/// stand at arguments 4 to 7 of the argument area (e.g.,
/// `[1, 0, 0, 0, 0x30, 0x31, 0x30, 0x33]` = "0103"), so the whole area is read.
pub fn get_firmware_version(replies: &[Packet]) -> (s: Step<String>)
    ensures
        s@ == get_firmware_version_step(views(replies@)),
{
    if replies.len() == 0 {
        let args: [u8; 1] = [0];
        assert(args@ =~= seq![0u8]);
        return Step::Send(Packet::new(GET_FIRMWARE_VERSION, &args));
    }
    let digits = collect_ascii_digits(replies[0].get_raw_args());
    if digits.len() >= 4 {
        let mut version = String::new();
        version.push('v');
        version.push(digits[0]);
        version.push(digits[1]);
        version.push('.');
        version.push(digits[2]);
        version.push(digits[3]);
        assert(version@ =~= seq!['v', digits@[0], digits@[1], '.', digits@[2], digits@[3]]);
        Step::Done(Ok(version))
    } else if digits.len() > 0 {
        Step::Done(Ok(string_of(digits.as_slice())))
    } else {
        Step::Done(Err(RazerError::ResponseMismatch))
    }
}

// ---------------------------------------------------------------------------
// Lid logo

/// The request that switches the logo's light off (for `Off`) or on.
pub open spec fn logo_power_request(mode: LogoMode) -> PacketView {
    request(SET_LOGO_POWER, seq![1u8, 4u8, if mode == LogoMode::Off { 0u8 } else { 1u8 }])
}

/// The request that selects the logo's lighting effect; `Off` has none.
pub open spec fn logo_effect_request(mode: LogoMode) -> Result<PacketView, RazerError> {
    match mode {
        LogoMode::Static => Ok(request(SET_LOGO_MODE, seq![1u8, 4u8, 0u8])),
        LogoMode::Breathing => Ok(request(SET_LOGO_MODE, seq![1u8, 4u8, 2u8])),
        LogoMode::Off => Err(RazerError::InvalidLogoMode),
    }
}

/// Setting a logo mode selects its effect, if it has one, then sets the power.
pub open spec fn logo_requests(mode: LogoMode) -> Seq<PacketView> {
    match logo_effect_request(mode) {
        Ok(effect) => seq![effect, logo_power_request(mode)],
        Err(_) => seq![logo_power_request(mode)],
    }
}

pub open spec fn set_logo_mode_step(mode: LogoMode, replies: Seq<PacketView>) -> StepView<()> {
    send_commands_step(logo_requests(mode), replies)
}

fn set_logo_power(mode: LogoMode) -> (p: Packet)
    ensures
        p@ == logo_power_request(mode),
{
    match mode {
        LogoMode::Off => Packet::new(SET_LOGO_POWER, &[1, 4, 0]),
        LogoMode::Static | LogoMode::Breathing => Packet::new(SET_LOGO_POWER, &[1, 4, 1]),
    }
}

fn set_logo_mode_internal(mode: LogoMode) -> (r: Result<Packet, RazerError>)
    ensures
        r matches Ok(p) ==> logo_effect_request(mode) == Ok::<PacketView, RazerError>(p@),
        r matches Err(e) ==> logo_effect_request(mode) == Err::<PacketView, RazerError>(e),
{
    match mode {
        LogoMode::Static => Ok(Packet::new(SET_LOGO_MODE, &[1, 4, 0])),
        LogoMode::Breathing => Ok(Packet::new(SET_LOGO_MODE, &[1, 4, 2])),
        _ => Err(RazerError::InvalidLogoMode),
    }
}

/// Sets the lid logo mode (Off, Static, or Breathing).
pub fn set_logo_mode(mode: LogoMode, replies: &[Packet]) -> (s: Step<()>)
    ensures
        s@ == set_logo_mode_step(mode, views(replies@)),
{
    let mut requests: Vec<Packet> = Vec::new();
    if mode != LogoMode::Off {
        match set_logo_mode_internal(mode) {
            Ok(effect) => requests.push(effect),
            Err(e) => return Step::Done(Err(e)),
        }
    }
    requests.push(set_logo_power(mode));
    assert(views(requests@) =~= logo_requests(mode));
    send_commands(&requests, replies)
}

pub open spec fn logo_power_query() -> PacketView {
    request(GET_LOGO_POWER, seq![1u8, 4u8, 0u8])
}

pub open spec fn logo_effect_query() -> PacketView {
    request(GET_LOGO_MODE, seq![1u8, 4u8, 0u8])
}

/// Argument 2 of a reply to `logo_power_query`: 0 is off, 1 is on.
pub open spec fn logo_power_reply(reply: PacketView) -> Result<bool, RazerError> {
    let v = reply.args()[2];
    if v == 0 {
        Ok(false)
    } else if v == 1 {
        Ok(true)
    } else {
        Err(RazerError::InvalidValue { value: v, kind: ValueKind::LogoPower })
    }
}

/// Argument 2 of a reply to `logo_effect_query`: 0 is Static, 2 is Breathing.
pub open spec fn logo_effect_reply(reply: PacketView) -> Result<LogoMode, RazerError> {
    let v = reply.args()[2];
    if v == 0 {
        Ok(LogoMode::Static)
    } else if v == 2 {
        Ok(LogoMode::Breathing)
    } else {
        Err(RazerError::InvalidValue { value: v, kind: ValueKind::LogoMode })
    }
}

/// The logo is Off when its light is off; otherwise its effect is asked for.
pub open spec fn get_logo_mode_step(replies: Seq<PacketView>) -> StepView<LogoMode> {
    if replies.len() == 0 {
        StepView::Send(logo_power_query())
    } else {
        match logo_power_reply(replies[0]) {
            Err(e) => StepView::Done(Err(e)),
            Ok(false) => StepView::Done(Ok(LogoMode::Off)),
            Ok(true) => if replies.len() == 1 {
                StepView::Send(logo_effect_query())
            } else {
                StepView::Done(logo_effect_reply(replies[1]))
            },
        }
    }
}

fn get_logo_power(reply: &Packet) -> (r: Result<bool, RazerError>)
    requires
        reply@.args().len() >= 3,
    ensures
        r == logo_power_reply(reply@),
{
    match reply.get_args()[2] {
        0 => Ok(false),
        1 => Ok(true),
        v => Err(RazerError::InvalidValue { value: v, kind: ValueKind::LogoPower }),
    }
}

fn get_logo_mode_internal(reply: &Packet) -> (r: Result<LogoMode, RazerError>)
    requires
        reply@.args().len() >= 3,
    ensures
        r == logo_effect_reply(reply@),
{
    match reply.get_args()[2] {
        0 => Ok(LogoMode::Static),
        2 => Ok(LogoMode::Breathing),
        v => Err(RazerError::InvalidValue { value: v, kind: ValueKind::LogoMode }),
    }
}

/// Gets the current lid logo mode (Off, Static, or Breathing).
pub fn get_logo_mode(replies: &[Packet]) -> (s: Step<LogoMode>)
    requires
        reply_has(views(replies@), 0, 3),
        reply_has(views(replies@), 1, 3),
    ensures
        s@ == get_logo_mode_step(views(replies@)),
{
    if replies.len() == 0 {
        return Step::Send(Packet::new(GET_LOGO_POWER, &[1, 4, 0]));
    }
    match get_logo_power(&replies[0]) {
        Err(e) => Step::Done(Err(e)),
        Ok(false) => Step::Done(Ok(LogoMode::Off)),
        Ok(true) => if replies.len() == 1 {
            Step::Send(Packet::new(GET_LOGO_MODE, &[1, 4, 0]))
        } else {
            Step::Done(get_logo_mode_internal(&replies[1]))
        },
    }
}

// ---------------------------------------------------------------------------
// Keyboard, lights and battery

pub open spec fn keyboard_brightness_query() -> PacketView {
    request(GET_KBD_BRIGHTNESS, seq![1u8, 5u8, 0u8])
}

/// A reply to `keyboard_brightness_query` names the backlight (5) in
/// argument 1 and carries the brightness in argument 2.
pub open spec fn keyboard_brightness_reply(reply: PacketView) -> Result<u8, RazerError> {
    if reply.args()[1] != 5 {
        Err(RazerError::ResponseMismatch)
    } else {
        Ok(reply.args()[2])
    }
}

pub open spec fn get_keyboard_brightness_step(replies: Seq<PacketView>) -> StepView<u8> {
    if replies.len() == 0 {
        StepView::Send(keyboard_brightness_query())
    } else {
        StepView::Done(keyboard_brightness_reply(replies[0]))
    }
}

/// Gets the current keyboard backlight brightness (0-255).
pub fn get_keyboard_brightness(replies: &[Packet]) -> (s: Step<u8>)
    requires
        reply_has(views(replies@), 0, 3),
    ensures
        s@ == get_keyboard_brightness_step(views(replies@)),
{
    if replies.len() == 0 {
        return Step::Send(Packet::new(GET_KBD_BRIGHTNESS, &[1, 5, 0]));
    }
    let args = replies[0].get_args();
    if args[1] != 5 {
        return Step::Done(Err(RazerError::ResponseMismatch));
    }
    Step::Done(Ok(args[2]))
}

pub open spec fn keyboard_brightness_request(brightness: u8) -> PacketView {
    request(SET_KBD_BRIGHTNESS, seq![1u8, 5u8, brightness])
}

/// Sets the keyboard backlight brightness (0-255).
pub fn set_keyboard_brightness(brightness: u8, replies: &[Packet]) -> (s: Step<()>)
    ensures
        s@ == send_commands_step(seq![keyboard_brightness_request(brightness)], views(replies@)),
{
    send_command(SET_KBD_BRIGHTNESS, &[1, 5, brightness], replies)
}

pub open spec fn get_lights_always_on_step(replies: Seq<PacketView>) -> StepView<LightsAlwaysOn> {
    if replies.len() == 0 {
        StepView::Send(request(GET_LIGHTS_ALWAYS_ON, seq![0u8, 0u8]))
    } else {
        StepView::Done(LightsAlwaysOn::from_byte(replies[0].args()[0]))
    }
}

/// Gets whether lights stay on when the laptop is closed/sleeping.
pub fn get_lights_always_on(replies: &[Packet]) -> (s: Step<LightsAlwaysOn>)
    requires
        reply_has(views(replies@), 0, 1),
    ensures
        s@ == get_lights_always_on_step(views(replies@)),
{
    if replies.len() == 0 {
        return Step::Send(Packet::new(GET_LIGHTS_ALWAYS_ON, &[0, 0]));
    }
    Step::Done(LightsAlwaysOn::from_byte(replies[0].get_args()[0]))
}

pub open spec fn lights_always_on_request(lights_always_on: LightsAlwaysOn) -> PacketView {
    request(SET_LIGHTS_ALWAYS_ON, seq![lights_always_on.to_byte(), 0u8])
}

/// Sets whether lights stay on when the laptop is closed/sleeping.
pub fn set_lights_always_on(lights_always_on: LightsAlwaysOn, replies: &[Packet]) -> (s: Step<()>)
    ensures
        s@ == send_commands_step(seq![lights_always_on_request(lights_always_on)], views(replies@)),
{
    send_command(SET_LIGHTS_ALWAYS_ON, &[lights_always_on.to_byte(), 0], replies)
}

pub open spec fn get_battery_care_step(replies: Seq<PacketView>) -> StepView<BatteryCare> {
    if replies.len() == 0 {
        StepView::Send(request(GET_BATTERY_CARE, seq![0u8]))
    } else {
        StepView::Done(BatteryCare::from_byte(replies[0].args()[0]))
    }
}

/// Gets the battery care mode (limits charging to 80% to extend battery life).
pub fn get_battery_care(replies: &[Packet]) -> (s: Step<BatteryCare>)
    requires
        reply_has(views(replies@), 0, 1),
    ensures
        s@ == get_battery_care_step(views(replies@)),
{
    if replies.len() == 0 {
        let args: [u8; 1] = [0];
        assert(args@ =~= seq![0u8]);
        return Step::Send(Packet::new(GET_BATTERY_CARE, &args));
    }
    Step::Done(BatteryCare::from_byte(replies[0].get_args()[0]))
}

pub open spec fn battery_care_request(mode: BatteryCare) -> PacketView {
    request(SET_BATTERY_CARE, seq![mode.to_byte()])
}

/// Sets the battery care mode (limits charging to 80% to extend battery life).
pub fn set_battery_care(mode: BatteryCare, replies: &[Packet]) -> (s: Step<()>)
    ensures
        s@ == send_commands_step(seq![battery_care_request(mode)], views(replies@)),
{
    let args: [u8; 1] = [mode.to_byte()];
    assert(args@ =~= seq![mode.to_byte()]);
    send_command(SET_BATTERY_CARE, &args, replies)
}

} // verus!
