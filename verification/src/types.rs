//! The values that the laptop's controller understands, with their byte encodings.
use vstd::prelude::*;

use crate::error::{RazerError, ValueKind};

verus! {

/// Performance profile of the laptop.
#[derive(Clone, Copy, Debug, PartialEq, Eq, Structural)]
pub enum PerfMode {
    Balanced,
    Silent,
    Custom,
}

/// Who drives the fans: the firmware (Auto) or a fixed speed (Manual).
#[derive(Clone, Copy, Debug, PartialEq, Eq, Structural)]
pub enum FanMode {
    Auto,
    Manual,
}

/// CPU boost level, available in the Custom performance mode.
#[derive(Clone, Copy, Debug, PartialEq, Eq, Structural)]
pub enum CpuBoost {
    Low,
    Medium,
    High,
    Boost,
    Overclock,
}

/// GPU boost level, available in the Custom performance mode.
#[derive(Clone, Copy, Debug, PartialEq, Eq, Structural)]
pub enum GpuBoost {
    Low,
    Medium,
    High,
}

/// Whether the fans are held at their maximum speed.
#[derive(Clone, Copy, Debug, PartialEq, Eq, Structural)]
pub enum MaxFanSpeedMode {
    Enable,
    Disable,
}

/// Lighting of the logo on the lid.
#[derive(Clone, Copy, Debug, PartialEq, Eq, Structural)]
pub enum LogoMode {
    Off,
    Static,
    Breathing,
}

/// Battery care limits charging to 80% to extend the battery's life.
#[derive(Clone, Copy, Debug, PartialEq, Eq, Structural)]
pub enum BatteryCare {
    Enable,
    Disable,
}

/// Whether the lights stay on while the laptop is closed or asleep.
#[derive(Clone, Copy, Debug, PartialEq, Eq, Structural)]
pub enum LightsAlwaysOn {
    Enable,
    Disable,
}

/// A group of processors whose boost level is set together.
#[derive(Clone, Copy, Debug, PartialEq, Eq, Structural)]
pub enum Cluster {
    Cpu,
    Gpu,
}

/// A thermal zone of the laptop; performance modes are set per zone.
#[derive(Clone, Copy, Debug, PartialEq, Eq, Structural)]
pub enum ThermalZone {
    Zone1,
    Zone2,
}

/// A fan of the laptop.
#[derive(Clone, Copy, Debug, PartialEq, Eq, Structural)]
pub enum FanZone {
    Zone1,
    Zone2,
    Zone3,
    Zone4,
}

impl View for PerfMode {
    type V = PerfMode;

    open spec fn view(&self) -> PerfMode {
        *self
    }
}

impl View for FanMode {
    type V = FanMode;

    open spec fn view(&self) -> FanMode {
        *self
    }
}

impl View for CpuBoost {
    type V = CpuBoost;

    open spec fn view(&self) -> CpuBoost {
        *self
    }
}

impl View for GpuBoost {
    type V = GpuBoost;

    open spec fn view(&self) -> GpuBoost {
        *self
    }
}

impl View for MaxFanSpeedMode {
    type V = MaxFanSpeedMode;

    open spec fn view(&self) -> MaxFanSpeedMode {
        *self
    }
}

impl View for LogoMode {
    type V = LogoMode;

    open spec fn view(&self) -> LogoMode {
        *self
    }
}

impl View for BatteryCare {
    type V = BatteryCare;

    open spec fn view(&self) -> BatteryCare {
        *self
    }
}

impl View for LightsAlwaysOn {
    type V = LightsAlwaysOn;

    open spec fn view(&self) -> LightsAlwaysOn {
        *self
    }
}

impl PerfMode {
    pub open spec fn spec_to_byte(self) -> u8 {
        match self {
            PerfMode::Balanced => 0,
            PerfMode::Silent => 5,
            PerfMode::Custom => 4,
        }
    }

    /// The byte that encodes this mode.
    #[verifier::when_used_as_spec(spec_to_byte)]
    pub fn to_byte(self) -> (b: u8)
        ensures
            b == self.spec_to_byte(),
    {
        match self {
            PerfMode::Balanced => 0,
            PerfMode::Silent => 5,
            PerfMode::Custom => 4,
        }
    }

    pub open spec fn spec_from_byte(b: u8) -> Result<PerfMode, RazerError> {
        if b == 0 {
            Ok(PerfMode::Balanced)
        } else if b == 5 {
            Ok(PerfMode::Silent)
        } else if b == 4 {
            Ok(PerfMode::Custom)
        } else {
            Err(RazerError::InvalidValue { value: b, kind: ValueKind::PerfMode })
        }
    }

    /// Decodes a mode; any byte that encodes no mode is an `InvalidValue`.
    #[verifier::when_used_as_spec(spec_from_byte)]
    pub fn from_byte(b: u8) -> (r: Result<PerfMode, RazerError>)
        ensures
            r == Self::spec_from_byte(b),
    {
        if b == 0 {
            Ok(PerfMode::Balanced)
        } else if b == 5 {
            Ok(PerfMode::Silent)
        } else if b == 4 {
            Ok(PerfMode::Custom)
        } else {
            Err(RazerError::InvalidValue { value: b, kind: ValueKind::PerfMode })
        }
    }
}


impl FanMode {
    pub open spec fn spec_to_byte(self) -> u8 {
        match self {
            FanMode::Auto => 0,
            FanMode::Manual => 1,
        }
    }

    /// The byte that encodes this value.
    #[verifier::when_used_as_spec(spec_to_byte)]
    pub fn to_byte(self) -> (b: u8)
        ensures
            b == self.spec_to_byte(),
    {
        match self {
            FanMode::Auto => 0,
            FanMode::Manual => 1,
        }
    }

    pub open spec fn spec_from_byte(b: u8) -> Result<FanMode, RazerError> {
        if b == 0 {
            Ok(FanMode::Auto)
        } else if b == 1 {
            Ok(FanMode::Manual)
        } else {
            Err(RazerError::InvalidValue { value: b, kind: ValueKind::FanMode })
        }
    }

    /// Decodes a value; any byte that encodes no value is an `InvalidValue`.
    #[verifier::when_used_as_spec(spec_from_byte)]
    pub fn from_byte(b: u8) -> (r: Result<FanMode, RazerError>)
        ensures
            r == Self::spec_from_byte(b),
    {
        if b == 0 {
            Ok(FanMode::Auto)
        } else if b == 1 {
            Ok(FanMode::Manual)
        } else {
            Err(RazerError::InvalidValue { value: b, kind: ValueKind::FanMode })
        }
    }
}

impl CpuBoost {
    pub open spec fn spec_to_byte(self) -> u8 {
        match self {
            CpuBoost::Low => 0,
            CpuBoost::Medium => 1,
            CpuBoost::High => 2,
            CpuBoost::Boost => 3,
            CpuBoost::Overclock => 4,
        }
    }

    /// The byte that encodes this value.
    #[verifier::when_used_as_spec(spec_to_byte)]
    pub fn to_byte(self) -> (b: u8)
        ensures
            b == self.spec_to_byte(),
    {
        match self {
            CpuBoost::Low => 0,
            CpuBoost::Medium => 1,
            CpuBoost::High => 2,
            CpuBoost::Boost => 3,
            CpuBoost::Overclock => 4,
        }
    }

    pub open spec fn spec_from_byte(b: u8) -> Result<CpuBoost, RazerError> {
        if b == 0 {
            Ok(CpuBoost::Low)
        } else if b == 1 {
            Ok(CpuBoost::Medium)
        } else if b == 2 {
            Ok(CpuBoost::High)
        } else if b == 3 {
            Ok(CpuBoost::Boost)
        } else if b == 4 {
            Ok(CpuBoost::Overclock)
        } else {
            Err(RazerError::InvalidValue { value: b, kind: ValueKind::CpuBoost })
        }
    }

    /// Decodes a value; any byte that encodes no value is an `InvalidValue`.
    #[verifier::when_used_as_spec(spec_from_byte)]
    pub fn from_byte(b: u8) -> (r: Result<CpuBoost, RazerError>)
        ensures
            r == Self::spec_from_byte(b),
    {
        if b == 0 {
            Ok(CpuBoost::Low)
        } else if b == 1 {
            Ok(CpuBoost::Medium)
        } else if b == 2 {
            Ok(CpuBoost::High)
        } else if b == 3 {
            Ok(CpuBoost::Boost)
        } else if b == 4 {
            Ok(CpuBoost::Overclock)
        } else {
            Err(RazerError::InvalidValue { value: b, kind: ValueKind::CpuBoost })
        }
    }
}

impl GpuBoost {
    pub open spec fn spec_to_byte(self) -> u8 {
        match self {
            GpuBoost::Low => 0,
            GpuBoost::Medium => 1,
            GpuBoost::High => 2,
        }
    }

    /// The byte that encodes this value.
    #[verifier::when_used_as_spec(spec_to_byte)]
    pub fn to_byte(self) -> (b: u8)
        ensures
            b == self.spec_to_byte(),
    {
        match self {
            GpuBoost::Low => 0,
            GpuBoost::Medium => 1,
            GpuBoost::High => 2,
        }
    }

    pub open spec fn spec_from_byte(b: u8) -> Result<GpuBoost, RazerError> {
        if b == 0 {
            Ok(GpuBoost::Low)
        } else if b == 1 {
            Ok(GpuBoost::Medium)
        } else if b == 2 {
            Ok(GpuBoost::High)
        } else {
            Err(RazerError::InvalidValue { value: b, kind: ValueKind::GpuBoost })
        }
    }

    /// Decodes a value; any byte that encodes no value is an `InvalidValue`.
    #[verifier::when_used_as_spec(spec_from_byte)]
    pub fn from_byte(b: u8) -> (r: Result<GpuBoost, RazerError>)
        ensures
            r == Self::spec_from_byte(b),
    {
        if b == 0 {
            Ok(GpuBoost::Low)
        } else if b == 1 {
            Ok(GpuBoost::Medium)
        } else if b == 2 {
            Ok(GpuBoost::High)
        } else {
            Err(RazerError::InvalidValue { value: b, kind: ValueKind::GpuBoost })
        }
    }
}

impl MaxFanSpeedMode {
    pub open spec fn spec_to_byte(self) -> u8 {
        match self {
            MaxFanSpeedMode::Enable => 2,
            MaxFanSpeedMode::Disable => 0,
        }
    }

    /// The byte that encodes this value.
    #[verifier::when_used_as_spec(spec_to_byte)]
    pub fn to_byte(self) -> (b: u8)
        ensures
            b == self.spec_to_byte(),
    {
        match self {
            MaxFanSpeedMode::Enable => 2,
            MaxFanSpeedMode::Disable => 0,
        }
    }

    pub open spec fn spec_from_byte(b: u8) -> Result<MaxFanSpeedMode, RazerError> {
        if b == 2 {
            Ok(MaxFanSpeedMode::Enable)
        } else if b == 0 {
            Ok(MaxFanSpeedMode::Disable)
        } else {
            Err(RazerError::InvalidValue { value: b, kind: ValueKind::MaxFanSpeedMode })
        }
    }

    /// Decodes a value; any byte that encodes no value is an `InvalidValue`.
    #[verifier::when_used_as_spec(spec_from_byte)]
    pub fn from_byte(b: u8) -> (r: Result<MaxFanSpeedMode, RazerError>)
        ensures
            r == Self::spec_from_byte(b),
    {
        if b == 2 {
            Ok(MaxFanSpeedMode::Enable)
        } else if b == 0 {
            Ok(MaxFanSpeedMode::Disable)
        } else {
            Err(RazerError::InvalidValue { value: b, kind: ValueKind::MaxFanSpeedMode })
        }
    }
}

impl BatteryCare {
    pub open spec fn spec_to_byte(self) -> u8 {
        match self {
            BatteryCare::Enable => 0xd0,
            BatteryCare::Disable => 0x50,
        }
    }

    /// The byte that encodes this value.
    #[verifier::when_used_as_spec(spec_to_byte)]
    pub fn to_byte(self) -> (b: u8)
        ensures
            b == self.spec_to_byte(),
    {
        match self {
            BatteryCare::Enable => 0xd0,
            BatteryCare::Disable => 0x50,
        }
    }

    pub open spec fn spec_from_byte(b: u8) -> Result<BatteryCare, RazerError> {
        if b == 0xd0 {
            Ok(BatteryCare::Enable)
        } else if b == 0x50 {
            Ok(BatteryCare::Disable)
        } else {
            Err(RazerError::InvalidValue { value: b, kind: ValueKind::BatteryCare })
        }
    }

    /// Decodes a value; any byte that encodes no value is an `InvalidValue`.
    #[verifier::when_used_as_spec(spec_from_byte)]
    pub fn from_byte(b: u8) -> (r: Result<BatteryCare, RazerError>)
        ensures
            r == Self::spec_from_byte(b),
    {
        if b == 0xd0 {
            Ok(BatteryCare::Enable)
        } else if b == 0x50 {
            Ok(BatteryCare::Disable)
        } else {
            Err(RazerError::InvalidValue { value: b, kind: ValueKind::BatteryCare })
        }
    }
}

impl LightsAlwaysOn {
    pub open spec fn spec_to_byte(self) -> u8 {
        match self {
            LightsAlwaysOn::Enable => 3,
            LightsAlwaysOn::Disable => 0,
        }
    }

    /// The byte that encodes this value.
    #[verifier::when_used_as_spec(spec_to_byte)]
    pub fn to_byte(self) -> (b: u8)
        ensures
            b == self.spec_to_byte(),
    {
        match self {
            LightsAlwaysOn::Enable => 3,
            LightsAlwaysOn::Disable => 0,
        }
    }

    pub open spec fn spec_from_byte(b: u8) -> Result<LightsAlwaysOn, RazerError> {
        if b == 3 {
            Ok(LightsAlwaysOn::Enable)
        } else if b == 0 {
            Ok(LightsAlwaysOn::Disable)
        } else {
            Err(RazerError::InvalidValue { value: b, kind: ValueKind::LightsAlwaysOn })
        }
    }

    /// Decodes a value; any byte that encodes no value is an `InvalidValue`.
    #[verifier::when_used_as_spec(spec_from_byte)]
    pub fn from_byte(b: u8) -> (r: Result<LightsAlwaysOn, RazerError>)
        ensures
            r == Self::spec_from_byte(b),
    {
        if b == 3 {
            Ok(LightsAlwaysOn::Enable)
        } else if b == 0 {
            Ok(LightsAlwaysOn::Disable)
        } else {
            Err(RazerError::InvalidValue { value: b, kind: ValueKind::LightsAlwaysOn })
        }
    }
}

impl Cluster {
    pub open spec fn spec_to_byte(self) -> u8 {
        match self {
            Cluster::Cpu => 1,
            Cluster::Gpu => 2,
        }
    }

    /// The byte that encodes this value.
    #[verifier::when_used_as_spec(spec_to_byte)]
    pub fn to_byte(self) -> (b: u8)
        ensures
            b == self.spec_to_byte(),
    {
        match self {
            Cluster::Cpu => 1,
            Cluster::Gpu => 2,
        }
    }
}

impl ThermalZone {
    pub open spec fn spec_to_byte(self) -> u8 {
        match self {
            ThermalZone::Zone1 => 1,
            ThermalZone::Zone2 => 2,
        }
    }

    /// The byte that encodes this value.
    #[verifier::when_used_as_spec(spec_to_byte)]
    pub fn to_byte(self) -> (b: u8)
        ensures
            b == self.spec_to_byte(),
    {
        match self {
            ThermalZone::Zone1 => 1,
            ThermalZone::Zone2 => 2,
        }
    }
}

impl FanZone {
    pub open spec fn spec_to_byte(self) -> u8 {
        match self {
            FanZone::Zone1 => 1,
            FanZone::Zone2 => 2,
            FanZone::Zone3 => 3,
            FanZone::Zone4 => 4,
        }
    }

    /// The byte that encodes this value.
    #[verifier::when_used_as_spec(spec_to_byte)]
    pub fn to_byte(self) -> (b: u8)
        ensures
            b == self.spec_to_byte(),
    {
        match self {
            FanZone::Zone1 => 1,
            FanZone::Zone2 => 2,
            FanZone::Zone3 => 3,
            FanZone::Zone4 => 4,
        }
    }
}

/// Decoding the byte of a PerfMode gives the value back, and a byte decodes only
/// to the value that it encodes.
pub proof fn lemma_perf_mode_byte_roundtrip(x: PerfMode, b: u8)
    ensures
        PerfMode::from_byte(x.to_byte()) == Ok::<PerfMode, RazerError>(x),
        PerfMode::from_byte(b) matches Ok(y) ==> y.to_byte() == b,
{
}

/// Decoding the byte of a FanMode gives the value back, and a byte decodes only
/// to the value that it encodes.
pub proof fn lemma_fan_mode_byte_roundtrip(x: FanMode, b: u8)
    ensures
        FanMode::from_byte(x.to_byte()) == Ok::<FanMode, RazerError>(x),
        FanMode::from_byte(b) matches Ok(y) ==> y.to_byte() == b,
{
}

/// Decoding the byte of a CpuBoost gives the value back, and a byte decodes only
/// to the value that it encodes.
pub proof fn lemma_cpu_boost_byte_roundtrip(x: CpuBoost, b: u8)
    ensures
        CpuBoost::from_byte(x.to_byte()) == Ok::<CpuBoost, RazerError>(x),
        CpuBoost::from_byte(b) matches Ok(y) ==> y.to_byte() == b,
{
}

/// Decoding the byte of a GpuBoost gives the value back, and a byte decodes only
/// to the value that it encodes.
pub proof fn lemma_gpu_boost_byte_roundtrip(x: GpuBoost, b: u8)
    ensures
        GpuBoost::from_byte(x.to_byte()) == Ok::<GpuBoost, RazerError>(x),
        GpuBoost::from_byte(b) matches Ok(y) ==> y.to_byte() == b,
{
}

/// Decoding the byte of a MaxFanSpeedMode gives the value back, and a byte decodes only
/// to the value that it encodes.
pub proof fn lemma_max_fan_speed_mode_byte_roundtrip(x: MaxFanSpeedMode, b: u8)
    ensures
        MaxFanSpeedMode::from_byte(x.to_byte()) == Ok::<MaxFanSpeedMode, RazerError>(x),
        MaxFanSpeedMode::from_byte(b) matches Ok(y) ==> y.to_byte() == b,
{
}

/// Decoding the byte of a BatteryCare gives the value back, and a byte decodes only
/// to the value that it encodes.
pub proof fn lemma_battery_care_byte_roundtrip(x: BatteryCare, b: u8)
    ensures
        BatteryCare::from_byte(x.to_byte()) == Ok::<BatteryCare, RazerError>(x),
        BatteryCare::from_byte(b) matches Ok(y) ==> y.to_byte() == b,
{
}

/// Decoding the byte of a LightsAlwaysOn gives the value back, and a byte decodes only
/// to the value that it encodes.
pub proof fn lemma_lights_always_on_byte_roundtrip(x: LightsAlwaysOn, b: u8)
    ensures
        LightsAlwaysOn::from_byte(x.to_byte()) == Ok::<LightsAlwaysOn, RazerError>(x),
        LightsAlwaysOn::from_byte(b) matches Ok(y) ==> y.to_byte() == b,
{
}

} // verus!
