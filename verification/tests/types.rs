use librazer::error::{RazerError, ValueKind};
use librazer::types::{
    BatteryCare, Cluster, CpuBoost, FanMode, FanZone, GpuBoost, LightsAlwaysOn, MaxFanSpeedMode,
    PerfMode, ThermalZone,
};

#[test]
fn perf_mode_bytes() {
    assert_eq!(PerfMode::Balanced.to_byte(), 0);
    assert_eq!(PerfMode::Silent.to_byte(), 5);
    assert_eq!(PerfMode::Custom.to_byte(), 4);
    for m in [PerfMode::Balanced, PerfMode::Silent, PerfMode::Custom] {
        assert_eq!(PerfMode::from_byte(m.to_byte()), Ok(m));
    }
    assert_eq!(PerfMode::from_byte(1), Err(RazerError::InvalidValue { value: 1, kind: ValueKind::PerfMode }));
}

#[test]
fn byte_roundtrips() {
    for m in [FanMode::Auto, FanMode::Manual] {
        assert_eq!(FanMode::from_byte(m.to_byte()), Ok(m));
    }
    for b in [CpuBoost::Low, CpuBoost::Medium, CpuBoost::High, CpuBoost::Boost, CpuBoost::Overclock] {
        assert_eq!(CpuBoost::from_byte(b.to_byte()), Ok(b));
    }
    for b in [GpuBoost::Low, GpuBoost::Medium, GpuBoost::High] {
        assert_eq!(GpuBoost::from_byte(b.to_byte()), Ok(b));
    }
    for m in [MaxFanSpeedMode::Enable, MaxFanSpeedMode::Disable] {
        assert_eq!(MaxFanSpeedMode::from_byte(m.to_byte()), Ok(m));
    }
    for m in [BatteryCare::Enable, BatteryCare::Disable] {
        assert_eq!(BatteryCare::from_byte(m.to_byte()), Ok(m));
    }
    for m in [LightsAlwaysOn::Enable, LightsAlwaysOn::Disable] {
        assert_eq!(LightsAlwaysOn::from_byte(m.to_byte()), Ok(m));
    }
}

#[test]
fn every_byte_decodes_to_its_encoding_or_fails() {
    for b in 0..=255u8 {
        if let Ok(m) = BatteryCare::from_byte(b) {
            assert_eq!(m.to_byte(), b);
        } else {
            assert_eq!(BatteryCare::from_byte(b), Err(RazerError::InvalidValue { value: b, kind: ValueKind::BatteryCare }));
        }
        if let Ok(m) = CpuBoost::from_byte(b) {
            assert_eq!(m.to_byte(), b);
        }
    }
}

#[test]
fn encodings_of_protocol_values() {
    assert_eq!(BatteryCare::Enable.to_byte(), 0xd0);
    assert_eq!(BatteryCare::Disable.to_byte(), 0x50);
    assert_eq!(LightsAlwaysOn::Enable.to_byte(), 3);
    assert_eq!(MaxFanSpeedMode::Enable.to_byte(), 2);
    assert_eq!(Cluster::Cpu.to_byte(), 1);
    assert_eq!(Cluster::Gpu.to_byte(), 2);
    assert_eq!(ThermalZone::Zone2.to_byte(), 2);
    assert_eq!(FanZone::Zone4.to_byte(), 4);
}
