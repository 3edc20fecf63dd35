use water_plant_twin::devices::{
    Boiler, BoilerStatus, FlowMeter, FlowMeterStatus, MeterStatus, PressureMeter, Valve,
    ValveMode, ValveStatus,
};
use water_plant_twin::physics;

#[test]
fn temperature_to_pressure_is_linear() {
    // 100 degrees maps to 5 bar: 100_000 milli-degrees -> 5_000 milli-bar.
    assert_eq!(physics::temperature_to_pressure(100_000), 5_000);
    assert_eq!(physics::temperature_to_pressure(0), 0);
    assert_eq!(physics::temperature_to_pressure(85_000), 4_250);
}

#[test]
fn flow_rate_is_pressure_times_opening_times_gain() {
    // 3 bar at half opening: 3 * 0.5 * 10 = 15 L/min.
    assert_eq!(physics::calculate_flow_rate(3_000, 500), 15_000);
    assert_eq!(physics::calculate_flow_rate(0, 1000), 0);
    assert_eq!(physics::calculate_flow_rate(5_000, 0), 0);
}

#[test]
fn pressure_decay_drops_with_flow_and_length_and_floors_at_zero() {
    // loss = flow * length / 100: 20 L/min over 10 units -> 2 bar.
    assert_eq!(physics::pressure_decay(5_000, 20_000, 10_000), 3_000);
    assert_eq!(physics::pressure_decay(1_000, 20_000, 10_000), 0);
}

#[test]
fn apply_noise_is_exact_and_add_noise_is_bounded() {
    assert_eq!(physics::apply_noise(1_000, 0), 1_000);
    assert_eq!(physics::apply_noise(1_000, 2_000), 1_020);
    assert_eq!(physics::apply_noise(1_000, -2_000), 980);
    for _ in 0..200 {
        let noisy = physics::add_noise(1_000, 2_000);
        assert!((980..=1_020).contains(&noisy));
        let drawn = physics::draw_noise(2_000);
        assert!((-2_000..2_000).contains(&drawn));
    }
}

#[test]
fn boiler_ramps_toward_target_and_derives_status() {
    let mut boiler = Boiler::new("boiler-1".to_string(), 85_000);
    assert_eq!(boiler.temperature, 20_000);
    boiler.tick_with_noise(100, 0);
    // One 100 ms tick at 5 deg/s moves 0.5 deg.
    assert_eq!(boiler.temperature, 20_500);
    assert!(matches!(boiler.status, BoilerStatus::Heating));
    assert_eq!(boiler.pressure, physics::temperature_to_pressure(20_500));
}

#[test]
fn boiler_snaps_exactly_to_target_within_band() {
    let mut boiler = Boiler::new("boiler-1".to_string(), 85_000);
    boiler.temperature = 84_950;
    boiler.tick_with_noise(100, 0);
    assert_eq!(boiler.temperature, 85_000);
    assert!(matches!(boiler.status, BoilerStatus::Steady));
}

#[test]
fn boiler_temperature_clamps_at_range_ends() {
    let mut boiler = Boiler::new("boiler-1".to_string(), 150_000);
    boiler.temperature = 149_000;
    // A 60 s tick would move 300 degrees; the clamp holds it at 150.
    boiler.tick_with_noise(60_000, 0);
    assert_eq!(boiler.temperature, 150_000);
    assert!(matches!(boiler.status, BoilerStatus::Overheat));

    let mut cold = Boiler::new("boiler-1".to_string(), 0);
    cold.temperature = 1_000;
    cold.tick_with_noise(60_000, 0);
    assert_eq!(cold.temperature, 0);
    assert!(matches!(cold.status, BoilerStatus::Off));
}

#[test]
fn boiler_overheat_overrides_other_statuses() {
    let mut boiler = Boiler::new("boiler-1".to_string(), 121_000);
    boiler.temperature = 120_900;
    boiler.tick_with_noise(100, 0);
    assert_eq!(boiler.temperature, 121_000);
    assert!(matches!(boiler.status, BoilerStatus::Overheat));
}

#[test]
fn pressure_meter_copies_upstream_and_derives_status() {
    let mut meter = PressureMeter::new("pressure-meter-1".to_string());
    meter.tick_with_noise(3_000, 0);
    assert_eq!(meter.pressure, 3_000);
    assert!(matches!(meter.status, MeterStatus::Normal));
    meter.tick_with_noise(3_600, 0);
    assert!(matches!(meter.status, MeterStatus::Warning));
    meter.tick_with_noise(4_600, 0);
    assert!(matches!(meter.status, MeterStatus::Critical));
}

#[test]
fn valve_auto_mode_nudges_toward_setpoint_and_stays_in_travel() {
    let mut valve = Valve::new("valve-1".to_string());
    assert_eq!(valve.position, 500);
    // High pressure: open by 0.02 per tick.
    valve.tick(4_000);
    assert_eq!(valve.position, 520);
    // Low pressure: close by 0.02 per tick.
    valve.tick(2_000);
    assert_eq!(valve.position, 500);
    // Inside the dead band: hold.
    valve.tick(3_000);
    assert_eq!(valve.position, 500);
    // Travel never leaves [0, 1].
    for _ in 0..100 {
        valve.tick(4_000);
    }
    assert_eq!(valve.position, 1_000);
    assert!(matches!(valve.status, ValveStatus::Open));
    for _ in 0..100 {
        valve.tick(2_000);
    }
    assert_eq!(valve.position, 0);
    assert!(matches!(valve.status, ValveStatus::Closed));
}

#[test]
fn valve_manual_mode_never_moves() {
    let mut valve = Valve::new("valve-1".to_string());
    valve.mode = ValveMode::Manual;
    for pressure in [0i64, 2_000, 3_000, 4_000, 100_000] {
        for _ in 0..10 {
            valve.tick(pressure);
        }
    }
    assert_eq!(valve.position, 500);
    assert!(matches!(valve.mode, ValveMode::Manual));
}

#[test]
fn flow_meter_accumulates_volume_monotonically() {
    let mut meter = FlowMeter::new("flow-meter-1".to_string());
    let mut previous = meter.total_volume;
    for dt in [100i64, 0, 50, 60_000, 0, 100] {
        meter.tick_with_noise(dt, 3_000, 500, 0);
        assert!(meter.total_volume >= previous);
        previous = meter.total_volume;
    }
    // 15 L/min for 100 ms adds 15_000 * 100 / 60_000 = 25 milli-litres.
    let mut exact = FlowMeter::new("flow-meter-1".to_string());
    exact.tick_with_noise(100, 3_000, 500, 0);
    assert_eq!(exact.flow_rate, 15_000);
    assert_eq!(exact.total_volume, 25);
    assert!(matches!(exact.status, FlowMeterStatus::Normal));
}

#[test]
fn flow_meter_status_thresholds() {
    let mut meter = FlowMeter::new("flow-meter-1".to_string());
    meter.tick_with_noise(100, 3_000, 100, 0);
    // 3 bar at 0.1 opening: 3 L/min, below the low threshold.
    assert_eq!(meter.flow_rate, 3_000);
    assert!(matches!(meter.status, FlowMeterStatus::Low));
    meter.tick_with_noise(100, 5_000, 1_000, 0);
    // 5 bar fully open: 50 L/min, above the high threshold.
    assert_eq!(meter.flow_rate, 50_000);
    assert!(matches!(meter.status, FlowMeterStatus::High));
}
