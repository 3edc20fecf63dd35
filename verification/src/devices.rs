//! The four device state machines: Boiler, PressureMeter, Valve, FlowMeter.
//!
//! Each device owns its numeric attributes (fixed-point milli-units) and a
//! discrete status that is a pure function of those attributes, re-derived
//! on every tick. The deterministic step of each device is captured by a
//! spec function (`boiler_step`, `meter_step`, `valve_step`,
//! `flow_meter_step`); the `tick` methods draw measurement noise and are
//! pinned to the step function at the drawn disturbance.

use vstd::prelude::*;

use crate::physics;
use crate::physics::{flow_of, pressure_of_temperature, with_noise};

verus! {

/// Lowest representable boiler temperature (0.0 degrees).
pub const TEMP_MIN: i64 = 0;

/// Highest representable boiler temperature (150.0 degrees).
pub const TEMP_MAX: i64 = 150_000;

/// Boiler ramp rate: 5 milli-degrees per millisecond, i.e. 5.0 degrees
/// per second.
pub const BOILER_RAMP_RATE: i64 = 5;

/// Within 0.1 degrees of target the boiler snaps exactly to target.
pub const SNAP_BAND: i64 = 100;

/// Above 120.0 degrees the boiler is overheating.
pub const OVERHEAT_LIMIT: i64 = 120_000;

/// Below 10.0 degrees the boiler counts as off.
pub const COLD_LIMIT: i64 = 10_000;

/// Noise bound on boiler pressure readings: 2.0%.
pub const BOILER_NOISE: i64 = 2_000;

/// Noise bound on pressure-meter readings: 1.0%.
pub const METER_NOISE: i64 = 1_000;

/// Noise bound on flow readings: 2.0%.
pub const FLOW_NOISE: i64 = 2_000;

/// Above 3.5 bar the pressure meter warns.
pub const METER_WARNING_LIMIT: i64 = 3_500;

/// Above 4.5 bar the pressure meter reads critical.
pub const METER_CRITICAL_LIMIT: i64 = 4_500;

/// Above 40.0 litres per minute the flow reads high.
pub const FLOW_HIGH_LIMIT: i64 = 40_000;

/// Below 5.0 litres per minute the flow reads low.
pub const FLOW_LOW_LIMIT: i64 = 5_000;

/// Auto-mode valve nudge per tick: 0.02 of full travel.
pub const VALVE_STEP: i64 = 20;

/// The pressure an auto valve regulates toward: 3.0 bar.
pub const VALVE_SETPOINT: i64 = 3_000;

/// Dead band around the setpoint inside which an auto valve holds still:
/// 0.5 bar.
pub const VALVE_DEADBAND: i64 = 500;

/// Above 0.8 of travel a valve counts as open.
pub const VALVE_OPEN_LIMIT: i64 = 800;

/// Below 0.2 of travel a valve counts as closed.
pub const VALVE_CLOSED_LIMIT: i64 = 200;

/// Largest tick length: one minute, in milliseconds.
pub const DT_LIMIT: i64 = 60_000;

/// Largest upstream pressure a downstream device accepts; keeps flow and
/// volume arithmetic inside `i64`.
pub const UPSTREAM_PRESSURE_LIMIT: i64 = 100_000_000;

/// Largest accumulated volume under which another tick is known not to
/// overflow the accumulator.
pub const TOTAL_VOLUME_LIMIT: i64 = 1_000_000_000_000_000;

#[derive(Clone, Copy, Debug, PartialEq, Eq, Structural)]
pub enum BoilerStatus {
    Off,
    Heating,
    Steady,
    Overheat,
}

#[derive(Clone, Copy, Debug, PartialEq, Eq, Structural)]
pub enum MeterStatus {
    Normal,
    Warning,
    Critical,
}

#[derive(Clone, Copy, Debug, PartialEq, Eq, Structural)]
pub enum FlowMeterStatus {
    Normal,
    Low,
    High,
}

#[derive(Clone, Copy, Debug, PartialEq, Eq, Structural)]
pub enum ValveMode {
    Manual,
    Auto,
}

#[derive(Clone, Copy, Debug, PartialEq, Eq, Structural)]
pub enum ValveStatus {
    Open,
    Closed,
    Partial,
    Fault,
}

/// Boiler status as a pure function of temperature and target: overheat
/// and cold override; at target the boiler is steady, otherwise it is
/// still ramping.
pub open spec fn boiler_status_of(temperature: int, target: int) -> BoilerStatus {
    if temperature > OVERHEAT_LIMIT {
        BoilerStatus::Overheat
    } else if temperature < COLD_LIMIT {
        BoilerStatus::Off
    } else if temperature == target {
        BoilerStatus::Steady
    } else {
        BoilerStatus::Heating
    }
}

/// Meter status by ascending pressure thresholds.
pub open spec fn meter_status_of(pressure: int) -> MeterStatus {
    if pressure > METER_CRITICAL_LIMIT {
        MeterStatus::Critical
    } else if pressure > METER_WARNING_LIMIT {
        MeterStatus::Warning
    } else {
        MeterStatus::Normal
    }
}

/// Flow-meter status by flow-rate thresholds.
pub open spec fn flow_status_of(flow_rate: int) -> FlowMeterStatus {
    if flow_rate > FLOW_HIGH_LIMIT {
        FlowMeterStatus::High
    } else if flow_rate < FLOW_LOW_LIMIT {
        FlowMeterStatus::Low
    } else {
        FlowMeterStatus::Normal
    }
}

/// Valve status by position thresholds; `Fault` is never derived here, it
/// is only ever set by an external signal.
pub open spec fn valve_status_of(position: int) -> ValveStatus {
    if position > VALVE_OPEN_LIMIT {
        ValveStatus::Open
    } else if position < VALVE_CLOSED_LIMIT {
        ValveStatus::Closed
    } else {
        ValveStatus::Partial
    }
}

/// The boiler temperature after one tick: moved toward target by
/// `rate * dt`, clamped to the physical range, and snapped exactly to
/// target once within the snap band.
pub open spec fn ramped_temperature(temperature: int, target: int, dt: int) -> int {
    let diff = target - temperature;
    if diff > SNAP_BAND {
        let raised = temperature + BOILER_RAMP_RATE * dt;
        if raised > TEMP_MAX {
            TEMP_MAX as int
        } else {
            raised
        }
    } else if diff < -SNAP_BAND {
        let lowered = temperature - BOILER_RAMP_RATE * dt;
        if lowered < TEMP_MIN {
            TEMP_MIN as int
        } else {
            lowered
        }
    } else {
        target
    }
}

/// One auto-mode valve nudge: toward the setpoint by a bounded step,
/// clamped to the travel range; inside the dead band the valve holds.
pub open spec fn nudged_position(position: int, upstream_pressure: int) -> int {
    if upstream_pressure > VALVE_SETPOINT + VALVE_DEADBAND {
        if position + VALVE_STEP > 1000 {
            1000
        } else {
            position + VALVE_STEP
        }
    } else if upstream_pressure < VALVE_SETPOINT - VALVE_DEADBAND {
        if position - VALVE_STEP < 0 {
            0
        } else {
            position - VALVE_STEP
        }
    } else {
        position
    }
}

pub struct Boiler {
    pub id: String,
    pub temperature: i64,
    pub target_temperature: i64,
    pub pressure: i64,
    pub status: BoilerStatus,
}

/// The whole boiler after one deterministic tick with the given
/// disturbance on its pressure reading.
pub open spec fn boiler_step(b: Boiler, dt: int, noise: int) -> Boiler {
    let temperature = ramped_temperature(b.temperature as int, b.target_temperature as int, dt);
    Boiler {
        id: b.id,
        temperature: temperature as i64,
        target_temperature: b.target_temperature,
        pressure: with_noise(pressure_of_temperature(temperature), noise) as i64,
        status: boiler_status_of(temperature, b.target_temperature as int),
    }
}

impl Boiler {
    /// Attribute ranges every boiler satisfies between ticks.
    pub open spec fn wf(&self) -> bool {
        &&& TEMP_MIN <= self.temperature <= TEMP_MAX
        &&& TEMP_MIN <= self.target_temperature <= TEMP_MAX
        &&& 0 <= self.pressure <= 16_000
    }

    pub fn new(id: String, target_temperature: i64) -> (boiler: Boiler)
        requires
            TEMP_MIN <= target_temperature <= TEMP_MAX,
        ensures
            boiler == (Boiler {
                id: id,
                temperature: 20_000i64,
                target_temperature: target_temperature,
                pressure: 0i64,
                status: BoilerStatus::Off,
            }),
            boiler.wf(),
    {
        Boiler {
            id,
            temperature: 20_000,
            target_temperature,
            pressure: 0,
            status: BoilerStatus::Off,
        }
    }

    /// One deterministic tick with an injected disturbance: the seam that
    /// makes noisy behaviour reproducible under test.
    pub fn tick_with_noise(&mut self, dt: i64, noise: i64)
        requires
            old(self).wf(),
            0 <= dt <= DT_LIMIT,
            -BOILER_NOISE <= noise <= BOILER_NOISE,
        ensures
            *final(self) == boiler_step(*old(self), dt as int, noise as int),
            final(self).wf(),
    {
        let diff: i64 = self.target_temperature - self.temperature;
        if diff > SNAP_BAND {
            let raised: i64 = self.temperature + BOILER_RAMP_RATE * dt;
            self.temperature = if raised > TEMP_MAX {
                TEMP_MAX
            } else {
                raised
            };
        } else if diff < -SNAP_BAND {
            let lowered: i64 = self.temperature - BOILER_RAMP_RATE * dt;
            self.temperature = if lowered < TEMP_MIN {
                TEMP_MIN
            } else {
                lowered
            };
        } else {
            self.temperature = self.target_temperature;
        }
        self.status = if self.temperature > OVERHEAT_LIMIT {
            BoilerStatus::Overheat
        } else if self.temperature < COLD_LIMIT {
            BoilerStatus::Off
        } else if self.temperature == self.target_temperature {
            BoilerStatus::Steady
        } else {
            BoilerStatus::Heating
        };
        self.pressure = physics::apply_noise(
            physics::temperature_to_pressure(self.temperature),
            noise,
        );
    }

    /// One tick with a freshly drawn pressure disturbance.
    pub fn tick(&mut self, dt: i64)
        requires
            old(self).wf(),
            0 <= dt <= DT_LIMIT,
        ensures
            exists|noise: int|
                -BOILER_NOISE <= noise <= BOILER_NOISE && *final(self) == boiler_step(
                    *old(self),
                    dt as int,
                    noise,
                ),
            final(self).wf(),
    {
        let noise: i64 = physics::draw_noise(BOILER_NOISE);
        self.tick_with_noise(dt, noise);
    }
}

pub struct PressureMeter {
    pub id: String,
    pub pressure: i64,
    pub status: MeterStatus,
}

/// The whole pressure meter after one deterministic tick: a disturbed
/// copy of the upstream pressure with the status re-derived from it.
pub open spec fn meter_step(m: PressureMeter, upstream_pressure: int, noise: int) -> PressureMeter {
    let pressure = with_noise(upstream_pressure, noise);
    PressureMeter { id: m.id, pressure: pressure as i64, status: meter_status_of(pressure) }
}

impl PressureMeter {
    pub open spec fn wf(&self) -> bool {
        0 <= self.pressure
    }

    pub fn new(id: String) -> (meter: PressureMeter)
        ensures
            meter == (PressureMeter { id: id, pressure: 0i64, status: MeterStatus::Normal }),
            meter.wf(),
    {
        PressureMeter { id, pressure: 0, status: MeterStatus::Normal }
    }

    /// One deterministic tick with an injected disturbance.
    pub fn tick_with_noise(&mut self, upstream_pressure: i64, noise: i64)
        requires
            old(self).wf(),
            0 <= upstream_pressure <= UPSTREAM_PRESSURE_LIMIT,
            -METER_NOISE <= noise <= METER_NOISE,
        ensures
            *final(self) == meter_step(*old(self), upstream_pressure as int, noise as int),
            final(self).wf(),
            final(self).pressure <= 2 * upstream_pressure,
    {
        self.pressure = physics::apply_noise(upstream_pressure, noise);
        self.status = if self.pressure > METER_CRITICAL_LIMIT {
            MeterStatus::Critical
        } else if self.pressure > METER_WARNING_LIMIT {
            MeterStatus::Warning
        } else {
            MeterStatus::Normal
        };
    }

    /// One tick with a freshly drawn measurement disturbance.
    pub fn tick(&mut self, upstream_pressure: i64)
        requires
            old(self).wf(),
            0 <= upstream_pressure <= UPSTREAM_PRESSURE_LIMIT,
        ensures
            exists|noise: int|
                -METER_NOISE <= noise <= METER_NOISE && *final(self) == meter_step(
                    *old(self),
                    upstream_pressure as int,
                    noise,
                ),
            final(self).wf(),
            final(self).pressure <= 2 * upstream_pressure,
    {
        let noise: i64 = physics::draw_noise(METER_NOISE);
        self.tick_with_noise(upstream_pressure, noise);
    }
}

pub struct Valve {
    pub id: String,
    pub position: i64,
    pub mode: ValveMode,
    pub status: ValveStatus,
}

/// The whole valve after one deterministic tick: in Auto mode the
/// position is nudged toward the setpoint band, in Manual mode it is left
/// alone; the status is re-derived from the position either way.
pub open spec fn valve_step(v: Valve, upstream_pressure: int) -> Valve {
    let position = if v.mode == ValveMode::Auto {
        nudged_position(v.position as int, upstream_pressure)
    } else {
        v.position as int
    };
    Valve { id: v.id, position: position as i64, mode: v.mode, status: valve_status_of(position) }
}

impl Valve {
    pub open spec fn wf(&self) -> bool {
        0 <= self.position <= 1000
    }

    pub fn new(id: String) -> (valve: Valve)
        ensures
            valve == (Valve {
                id: id,
                position: 500i64,
                mode: ValveMode::Auto,
                status: ValveStatus::Partial,
            }),
            valve.wf(),
    {
        Valve { id, position: 500, mode: ValveMode::Auto, status: ValveStatus::Partial }
    }

    /// One tick: fully deterministic, the valve reads no noisy sensor.
    pub fn tick(&mut self, upstream_pressure: i64)
        requires
            old(self).wf(),
            0 <= upstream_pressure <= UPSTREAM_PRESSURE_LIMIT,
        ensures
            *final(self) == valve_step(*old(self), upstream_pressure as int),
            final(self).wf(),
    {
        if matches!(self.mode, ValveMode::Auto) {
            if upstream_pressure > VALVE_SETPOINT + VALVE_DEADBAND {
                self.position = if self.position + VALVE_STEP > 1000 {
                    1000
                } else {
                    self.position + VALVE_STEP
                };
            } else if upstream_pressure < VALVE_SETPOINT - VALVE_DEADBAND {
                self.position = if self.position - VALVE_STEP < 0 {
                    0
                } else {
                    self.position - VALVE_STEP
                };
            }
        }
        self.status = if self.position > VALVE_OPEN_LIMIT {
            ValveStatus::Open
        } else if self.position < VALVE_CLOSED_LIMIT {
            ValveStatus::Closed
        } else {
            ValveStatus::Partial
        };
    }
}

pub struct FlowMeter {
    pub id: String,
    pub flow_rate: i64,
    pub total_volume: i64,
    pub status: FlowMeterStatus,
}

/// The whole flow meter after one deterministic tick: a disturbed flow
/// reading derived from upstream pressure and valve position, the volume
/// accumulator advanced by `flow * dt` (converted from litres per minute
/// to litres), and the status re-derived from the flow.
pub open spec fn flow_meter_step(
    f: FlowMeter,
    dt: int,
    upstream_pressure: int,
    valve_position: int,
    noise: int,
) -> FlowMeter {
    let flow_rate = with_noise(flow_of(upstream_pressure, valve_position), noise);
    FlowMeter {
        id: f.id,
        flow_rate: flow_rate as i64,
        total_volume: (f.total_volume + flow_rate * dt / 60_000) as i64,
        status: flow_status_of(flow_rate),
    }
}

impl FlowMeter {
    pub open spec fn wf(&self) -> bool {
        &&& 0 <= self.flow_rate
        &&& 0 <= self.total_volume
    }

    pub fn new(id: String) -> (meter: FlowMeter)
        ensures
            meter == (FlowMeter {
                id: id,
                flow_rate: 0i64,
                total_volume: 0i64,
                status: FlowMeterStatus::Normal,
            }),
            meter.wf(),
    {
        FlowMeter { id, flow_rate: 0, total_volume: 0, status: FlowMeterStatus::Normal }
    }

    /// One deterministic tick with an injected disturbance. The volume
    /// accumulator never decreases for a non-negative `dt`.
    pub fn tick_with_noise(
        &mut self,
        dt: i64,
        upstream_pressure: i64,
        valve_position: i64,
        noise: i64,
    )
        requires
            old(self).wf(),
            old(self).total_volume <= TOTAL_VOLUME_LIMIT,
            0 <= dt <= DT_LIMIT,
            0 <= upstream_pressure <= UPSTREAM_PRESSURE_LIMIT,
            0 <= valve_position <= 1000,
            -FLOW_NOISE <= noise <= FLOW_NOISE,
        ensures
            *final(self) == flow_meter_step(
                *old(self),
                dt as int,
                upstream_pressure as int,
                valve_position as int,
                noise as int,
            ),
            final(self).wf(),
            final(self).total_volume >= old(self).total_volume,
    {
        let flow: i64 = physics::apply_noise(
            physics::calculate_flow_rate(upstream_pressure, valve_position),
            noise,
        );
        self.flow_rate = flow;
        proof {
            assert(0 <= flow * dt <= 2_000_000_000 * 60_000int) by (nonlinear_arith)
                requires
                    0 <= flow <= 2_000_000_000,
                    0 <= dt <= 60_000,
            ;
        }
        self.total_volume = self.total_volume + flow * dt / 60_000;
        self.status = if flow > FLOW_HIGH_LIMIT {
            FlowMeterStatus::High
        } else if flow < FLOW_LOW_LIMIT {
            FlowMeterStatus::Low
        } else {
            FlowMeterStatus::Normal
        };
    }

    /// One tick with a freshly drawn measurement disturbance.
    pub fn tick(&mut self, dt: i64, upstream_pressure: i64, valve_position: i64)
        requires
            old(self).wf(),
            old(self).total_volume <= TOTAL_VOLUME_LIMIT,
            0 <= dt <= DT_LIMIT,
            0 <= upstream_pressure <= UPSTREAM_PRESSURE_LIMIT,
            0 <= valve_position <= 1000,
        ensures
            exists|noise: int|
                -FLOW_NOISE <= noise <= FLOW_NOISE && *final(self) == flow_meter_step(
                    *old(self),
                    dt as int,
                    upstream_pressure as int,
                    valve_position as int,
                    noise,
                ),
            final(self).wf(),
            final(self).total_volume >= old(self).total_volume,
    {
        let noise: i64 = physics::draw_noise(FLOW_NOISE);
        self.tick_with_noise(dt, upstream_pressure, valve_position, noise);
    }
}

impl Clone for Boiler {
    fn clone(&self) -> (copy: Self)
        ensures
            copy == *self,
    {
        Boiler {
            id: self.id.clone(),
            temperature: self.temperature,
            target_temperature: self.target_temperature,
            pressure: self.pressure,
            status: self.status,
        }
    }
}

impl Clone for PressureMeter {
    fn clone(&self) -> (copy: Self)
        ensures
            copy == *self,
    {
        PressureMeter { id: self.id.clone(), pressure: self.pressure, status: self.status }
    }
}

impl Clone for Valve {
    fn clone(&self) -> (copy: Self)
        ensures
            copy == *self,
    {
        Valve {
            id: self.id.clone(),
            position: self.position,
            mode: self.mode,
            status: self.status,
        }
    }
}

impl Clone for FlowMeter {
    fn clone(&self) -> (copy: Self)
        ensures
            copy == *self,
    {
        FlowMeter {
            id: self.id.clone(),
            flow_rate: self.flow_rate,
            total_volume: self.total_volume,
            status: self.status,
        }
    }
}

} // verus!
