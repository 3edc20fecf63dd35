//! The plant-wide guarantees, each proved once and for all inputs: the
//! topology ordering of a tick, the boiler temperature envelope, the
//! monotone volume accumulator, and the valve's mode discipline.

use vstd::prelude::*;

use crate::devices::{
    boiler_step, flow_meter_step, meter_step, nudged_position, ramped_temperature, valve_step,
    Boiler, FlowMeter, PressureMeter, Valve, ValveMode, DT_LIMIT, FLOW_NOISE, SNAP_BAND, TEMP_MAX,
    TEMP_MIN, TOTAL_VOLUME_LIMIT, UPSTREAM_PRESSURE_LIMIT, VALVE_DEADBAND, VALVE_SETPOINT,
    VALVE_STEP,
};
use crate::node::{plc1_exposed, plc2_exposed};
use crate::physics::{flow_of, with_noise};
use crate::plant::{plant_step, DeviceState, Plant};
use crate::points::Point;
use crate::scada::{plc1_devices_view, plc2_devices_view};
use crate::status_text::{
    lemma_boiler_status_round_trip, lemma_flow_meter_status_round_trip,
    lemma_meter_status_round_trip, lemma_valve_mode_round_trip, lemma_valve_status_round_trip,
};

verus! {

/// Within one tick the devices advance in the fixed order Boiler-1,
/// PressureMeter-1, Valve-1, FlowMeter-1, Boiler-2, and each device's
/// upstream input is its predecessor's output of this same tick:
/// the meter and the valve read the pressure Boiler-1 just produced, and
/// the flow meter reads that pressure together with the position the
/// valve just moved to.
pub proof fn lemma_topology_order(p: Plant, dt: int, n1: int, n2: int, n3: int, n4: int)
    ensures
        plant_step(p, dt, n1, n2, n3, n4).boiler_1 == boiler_step(p.boiler_1, dt, n1),
        plant_step(p, dt, n1, n2, n3, n4).pressure_meter_1 == meter_step(
            p.pressure_meter_1,
            boiler_step(p.boiler_1, dt, n1).pressure as int,
            n2,
        ),
        plant_step(p, dt, n1, n2, n3, n4).valve_1 == valve_step(
            p.valve_1,
            boiler_step(p.boiler_1, dt, n1).pressure as int,
        ),
        plant_step(p, dt, n1, n2, n3, n4).flow_meter_1 == flow_meter_step(
            p.flow_meter_1,
            dt,
            boiler_step(p.boiler_1, dt, n1).pressure as int,
            valve_step(p.valve_1, boiler_step(p.boiler_1, dt, n1).pressure as int).position as int,
            n3,
        ),
        plant_step(p, dt, n1, n2, n3, n4).boiler_2 == boiler_step(p.boiler_2, dt, n4),
{
}

/// The boiler temperature never leaves the physical range, and once the
/// temperature is within the snap band of the target, one tick lands
/// exactly on the target, not asymptotically close to it.
pub proof fn lemma_boiler_temperature_envelope(temperature: int, target: int, dt: int)
    requires
        TEMP_MIN <= temperature <= TEMP_MAX,
        TEMP_MIN <= target <= TEMP_MAX,
        0 <= dt,
    ensures
        TEMP_MIN <= ramped_temperature(temperature, target, dt) <= TEMP_MAX,
        -SNAP_BAND <= target - temperature <= SNAP_BAND ==> ramped_temperature(
            temperature,
            target,
            dt,
        ) == target,
{
}

/// The boiler temperature after a whole sequence of ticks toward a fixed
/// target.
pub open spec fn temperature_run(temperature: int, target: int, dts: Seq<int>) -> int
    decreases dts.len(),
{
    if dts.len() == 0 {
        temperature
    } else {
        temperature_run(ramped_temperature(temperature, target, dts[0]), target, dts.drop_first())
    }
}

/// Across any sequence of ticks the boiler temperature never leaves the
/// physical range.
pub proof fn lemma_temperature_never_leaves_range(temperature: int, target: int, dts: Seq<int>)
    requires
        TEMP_MIN <= temperature <= TEMP_MAX,
        TEMP_MIN <= target <= TEMP_MAX,
        forall|i: int| 0 <= i < dts.len() ==> dts[i] >= 0,
    ensures
        TEMP_MIN <= temperature_run(temperature, target, dts) <= TEMP_MAX,
    decreases dts.len(),
{
    if dts.len() > 0 {
        lemma_boiler_temperature_envelope(temperature, target, dts[0]);
        lemma_temperature_never_leaves_range(
            ramped_temperature(temperature, target, dts[0]),
            target,
            dts.drop_first(),
        );
    }
}

/// One flow-meter input: tick length, upstream pressure, valve position,
/// and the drawn disturbance, in that order.
pub open spec fn flow_input_ok(input: (int, int, int, int)) -> bool {
    &&& 0 <= input.0 <= DT_LIMIT
    &&& 0 <= input.1 <= UPSTREAM_PRESSURE_LIMIT
    &&& 0 <= input.2 <= 1000
    &&& -FLOW_NOISE <= input.3 <= FLOW_NOISE
}

/// The flow meter after a whole sequence of ticks.
pub open spec fn flow_meter_run(f: FlowMeter, inputs: Seq<(int, int, int, int)>) -> FlowMeter
    decreases inputs.len(),
{
    if inputs.len() == 0 {
        f
    } else {
        flow_meter_run(
            flow_meter_step(f, inputs[0].0, inputs[0].1, inputs[0].2, inputs[0].3),
            inputs.drop_first(),
        )
    }
}

/// Every input of the run is in range and the accumulator stays under its
/// overflow guard the whole way.
pub open spec fn flow_run_bounded(f: FlowMeter, inputs: Seq<(int, int, int, int)>) -> bool
    decreases inputs.len(),
{
    &&& 0 <= f.total_volume <= TOTAL_VOLUME_LIMIT
    &&& (inputs.len() > 0 ==> flow_input_ok(inputs[0]) && flow_run_bounded(
        flow_meter_step(f, inputs[0].0, inputs[0].1, inputs[0].2, inputs[0].3),
        inputs.drop_first(),
    ))
}

/// One in-range tick never decreases the volume accumulator, and the
/// disturbed flow reading itself stays non-negative and bounded.
pub proof fn lemma_flow_step_monotonic(f: FlowMeter, dt: int, pressure: int, position: int, noise: int)
    requires
        0 <= f.total_volume <= TOTAL_VOLUME_LIMIT,
        flow_input_ok((dt, pressure, position, noise)),
    ensures
        f.total_volume <= flow_meter_step(f, dt, pressure, position, noise).total_volume,
        0 <= with_noise(flow_of(pressure, position), noise) <= 2_100_000_000,
{
    assert(0 <= pressure * position <= 100_000_000_000int) by (nonlinear_arith)
        requires
            0 <= pressure <= 100_000_000,
            0 <= position <= 1000,
    ;
    let flow = flow_of(pressure, position);
    assert(0 <= flow <= 1_000_000_000int) by (nonlinear_arith)
        requires
            0 <= pressure * position <= 100_000_000_000int,
            flow == pressure * position / 100,
    ;
    let noisy = with_noise(flow, noise);
    assert(0 <= flow * (100_000 + noise) <= flow * 200_000) by (nonlinear_arith)
        requires
            0 <= flow,
            0 <= 100_000 + noise <= 200_000,
    ;
    assert(flow * 200_000 / 100_000 == 2 * flow) by (nonlinear_arith)
        requires
            0 <= flow,
    ;
    assert(flow * (100_000 + noise) / 100_000 <= flow * 200_000 / 100_000) by (nonlinear_arith)
        requires
            0 <= flow * (100_000 + noise) <= flow * 200_000,
    ;
    assert(0 <= noisy * dt <= noisy * 60_000) by (nonlinear_arith)
        requires
            0 <= noisy,
            0 <= dt <= 60_000,
    ;
}

/// Across any run of in-range ticks the accumulated volume never
/// decreases: the accumulator is monotone, it is never reset.
pub proof fn lemma_total_volume_monotonic(f: FlowMeter, inputs: Seq<(int, int, int, int)>)
    requires
        flow_run_bounded(f, inputs),
    ensures
        f.total_volume <= flow_meter_run(f, inputs).total_volume,
    decreases inputs.len(),
{
    if inputs.len() > 0 {
        lemma_flow_step_monotonic(f, inputs[0].0, inputs[0].1, inputs[0].2, inputs[0].3);
        lemma_total_volume_monotonic(
            flow_meter_step(f, inputs[0].0, inputs[0].1, inputs[0].2, inputs[0].3),
            inputs.drop_first(),
        );
    }
}

/// What the aggregator rebuilds from a store node 1 has just exposed is
/// node 1's mirror itself: every numeric attribute exactly, and every
/// status and the valve mode through the text round-trip, which loses
/// nothing on valid names.
pub proof fn lemma_aggregation_recovers_plc1_mirror(
    points: Seq<Point>,
    boiler: Boiler,
    meter: PressureMeter,
    valve: Valve,
    timestamp: u64,
    devices: Seq<DeviceState>,
)
    requires
        plc1_exposed(points, boiler, meter, valve, timestamp),
        plc1_devices_view(points, devices),
    ensures
        devices[0] matches DeviceState::Boiler(b) && b.temperature == boiler.temperature
            && b.target_temperature == boiler.target_temperature && b.pressure == boiler.pressure
            && b.status == boiler.status,
        devices[1] matches DeviceState::PressureMeter(m) && m.pressure == meter.pressure
            && m.status == meter.status,
        devices[2] matches DeviceState::Valve(v) && v.position == valve.position && v.mode
            == valve.mode && v.status == valve.status,
{
    lemma_boiler_status_round_trip(boiler.status);
    lemma_meter_status_round_trip(meter.status);
    lemma_valve_status_round_trip(valve.status);
    lemma_valve_mode_round_trip(valve.mode);
}

/// What the aggregator rebuilds from a store node 2 has just exposed is
/// node 2's mirror itself.
pub proof fn lemma_aggregation_recovers_plc2_mirror(
    points: Seq<Point>,
    boiler: Boiler,
    flow_meter: FlowMeter,
    timestamp: u64,
    devices: Seq<DeviceState>,
)
    requires
        plc2_exposed(points, boiler, flow_meter, timestamp),
        plc2_devices_view(points, devices),
    ensures
        devices[0] matches DeviceState::Boiler(b) && b.temperature == boiler.temperature
            && b.target_temperature == boiler.target_temperature && b.pressure == boiler.pressure
            && b.status == boiler.status,
        devices[1] matches DeviceState::FlowMeter(f) && f.flow_rate == flow_meter.flow_rate
            && f.total_volume == flow_meter.total_volume && f.status == flow_meter.status,
{
    lemma_boiler_status_round_trip(boiler.status);
    lemma_flow_meter_status_round_trip(flow_meter.status);
}

/// The valve after a whole sequence of ticks with the given upstream
/// pressures.
pub open spec fn valve_run(v: Valve, pressures: Seq<int>) -> Valve
    decreases pressures.len(),
{
    if pressures.len() == 0 {
        v
    } else {
        valve_run(valve_step(v, pressures[0]), pressures.drop_first())
    }
}

/// In Manual mode a valve's position is untouched by any number of ticks,
/// whatever pressures it sees; only an external write can move it.
pub proof fn lemma_manual_valve_holds_position(v: Valve, pressures: Seq<int>)
    requires
        v.mode == ValveMode::Manual,
    ensures
        valve_run(v, pressures).position == v.position,
        valve_run(v, pressures).mode == ValveMode::Manual,
    decreases pressures.len(),
{
    if pressures.len() > 0 {
        lemma_manual_valve_holds_position(valve_step(v, pressures[0]), pressures.drop_first());
    }
}

/// In Auto mode one tick moves the position by at most one fixed step,
/// strictly toward the setpoint band whenever the pressure is outside it
/// and travel remains, holds still inside the band, and never leaves the
/// travel range.
pub proof fn lemma_auto_valve_nudge(position: int, upstream_pressure: int)
    requires
        0 <= position <= 1000,
    ensures
        0 <= nudged_position(position, upstream_pressure) <= 1000,
        position - VALVE_STEP <= nudged_position(position, upstream_pressure) <= position
            + VALVE_STEP,
        upstream_pressure > VALVE_SETPOINT + VALVE_DEADBAND && position < 1000
            ==> nudged_position(position, upstream_pressure) > position,
        upstream_pressure < VALVE_SETPOINT - VALVE_DEADBAND && position > 0
            ==> nudged_position(position, upstream_pressure) < position,
        VALVE_SETPOINT - VALVE_DEADBAND <= upstream_pressure <= VALVE_SETPOINT + VALVE_DEADBAND
            ==> nudged_position(position, upstream_pressure) == position,
{
}

} // verus!
