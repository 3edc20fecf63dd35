//! Stateless physics transforms.
//!
//! Every quantity is a fixed-point integer in milli-units: a temperature of
//! `20_000` is 20.0 degrees, a pressure of `1_000` is 1.0 bar, a valve
//! position of `500` is the fraction 0.5, a flow of `30_000` is 30.0 litres
//! per minute. Noise is carried in milli-percent: `2_000` is a 2.0% bound.

use vstd::prelude::*;

verus! {

/// One whole unit in fixed-point representation.
pub const MILLI: i64 = 1_000;

/// 100% in milli-percent, the denominator of the noise factor.
pub const FULL_SCALE_MILLI_PERCENT: i64 = 100_000;

/// Largest magnitude a value may have before it is fed to a physics
/// transform; keeps every intermediate product inside `i64`.
pub const VALUE_LIMIT: i64 = 1_000_000_000_000;

/// The pressure a boiler at the given temperature produces: a linear map,
/// 0 degrees is 0 bar and 100 degrees is 5 bar, so one milli-bar per
/// 20 milli-degrees.
pub open spec fn pressure_of_temperature(temperature: int) -> int {
    temperature / 20
}

/// Flow through a valve: proportional to upstream pressure and valve
/// opening with a fixed gain of 10 litres per minute per bar at full
/// opening. In milli-units that is `pressure * position / 100`.
pub open spec fn flow_of(upstream_pressure: int, valve_position: int) -> int {
    upstream_pressure * valve_position / 100
}

/// A value disturbed by a multiplicative noise factor `1 + noise/100`,
/// with `noise` in milli-percent.
pub open spec fn with_noise(value: int, noise: int) -> int {
    value * (FULL_SCALE_MILLI_PERCENT + noise) / (FULL_SCALE_MILLI_PERCENT as int)
}

pub fn temperature_to_pressure(temperature: i64) -> (pressure: i64)
    requires
        0 <= temperature <= VALUE_LIMIT,
    ensures
        pressure == pressure_of_temperature(temperature as int),
        0 <= pressure <= temperature,
{
    temperature / 20
}

pub fn calculate_flow_rate(upstream_pressure: i64, valve_position: i64) -> (rate: i64)
    requires
        0 <= upstream_pressure <= VALUE_LIMIT,
        0 <= valve_position <= MILLI,
    ensures
        rate == flow_of(upstream_pressure as int, valve_position as int),
        0 <= rate <= upstream_pressure * 10,
{
    proof {
        assert(upstream_pressure * valve_position <= upstream_pressure * 1000) by (nonlinear_arith)
            requires
                0 <= upstream_pressure,
                0 <= valve_position <= 1000,
        ;
        assert(0 <= upstream_pressure * valve_position) by (nonlinear_arith)
            requires
                0 <= upstream_pressure,
                0 <= valve_position,
        ;
    }
    (upstream_pressure * valve_position) / 100
}

/// Pressure drop along a pipe: the loss is `flow * length / 100` in
/// engineering units, and the result never goes below zero.
pub fn pressure_decay(upstream_pressure: i64, flow_rate: i64, pipe_length: i64) -> (pressure: i64)
    requires
        0 <= upstream_pressure <= VALUE_LIMIT,
        0 <= flow_rate <= VALUE_LIMIT,
        0 <= pipe_length <= 1_000_000,
    ensures
        pressure == if upstream_pressure - flow_rate * pipe_length / 100_000 >= 0 {
            upstream_pressure - flow_rate * pipe_length / 100_000
        } else {
            0int
        },
        0 <= pressure <= upstream_pressure,
{
    proof {
        assert(0 <= flow_rate * pipe_length <= VALUE_LIMIT * 1_000_000) by (nonlinear_arith)
            requires
                0 <= flow_rate <= VALUE_LIMIT,
                0 <= pipe_length <= 1_000_000,
        ;
    }
    let loss: i64 = (flow_rate * pipe_length) / 100_000;
    if upstream_pressure - loss >= 0 {
        upstream_pressure - loss
    } else {
        0
    }
}

/// Multiplies a non-negative value by `1 + noise/100` where `noise` is in
/// milli-percent: the deterministic half of a noisy measurement, applied
/// to whatever disturbance was drawn.
pub fn apply_noise(value: i64, noise_milli_percent: i64) -> (noisy: i64)
    requires
        0 <= value <= VALUE_LIMIT,
        -FULL_SCALE_MILLI_PERCENT <= noise_milli_percent <= FULL_SCALE_MILLI_PERCENT,
    ensures
        noisy == with_noise(value as int, noise_milli_percent as int),
        0 <= noisy <= 2 * value,
{
    proof {
        assert(0 <= value * (100_000 + noise_milli_percent) <= value * 200_000)
            by (nonlinear_arith)
            requires
                0 <= value,
                0 <= 100_000 + noise_milli_percent <= 200_000,
        ;
        assert(value * 200_000 / 100_000 == 2 * value) by (nonlinear_arith)
            requires
                0 <= value,
        ;
        assert(value * (100_000 + noise_milli_percent) / 100_000 <= value * 200_000 / 100_000)
            by (nonlinear_arith)
            requires
                0 <= value * (100_000 + noise_milli_percent) <= value * 200_000,
        ;
    }
    (value * (FULL_SCALE_MILLI_PERCENT + noise_milli_percent)) / FULL_SCALE_MILLI_PERCENT
}

/// Relies on `rand::random_range`: a uniform draw from a non-empty
/// half-open range lies inside that range.
#[verifier::external_body]
pub fn draw_noise(bound_milli_percent: i64) -> (noise: i64)
    requires
        1 <= bound_milli_percent,
    ensures
        -bound_milli_percent <= noise < bound_milli_percent,
{
    rand::random_range(-bound_milli_percent..bound_milli_percent)
}

/// A noisy measurement: the value disturbed by a uniformly drawn factor
/// of at most `bound/100` either way.
pub fn add_noise(value: i64, bound_milli_percent: i64) -> (noisy: i64)
    requires
        0 <= value <= VALUE_LIMIT,
        1 <= bound_milli_percent <= FULL_SCALE_MILLI_PERCENT,
    ensures
        exists|noise: int|
            -bound_milli_percent <= noise < bound_milli_percent && noisy == with_noise(
                value as int,
                noise,
            ),
        0 <= noisy <= 2 * value,
{
    let noise: i64 = draw_noise(bound_milli_percent);
    apply_noise(value, noise)
}

} // verus!
