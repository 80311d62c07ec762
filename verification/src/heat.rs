//! The heat index: how hot it feels where the air is warm and moist.
//!
//! The index is the regression of Rothfusz, a polynomial in the temperature
//! in degrees Fahrenheit and the relative humidity in percent. Its nine terms
//! are added up exactly and the sum is rounded once.
use vstd::prelude::*;
use crate::fixed::div_round;
use crate::fixed::div_round_i128;
use crate::fixed::saturate_i128;
use crate::units::families::Fraction;
use crate::units::families::FractionalUnit;
use crate::units::temperature::Temperature;
use crate::units::temperature::TemperatureUnit;

verus! {

/// The greatest temperature for which the regression is worked out: 1000 °F.
pub const MAX_TEMPERATURE: i64 = 1_000_000_000;

/// The greatest relative humidity for which the regression is worked out:
/// 300 %.
pub const MAX_HUMIDITY: i64 = 300_000_000;

/// The constant term of the regression, -42.379. Like the other
/// coefficients it is scaled by a hundred million, and further by a million
/// for each factor in millionths that its term has less than the last.
pub const K1: i128 = -4_237_900_000_000_000_000_000_000_000_000_000;

/// The coefficient of the temperature, 2.04901523, scaled.
pub const K2: i128 = 204_901_523_000_000_000_000_000_000;

/// The coefficient of the humidity, 10.14333127, scaled.
pub const K3: i128 = 1_014_333_127_000_000_000_000_000_000;

/// The coefficient of temperature times humidity, -0.22475541, scaled.
pub const K4: i128 = -22_475_541_000_000_000_000;

/// The coefficient of the square of the temperature, -0.00683783, scaled.
pub const K5: i128 = -683_783_000_000_000_000;

/// The coefficient of the square of the humidity, -0.05481717, scaled.
pub const K6: i128 = -5_481_717_000_000_000_000;

/// The coefficient of the square of the temperature times the humidity,
/// 0.00122874, scaled.
pub const K7: i128 = 122_874_000_000;

/// The coefficient of the temperature times the square of the humidity,
/// 0.00085282, scaled.
pub const K8: i128 = 85_282_000_000;

/// The coefficient of the product of the two squares, -0.00000199, scaled.
pub const K9: i128 = -199;

/// What the sum of the nine terms is divided by: the scale of the
/// coefficients times that of four factors in millionths, over that of the
/// result.
pub const SCALE: i128 = 100_000_000_000_000_000_000_000_000;

/// The sum of the nine terms for a temperature `t` in millionths of a degree
/// Fahrenheit and a relative humidity `h` in millionths of a percent, every
/// term brought to the scale of the last.
pub open spec fn rothfusz_sum(t: int, h: int) -> int {
    K1 + K2 * t + K3 * h + K4 * (t * h) + K5 * (t * t) + K6 * (h * h) + K7 * (t * t * h) + K8 * (t
        * h * h) + K9 * (t * t * h * h)
}

/// The heat index in millionths of a degree Fahrenheit for a temperature `t`
/// in millionths of a degree Fahrenheit and a relative humidity `h` in
/// millionths of a percent: the value of the regression, rounded to the
/// nearest millionth.
pub open spec fn rothfusz(t: int, h: int) -> int {
    div_round(rothfusz_sum(t, h), SCALE as int)
}

/// Whether the regression is worked out for `t` and `h`: for temperatures
/// between -1000 and 1000 °F and humidities between -300 and 300 %.
pub open spec fn in_reach(t: int, h: int) -> bool {
    -MAX_TEMPERATURE <= t <= MAX_TEMPERATURE && -MAX_HUMIDITY <= h <= MAX_HUMIDITY
}

/// The heat index of a temperature and a relative humidity, where the
/// regression is worked out for them.
pub open spec fn spec_heat_index(temperature: Temperature, humidity: Fraction) -> Option<
    Temperature,
> {
    let t = temperature.spec_value_in(TemperatureUnit::Fahrenheit);
    let h = humidity.spec_value_in(FractionalUnit::Percent);
    if in_reach(t, h) {
        Some(Temperature { value: rothfusz(t, h) as i64, unit: TemperatureUnit::Fahrenheit })
    } else {
        None
    }
}

/// Within reach the heat index stays well inside the range of the values.
pub proof fn lemma_rothfusz_bounds(t: int, h: int)
    requires
        in_reach(t, h),
    ensures
        -0x4000_0000_0000_0000_0000_0000_0000_0000 <= rothfusz_sum(t, h)
            <= 0x4000_0000_0000_0000_0000_0000_0000_0000,
        -1_000_000_000_000 <= rothfusz(t, h) <= 1_000_000_000_000,
{
    let tt = t * t;
    let hh = h * h;
    let th = t * h;
    let tth = t * t * h;
    let thh = t * h * h;
    let tthh = t * t * h * h;
    assert(0 <= tt <= 1_000_000_000_000_000_000) by (nonlinear_arith)
        requires
            -1_000_000_000 <= t <= 1_000_000_000,
            tt == t * t,
    ;
    assert(0 <= hh <= 90_000_000_000_000_000) by (nonlinear_arith)
        requires
            -300_000_000 <= h <= 300_000_000,
            hh == h * h,
    ;
    assert(-300_000_000_000_000_000 <= th <= 300_000_000_000_000_000) by (nonlinear_arith)
        requires
            -1_000_000_000 <= t <= 1_000_000_000,
            -300_000_000 <= h <= 300_000_000,
            th == t * h,
    ;
    assert(-300_000_000_000_000_000_000_000_000 <= tth <= 300_000_000_000_000_000_000_000_000)
        by (nonlinear_arith)
        requires
            0 <= tt <= 1_000_000_000_000_000_000,
            -300_000_000 <= h <= 300_000_000,
            tth == tt * h,
    ;
    assert(-90_000_000_000_000_000_000_000_000 <= thh <= 90_000_000_000_000_000_000_000_000)
        by (nonlinear_arith)
        requires
            -1_000_000_000 <= t <= 1_000_000_000,
            0 <= hh <= 90_000_000_000_000_000,
            thh == t * h * h,
            hh == h * h,
    ;
    assert(0 <= tthh <= 90_000_000_000_000_000_000_000_000_000_000_000) by (nonlinear_arith)
        requires
            0 <= tt <= 1_000_000_000_000_000_000,
            0 <= hh <= 90_000_000_000_000_000,
            tthh == t * t * h * h,
            tt == t * t,
            hh == h * h,
    ;
    let n = rothfusz_sum(t, h);
    assert(n == K1 + K2 * t + K3 * h + K4 * th + K5 * tt + K6 * hh + K7 * tth + K8 * thh + K9
        * tthh);
    assert(-80_000_000_000_000_000_000_000_000_000_000_000_000 <= n
        <= 80_000_000_000_000_000_000_000_000_000_000_000_000);
    crate::fixed::lemma_div_round_bounds(n, SCALE as int);
    assert(-1_000_000_000_000 <= div_round(n, SCALE as int) <= 1_000_000_000_000)
        by (nonlinear_arith)
        requires
            2 * n - SCALE < 2 * SCALE * div_round(n, SCALE as int) <= 2 * n + SCALE,
            SCALE == 100_000_000_000_000_000_000_000_000,
            -80_000_000_000_000_000_000_000_000_000_000_000_000 <= n
                <= 80_000_000_000_000_000_000_000_000_000_000_000_000,
    ;
}

/// The heat index in millionths of a degree Fahrenheit, where the regression
/// is worked out for `t` and `h`.
pub fn rothfusz_micro(t: i64, h: i64) -> (r: Option<i64>)
    ensures
        r is Some <==> in_reach(t as int, h as int),
        r matches Some(v) ==> v == rothfusz(t as int, h as int),
{
    if t < -MAX_TEMPERATURE || t > MAX_TEMPERATURE || h < -MAX_HUMIDITY || h > MAX_HUMIDITY {
        return None;
    }
    proof {
        lemma_rothfusz_bounds(t as int, h as int);
        assert(0 <= t * t <= 1_000_000_000_000_000_000) by (nonlinear_arith)
            requires
                -1_000_000_000 <= t <= 1_000_000_000,
        ;
        assert(0 <= h * h <= 90_000_000_000_000_000) by (nonlinear_arith)
            requires
                -300_000_000 <= h <= 300_000_000,
        ;
        assert(-300_000_000_000_000_000 <= t * h <= 300_000_000_000_000_000) by (nonlinear_arith)
            requires
                -1_000_000_000 <= t <= 1_000_000_000,
                -300_000_000 <= h <= 300_000_000,
        ;
    }
    let t: i128 = t as i128;
    let h: i128 = h as i128;
    let tt: i128 = t * t;
    let hh: i128 = h * h;
    let th: i128 = t * h;
    proof {
        assert(-300_000_000_000_000_000_000_000_000 <= tt * h
            <= 300_000_000_000_000_000_000_000_000) by (nonlinear_arith)
            requires
                0 <= tt <= 1_000_000_000_000_000_000,
                -300_000_000 <= h <= 300_000_000,
        ;
        assert(-90_000_000_000_000_000_000_000_000 <= t * hh
            <= 90_000_000_000_000_000_000_000_000) by (nonlinear_arith)
            requires
                -1_000_000_000 <= t <= 1_000_000_000,
                0 <= hh <= 90_000_000_000_000_000,
        ;
        assert(0 <= tt * hh <= 90_000_000_000_000_000_000_000_000_000_000_000)
            by (nonlinear_arith)
            requires
                0 <= tt <= 1_000_000_000_000_000_000,
                0 <= hh <= 90_000_000_000_000_000,
        ;
        assert(tt * h == t * t * h) by (nonlinear_arith)
            requires
                tt == t * t,
        ;
        assert(t * hh == t * h * h) by (nonlinear_arith)
            requires
                hh == h * h,
        ;
        assert(tt * hh == t * t * h * h) by (nonlinear_arith)
            requires
                tt == t * t,
                hh == h * h,
        ;
    }
    let tth: i128 = tt * h;
    let thh: i128 = t * hh;
    let tthh: i128 = tt * hh;
    let sum: i128 = K1 + K2 * t + K3 * h + K4 * th + K5 * tt + K6 * hh + K7 * tth + K8 * thh + K9
        * tthh;
    Some(saturate_i128(div_round_i128(sum, SCALE)))
}

/// The heat index of a temperature and a relative humidity: the regression
/// of Rothfusz on the temperature in Fahrenheit and the humidity in percent,
/// in Fahrenheit. There is none beyond 1000 °F or 300 % on either side of
/// zero, where the regression is not worked out.
pub fn heat_index_of(temperature: Temperature, humidity: Fraction) -> (r: Option<Temperature>)
    ensures
        r == spec_heat_index(temperature, humidity),
{
    let t = temperature.value_in(TemperatureUnit::Fahrenheit);
    let h = humidity.value_in(FractionalUnit::Percent);
    match rothfusz_micro(t, h) {
        Some(v) => Some(Temperature::new(v, TemperatureUnit::Fahrenheit)),
        None => None,
    }
}

} // verus!
