use vstd::prelude::*;

verus! {

/// A reading in physical units: centi-degrees Celsius and centi-percent
/// relative humidity.
#[derive(Debug, Clone, Copy, PartialEq, Eq, Structural)]
pub struct Measurement {
    pub temperature: i32,
    pub humidity: i32,
}

/// A reading as the sensor's 16-bit ADC counts.
#[derive(Debug, Clone, Copy, PartialEq, Eq, Structural)]
pub struct MeasurementRaw {
    pub temperature: u16,
    pub humidity: u16,
}

/// Temperature in centi-degrees Celsius for a raw count.
pub open spec fn temperature_of(raw: u16) -> int {
    -4500 + (17500 * raw as int) / 65535
}

/// Relative humidity in centi-percent for a raw count.
pub open spec fn humidity_of(raw: u16) -> int {
    (10000 * raw as int) / 65535
}

/// Both readings of `m` in physical units.
pub open spec fn measurement_of(m: MeasurementRaw) -> Measurement {
    Measurement {
        temperature: temperature_of(m.temperature) as i32,
        humidity: humidity_of(m.humidity) as i32,
    }
}

/// Converts a raw reading into physical units.
pub fn convert(m: &MeasurementRaw) -> (r: Measurement)
    ensures
        r == measurement_of(*m),
        r.temperature == temperature_of(m.temperature),
        r.humidity == humidity_of(m.humidity),
{
    Measurement { temperature: convert_temperature(m.temperature), humidity: convert_humidity(m.humidity) }
}

/// Converts a raw temperature count into centi-degrees Celsius.
pub fn convert_temperature(raw: u16) -> (r: i32)
    ensures
        r == temperature_of(raw),
{
    proof {
        lemma_conversion_bounds(raw);
    }
    let scaled: u32 = 17500u32 * (raw as u32) / 65535;
    -4500 + scaled as i32
}

/// Converts a raw humidity count into centi-percent relative humidity.
pub fn convert_humidity(raw: u16) -> (r: i32)
    ensures
        r == humidity_of(raw),
{
    proof {
        lemma_conversion_bounds(raw);
    }
    let scaled: u32 = 10000u32 * (raw as u32) / 65535;
    scaled as i32
}

/// Over the whole raw range the temperature lies in [-4500, 13000] and the
/// humidity in [0, 10000].
pub proof fn lemma_conversion_bounds(raw: u16)
    ensures
        -4500 <= temperature_of(raw) <= 13000,
        0 <= humidity_of(raw) <= 10000,
{
    let r = raw as int;
    assert(0 <= (17500 * r) / 65535 <= 17500) by (nonlinear_arith)
        requires
            0 <= r <= 65535,
    ;
    assert(0 <= (10000 * r) / 65535 <= 10000) by (nonlinear_arith)
        requires
            0 <= r <= 65535,
    ;
}

/// Both conversions never decrease as the raw count grows.
pub proof fn lemma_conversion_monotonic(a: u16, b: u16)
    requires
        a <= b,
    ensures
        temperature_of(a) <= temperature_of(b),
        humidity_of(a) <= humidity_of(b),
{
    let x = a as int;
    let y = b as int;
    assert((17500 * x) / 65535 <= (17500 * y) / 65535) by (nonlinear_arith)
        requires
            0 <= x <= y,
    ;
    assert((10000 * x) / 65535 <= (10000 * y) / 65535) by (nonlinear_arith)
        requires
            0 <= x <= y,
    ;
}

} // verus!
