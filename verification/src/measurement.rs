//! The measurement model: a named numeric reading produced by one `measure`
//! call on one sensor.
//!
//! A reading is either a whole number (the air-quality sensor reports ppm and
//! ppb counts) or a fractional reading already rendered as decimal text at
//! the sensor boundary (humidity, temperature). The core never computes on
//! fractional values; it only forwards their text, so that is what it holds.

use crate::numerals::{decimal_string, spec_decimal};
use vstd::prelude::*;
use vstd::string::*;

verus! {

/// The value of one metric.
pub enum MetricValue {
    /// A whole-number reading, such as a ppm or ppb count.
    Whole(u64),
    /// A fractional reading rendered as decimal text at the sensor boundary.
    Text(String),
}

/// One named metric produced by a sensor, forwarded and never retained.
pub struct Measurement {
    pub name: String,
    pub value: MetricValue,
}

/// The text a metric value is rendered as when it is sent outward: the
/// decimal numeral of a whole-number reading, the text of a fractional one.
pub open spec fn value_text(v: MetricValue) -> Seq<char> {
    match v {
        MetricValue::Whole(n) => spec_decimal(n as nat),
        MetricValue::Text(s) => s@,
    }
}

impl MetricValue {
    /// Renders the value as the text sent outward.
    pub fn render(&self) -> (r: String)
        ensures
            r@ == value_text(*self),
    {
        match self {
            MetricValue::Whole(n) => decimal_string(*n),
            MetricValue::Text(s) => s.clone(),
        }
    }
}

impl Measurement {
    /// Builds a measurement from its parts.
    pub fn new(name: String, value: MetricValue) -> (r: Self)
        ensures
            r == (Measurement { name, value }),
    {
        Measurement { name, value }
    }
}

/// The two metrics one air-quality read cycle yields: the CO2-equivalent
/// count in ppm, then the total-VOC count in ppb.
pub fn air_quality_measurements(co2: u64, voc: u64) -> (r: Vec<Measurement>)
    ensures
        r@.len() == 2,
        r@[0].name@ == "co2"@,
        r@[0].value == MetricValue::Whole(co2),
        r@[1].name@ == "voc"@,
        r@[1].value == MetricValue::Whole(voc),
{
    let mut r: Vec<Measurement> = Vec::new();
    r.push(Measurement { name: String::from_str("co2"), value: MetricValue::Whole(co2) });
    r.push(Measurement { name: String::from_str("voc"), value: MetricValue::Whole(voc) });
    r
}

/// The two metrics one humidity/temperature read cycle yields: the relative
/// humidity, then the temperature in degrees Celsius, each already rendered
/// as decimal text at the sensor boundary.
pub fn climate_measurements(humidity: String, temperature: String) -> (r: Vec<Measurement>)
    ensures
        r@.len() == 2,
        r@[0].name@ == "humidity"@,
        r@[0].value == MetricValue::Text(humidity),
        r@[1].name@ == "temperature"@,
        r@[1].value == MetricValue::Text(temperature),
{
    let mut r: Vec<Measurement> = Vec::new();
    r.push(Measurement { name: String::from_str("humidity"), value: MetricValue::Text(humidity) });
    r.push(
        Measurement { name: String::from_str("temperature"), value: MetricValue::Text(temperature) },
    );
    r
}

} // verus!
