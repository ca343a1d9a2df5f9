//! Driver for the Sensirion SHTC1 digital humidity and temperature sensor.
//!
//! The sensor is reached over an I2C bus and a millisecond delay, both handed
//! to the driver as capabilities. The library encodes the sensor's commands,
//! runs its transactions, checks every 3-byte reply group with CRC-8, and
//! converts raw readings into centi-degrees and centi-percent.

mod command;
mod convert;
mod crc;
mod driver;

pub use command::{
    command_bytes, lemma_command_encoding_injective, ClockStretch, Command, MeasurementOrder,
};
pub use convert::{
    convert, convert_humidity, convert_temperature, humidity_of, lemma_conversion_bounds,
    lemma_conversion_monotonic, measurement_of, temperature_of, Measurement, MeasurementRaw,
};
pub use crc::{crc8, crc8_spec, crc_byte, crc_shift, crc_step, lemma_checksum_check, CRC8_POLYNOMIAL};
pub use driver::{
    answer, be_u16, bus_result, command_write, converted, group_valid, id_reply, id_result,
    is_reply_read, lemma_failed_write_ends_transaction, measure_command, measurement_reply, measurement_result, parse_id,
    parse_measurement, read_bytes, reply_events, reply_result, validate_crc, DelayMs, Error, Event,
    I2c, I2C_ADDRESS, MEASUREMENT_DELAY_MS, SHTC1,
};
