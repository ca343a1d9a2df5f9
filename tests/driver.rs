use std::cell::RefCell;
use std::rc::Rc;

use shtc1::{parse_id, parse_measurement, DelayMs, Error, I2c, MeasurementRaw, SHTC1};

#[derive(Debug, Clone, PartialEq)]
enum Event {
    Write(u8, Vec<u8>),
    Delay(u8),
    Read(u8, usize),
}

type Log = Rc<RefCell<Vec<Event>>>;

struct FakeBus {
    log: Log,
    reply: Vec<u8>,
    fail_write: bool,
    fail_read: bool,
}

impl I2c for FakeBus {
    type Error = &'static str;

    fn write(&mut self, address: u8, bytes: &[u8]) -> Result<(), Self::Error> {
        self.log.borrow_mut().push(Event::Write(address, bytes.to_vec()));
        if self.fail_write {
            Err("write failed")
        } else {
            Ok(())
        }
    }

    fn read(&mut self, address: u8, buffer: &mut [u8]) -> Result<(), Self::Error> {
        self.log.borrow_mut().push(Event::Read(address, buffer.len()));
        if self.fail_read {
            return Err("read failed");
        }
        buffer.copy_from_slice(&self.reply[..buffer.len()]);
        Ok(())
    }
}

struct FakeDelay {
    log: Log,
}

impl DelayMs for FakeDelay {
    fn delay_ms(&mut self, ms: u8) {
        self.log.borrow_mut().push(Event::Delay(ms));
    }
}

fn sensor(reply: &[u8], fail_write: bool, fail_read: bool) -> (SHTC1<FakeBus, FakeDelay>, Log) {
    let log: Log = Rc::new(RefCell::new(Vec::new()));
    let bus = FakeBus { log: log.clone(), reply: reply.to_vec(), fail_write, fail_read };
    let delay = FakeDelay { log: log.clone() };
    (SHTC1::new(bus, delay), log)
}

const GOOD_REPLY: [u8; 6] = [0x30, 0x2E, 0xAA, 0x6B, 0x3E, 0x14];

#[test]
fn measure_raw_decodes_valid_reply() {
    let (mut s, log) = sensor(&GOOD_REPLY, false, false);
    let raw = s.measure_raw().unwrap();
    assert_eq!(raw.temperature, 0x302E);
    assert_eq!(raw.humidity, 0x6B3E);
    assert_eq!(
        *log.borrow(),
        vec![Event::Write(0x70, vec![0x78, 0x66]), Event::Delay(15), Event::Read(0x70, 6)]
    );
}

#[test]
fn measure_raw_rejects_corrupt_temperature_checksum() {
    let mut reply = GOOD_REPLY;
    reply[2] ^= 0x01;
    let (mut s, _log) = sensor(&reply, false, false);
    assert!(matches!(s.measure_raw(), Err(Error::Crc)));
}

#[test]
fn measure_raw_rejects_corrupt_humidity_checksum() {
    let mut reply = GOOD_REPLY;
    reply[5] ^= 0x80;
    let (mut s, _log) = sensor(&reply, false, false);
    assert!(matches!(s.measure_raw(), Err(Error::Crc)));
}

#[test]
fn measure_raw_write_failure_skips_delay_and_read() {
    let (mut s, log) = sensor(&GOOD_REPLY, true, false);
    assert!(matches!(s.measure_raw(), Err(Error::I2c("write failed"))));
    assert_eq!(*log.borrow(), vec![Event::Write(0x70, vec![0x78, 0x66])]);
}

#[test]
fn measure_raw_read_failure_is_bus_error() {
    let (mut s, _log) = sensor(&GOOD_REPLY, false, true);
    assert!(matches!(s.measure_raw(), Err(Error::I2c("read failed"))));
}

#[test]
fn measure_end_to_end() {
    let (mut s, _log) = sensor(&GOOD_REPLY, false, false);
    let m = s.measure().unwrap();
    assert_eq!(m.temperature, -4500 + (17500 * 12334) / 65535);
    assert_eq!(m.temperature, -1207);
    assert_eq!(m.humidity, (10000 * 27454) / 65535);
    assert_eq!(m.humidity, 4189);
}

#[test]
fn measure_passes_checksum_error_through() {
    let mut reply = GOOD_REPLY;
    reply[0] ^= 0x10;
    let (mut s, _log) = sensor(&reply, false, false);
    assert!(matches!(s.measure(), Err(Error::Crc)));
}

#[test]
fn read_id_decodes_first_two_bytes() {
    let (mut s, log) = sensor(&[0x07, 0x47, 0x85], false, false);
    assert_eq!(s.read_id().unwrap(), 0x0747);
    assert_eq!(*log.borrow(), vec![Event::Write(0x70, vec![0xEF, 0xC8]), Event::Read(0x70, 3)]);
}

#[test]
fn read_id_rejects_bad_checksum() {
    let (mut s, _log) = sensor(&[0x07, 0x47, 0x86], false, false);
    assert!(matches!(s.read_id(), Err(Error::Crc)));
}

#[test]
fn read_id_write_failure_is_bus_error() {
    let (mut s, log) = sensor(&[0x07, 0x47, 0x85], true, false);
    assert!(matches!(s.read_id(), Err(Error::I2c("write failed"))));
    assert_eq!(log.borrow().len(), 1);
}

#[test]
fn reset_sends_soft_reset_only() {
    let (mut s, log) = sensor(&[], false, false);
    assert!(s.reset().is_ok());
    assert_eq!(*log.borrow(), vec![Event::Write(0x70, vec![0x80, 0x5D])]);
}

#[test]
fn reset_write_failure_is_bus_error() {
    let (mut s, _log) = sensor(&[], true, false);
    assert!(matches!(s.reset(), Err(Error::I2c("write failed"))));
}

#[test]
fn release_returns_the_bus() {
    let (s, _log) = sensor(&[1, 2, 3], false, false);
    let bus = s.release();
    assert_eq!(bus.reply, vec![1, 2, 3]);
}

#[test]
fn parse_measurement_decodes_big_endian() {
    let raw = parse_measurement::<()>(&GOOD_REPLY).unwrap();
    assert_eq!(raw, MeasurementRaw { temperature: 12334, humidity: 27454 });
}

#[test]
fn parse_measurement_rejects_bad_group() {
    let reply = [0x30, 0x2E, 0xAA, 0x6B, 0x3F, 0x14];
    assert!(matches!(parse_measurement::<()>(&reply), Err(Error::Crc)));
}

#[test]
fn parse_id_decodes_big_endian() {
    assert_eq!(parse_id::<()>(&[0xBE, 0xEF, 0x92]).unwrap(), 0xBEEF);
}
