use vstd::prelude::*;
use vstd::slice::slice_subrange;

use crate::command::{command_bytes, ClockStretch, Command, MeasurementOrder};
use crate::convert::{convert, measurement_of, Measurement, MeasurementRaw};
use crate::crc::{crc8, crc8_spec};

verus! {

/// The sensor's fixed 7-bit bus address.
pub const I2C_ADDRESS: u8 = 0x70;

/// Longest conversion time of a measurement, in milliseconds.
pub const MEASUREMENT_DELAY_MS: u8 = 15;

/// Errors of a sensor operation.
#[derive(Debug)]
pub enum Error<E> {
    /// A reply group failed its CRC-8 check.
    Crc,
    /// The bus reported a failure.
    I2c(E),
}

/// Blocking access to an I2C bus.
pub trait I2c {
    type Error;

    /// Writes `bytes` to the device at `address`.
    fn write(&mut self, address: u8, bytes: &[u8]) -> Result<(), Self::Error>;

    /// Fills `buffer` with bytes read from the device at `address`.
    fn read(&mut self, address: u8, buffer: &mut [u8]) -> Result<(), Self::Error>;
}

/// A blocking delay of at least the given number of milliseconds.
pub trait DelayMs {
    fn delay_ms(&mut self, ms: u8);
}

/// One thing the driver did with its bus or its delay, with the bus's answer.
pub enum Event<E> {
    /// A write of the bytes to the address.
    Write(u8, Seq<u8>, Result<(), E>),
    /// A read from the address, with the bytes the buffer held afterwards.
    Read(u8, Seq<u8>, Result<(), E>),
    /// A delay of the given number of milliseconds.
    Delay(u8),
}

/// The 16-bit value of two bytes, most significant first.
pub open spec fn be_u16(hi: u8, lo: u8) -> u16 {
    (hi as int * 256 + lo as int) as u16
}

/// A 3-byte reply group is accepted iff the CRC-8 over all of it is zero.
pub open spec fn group_valid(group: Seq<u8>) -> bool {
    crc8_spec(group) == 0
}

/// What a 6-byte measurement reply decodes to: both groups must pass the
/// check, then the temperature is the first pair and the humidity the fourth
/// and fifth bytes.
pub open spec fn measurement_reply<E>(buf: Seq<u8>) -> Result<MeasurementRaw, Error<E>> {
    if group_valid(buf.subrange(0, 3)) && group_valid(buf.subrange(3, 6)) {
        Ok(MeasurementRaw { temperature: be_u16(buf[0], buf[1]), humidity: be_u16(buf[3], buf[4]) })
    } else {
        Err(Error::Crc)
    }
}

/// A raw result carried into physical units; an error stays as it is.
pub open spec fn converted<E>(r: Result<MeasurementRaw, Error<E>>) -> Result<Measurement, Error<E>> {
    match r {
        Ok(raw) => Ok(measurement_of(raw)),
        Err(e) => Err(e),
    }
}

/// What a 3-byte identifier reply decodes to.
pub open spec fn id_reply<E>(buf: Seq<u8>) -> Result<u16, Error<E>> {
    if group_valid(buf) {
        Ok(be_u16(buf[0], buf[1]))
    } else {
        Err(Error::Crc)
    }
}

/// The measure command the driver issues: no clock stretching, temperature
/// first.
pub open spec fn measure_command() -> Command {
    Command::Measure(ClockStretch::Disabled, MeasurementOrder::TFirst)
}

/// The bus's answer to a write or a read; a delay has none.
pub open spec fn answer<E>(e: Event<E>) -> Result<(), E> {
    match e {
        Event::Write(_, _, r) => r,
        Event::Read(_, _, r) => r,
        Event::Delay(_) => Ok(()),
    }
}

/// The write of command `c` to the sensor, answered with `result`.
pub open spec fn command_write<E>(c: Command, result: Result<(), E>) -> Event<E> {
    Event::Write(I2C_ADDRESS, command_bytes(c), result)
}

/// A bus answer as the driver reports it: success unchanged, a failure as a
/// bus error carrying the bus's own value.
pub open spec fn bus_result<E>(result: Result<(), E>) -> Result<(), Error<E>> {
    match result {
        Ok(()) => Ok(()),
        Err(e) => Err(Error::I2c(e)),
    }
}

/// A read of `len` bytes from the sensor.
pub open spec fn is_reply_read<E>(e: Event<E>, len: nat) -> bool {
    e matches Event::Read(address, bytes, _) && address == I2C_ADDRESS && bytes.len() == len
}

/// The bytes a read left in its buffer.
pub open spec fn read_bytes<E>(e: Event<E>) -> Seq<u8> {
    match e {
        Event::Read(_, bytes, _) => bytes,
        _ => Seq::empty(),
    }
}

/// The events of a command followed by a reply of `len` bytes, as the history
/// went from `before` to `after`.
///
/// The command is written to the sensor first. If that write fails, nothing
/// else happens. Otherwise the delay `wait` follows, if there is one, and then
/// exactly one read of `len` bytes from the sensor.
pub open spec fn reply_events<E>(
    before: Seq<Event<E>>,
    after: Seq<Event<E>>,
    c: Command,
    wait: Option<u8>,
    len: nat,
) -> bool {
    let n = before.len() as int;
    &&& n < after.len()
    &&& after.take(n + 1) == before.push(command_write(c, answer(after[n])))
    &&& if answer(after[n]) is Ok {
        match wait {
            Some(ms) => after.len() == n + 3 && after[n + 1] == Event::<E>::Delay(ms)
                && is_reply_read(after[n + 2], len),
            None => after.len() == n + 2 && is_reply_read(after[n + 1], len),
        }
    } else {
        after.len() == n + 1
    }
}

/// What a reply transaction returns, given the history before and after it:
/// a failed write or read is a bus error with the bus's value, and otherwise
/// the result is `decoded`, the decoding of the bytes read.
pub open spec fn reply_result<E, T>(
    before: Seq<Event<E>>,
    after: Seq<Event<E>>,
    decoded: Result<T, Error<E>>,
) -> Result<T, Error<E>> {
    match answer(after[before.len() as int]) {
        Err(e) => Err(Error::I2c(e)),
        Ok(()) => match answer(after.last()) {
            Err(e) => Err(Error::I2c(e)),
            Ok(()) => decoded,
        },
    }
}

/// The result of a measurement transaction.
pub open spec fn measurement_result<E>(before: Seq<Event<E>>, after: Seq<Event<E>>) -> Result<
    MeasurementRaw,
    Error<E>,
> {
    reply_result(before, after, measurement_reply::<E>(read_bytes(after.last())))
}

/// The result of an identifier transaction.
pub open spec fn id_result<E>(before: Seq<Event<E>>, after: Seq<Event<E>>) -> Result<u16, Error<E>> {
    reply_result(before, after, id_reply::<E>(read_bytes(after.last())))
}

/// A failed command write ends a transaction: the write is its only event, so
/// no delay and no read follow, and the result is a bus error carrying the
/// write's own error value.
pub proof fn lemma_failed_write_ends_transaction<E>(
    before: Seq<Event<E>>,
    after: Seq<Event<E>>,
    c: Command,
    wait: Option<u8>,
    len: nat,
)
    requires
        reply_events(before, after, c, wait, len),
        answer(after[before.len() as int]) is Err,
    ensures
        after == before.push(command_write(c, answer(after[before.len() as int]))),
        measurement_result(before, after) == Err::<MeasurementRaw, Error<E>>(
            Error::I2c(answer(after[before.len() as int])->Err_0),
        ),
        id_result(before, after) == Err::<u16, Error<E>>(
            Error::I2c(answer(after[before.len() as int])->Err_0),
        ),
{
    assert(after =~= after.take(before.len() as int + 1));
}

/// Relies on byteorder's `BigEndian::read_u16`: the first two bytes of
/// `buf`, most significant first.
#[verifier::external_body]
fn read_u16_be(buf: &[u8]) -> (r: u16)
    requires
        buf@.len() >= 2,
    ensures
        r == be_u16(buf@[0], buf@[1]),
{
    <byteorder::BigEndian as byteorder::ByteOrder>::read_u16(buf)
}

/// Checks one reply group: `Ok` iff the CRC-8 over all of it is zero.
pub fn validate_crc<E>(data: &[u8]) -> (r: Result<(), Error<E>>)
    ensures
        r is Ok <==> group_valid(data@),
        r is Err ==> r->Err_0 is Crc,
{
    if crc8(data) == 0 {
        Ok(())
    } else {
        Err(Error::Crc)
    }
}

/// Decodes a 6-byte measurement reply, checking both groups.
pub fn parse_measurement<E>(buf: &[u8]) -> (r: Result<MeasurementRaw, Error<E>>)
    requires
        buf@.len() == 6,
    ensures
        r == measurement_reply::<E>(buf@),
{
    let first = slice_subrange(buf, 0, 3);
    let second = slice_subrange(buf, 3, 6);
    match validate_crc::<E>(first) {
        Ok(()) => {},
        Err(e) => {
            return Err(e);
        },
    }
    match validate_crc::<E>(second) {
        Ok(()) => {},
        Err(e) => {
            return Err(e);
        },
    }
    let temperature = read_u16_be(slice_subrange(buf, 0, 2));
    let humidity = read_u16_be(slice_subrange(buf, 3, 5));
    Ok(MeasurementRaw { temperature, humidity })
}

/// Decodes a 3-byte identifier reply, checking its group.
pub fn parse_id<E>(buf: &[u8]) -> (r: Result<u16, Error<E>>)
    requires
        buf@.len() == 3,
    ensures
        r == id_reply::<E>(buf@),
{
    match validate_crc::<E>(buf) {
        Ok(()) => {},
        Err(e) => {
            return Err(e);
        },
    }
    Ok(read_u16_be(slice_subrange(buf, 0, 2)))
}

/// The driver: it owns the bus and the delay for its lifetime.
pub struct SHTC1<I2C: I2c, D> {
    i2c: I2C,
    delay: D,
    history: Ghost<Seq<Event<I2C::Error>>>,
}

impl<I2C: I2c, D: DelayMs> SHTC1<I2C, D> {
    /// The bus handle the driver holds.
    pub closed spec fn bus(&self) -> I2C {
        self.i2c
    }

    /// Every write, read and delay the driver has made, oldest first, each
    /// with the bus's answer.
    pub closed spec fn history(&self) -> Seq<Event<I2C::Error>> {
        self.history@
    }

    /// Creates a new driver that owns `i2c` and `delay`.
    pub fn new(i2c: I2C, delay: D) -> (r: Self)
        ensures
            r.bus() == i2c,
            r.history() == Seq::<Event<I2C::Error>>::empty(),
    {
        SHTC1 { i2c, delay, history: Ghost(Seq::empty()) }
    }

    /// Writes `bytes` to the device at `address`, and records it.
    fn bus_write(&mut self, address: u8, bytes: &[u8]) -> (r: Result<(), I2C::Error>)
        ensures
            final(self).history() == old(self).history().push(Event::Write(address, bytes@, r)),
    {
        let r = self.i2c.write(address, bytes);
        proof {
            self.history@ = self.history@.push(Event::Write(address, bytes@, r));
        }
        r
    }

    /// Reads from the device at `address` into `buffer`, and records it.
    fn bus_read(&mut self, address: u8, buffer: &mut [u8]) -> (r: Result<(), I2C::Error>)
        ensures
            final(self).history() == old(self).history().push(
                Event::Read(address, final(buffer)@, r),
            ),
    {
        let r = self.i2c.read(address, buffer);
        proof {
            self.history@ = self.history@.push(Event::Read(address, buffer@, r));
        }
        r
    }

    /// Waits `ms` milliseconds, and records it.
    fn pause(&mut self, ms: u8)
        ensures
            final(self).history() == old(self).history().push(Event::Delay(ms)),
    {
        self.delay.delay_ms(ms);
        proof {
            self.history@ = self.history@.push(Event::Delay(ms));
        }
    }

    /// Sends a command to the sensor: exactly one write of its two bytes,
    /// whose failure is reported as a bus error.
    fn command(&mut self, command: Command) -> (r: Result<(), Error<I2C::Error>>)
        ensures
            final(self).history() == old(self).history().push(
                command_write(command, answer(final(self).history().last())),
            ),
            r == bus_result(answer(final(self).history().last())),
    {
        let bytes = command.value();
        match self.bus_write(I2C_ADDRESS, &bytes) {
            Ok(()) => Ok(()),
            Err(e) => Err(Error::I2c(e)),
        }
    }

    /// Takes a temperature and humidity measurement in physical units: the
    /// events of `measure_raw`, and its result converted.
    pub fn measure(&mut self) -> (r: Result<Measurement, Error<I2C::Error>>)
        ensures
            reply_events(
                old(self).history(),
                final(self).history(),
                measure_command(),
                Some(MEASUREMENT_DELAY_MS),
                6,
            ),
            r == converted(measurement_result(old(self).history(), final(self).history())),
    {
        match self.measure_raw() {
            Ok(raw) => Ok(convert(&raw)),
            Err(e) => Err(e),
        }
    }

    /// Takes a temperature and humidity measurement as raw counts: writes the
    /// measure command (no clock stretching, temperature first), waits for
    /// the conversion, reads six bytes and checks both groups.
    pub fn measure_raw(&mut self) -> (r: Result<MeasurementRaw, Error<I2C::Error>>)
        ensures
            reply_events(
                old(self).history(),
                final(self).history(),
                measure_command(),
                Some(MEASUREMENT_DELAY_MS),
                6,
            ),
            r == measurement_result(old(self).history(), final(self).history()),
    {
        let ghost before = self.history();
        match self.command(Command::Measure(ClockStretch::Disabled, MeasurementOrder::TFirst)) {
            Ok(()) => {},
            Err(e) => {
                assert(self.history().take(before.len() as int + 1) =~= self.history());
                return Err(e);
            },
        }
        let ghost written = self.history();
        self.pause(MEASUREMENT_DELAY_MS);
        let mut buf: [u8; 6] = [0; 6];
        let rd = self.bus_read(I2C_ADDRESS, &mut buf);
        assert(self.history().take(before.len() as int + 1) =~= written);
        match rd {
            Ok(()) => parse_measurement::<I2C::Error>(&buf),
            Err(e) => Err(Error::I2c(e)),
        }
    }

    /// Reads the sensor's identifier register: writes the read-identifier
    /// command, then reads three bytes with no delay and checks them.
    pub fn read_id(&mut self) -> (r: Result<u16, Error<I2C::Error>>)
        ensures
            reply_events(old(self).history(), final(self).history(), Command::ReadID, None, 3),
            r == id_result(old(self).history(), final(self).history()),
    {
        let ghost before = self.history();
        match self.command(Command::ReadID) {
            Ok(()) => {},
            Err(e) => {
                assert(self.history().take(before.len() as int + 1) =~= self.history());
                return Err(e);
            },
        }
        let ghost written = self.history();
        let mut id_bytes: [u8; 3] = [0; 3];
        let rd = self.bus_read(I2C_ADDRESS, &mut id_bytes);
        assert(self.history().take(before.len() as int + 1) =~= written);
        match rd {
            Ok(()) => parse_id::<I2C::Error>(&id_bytes),
            Err(e) => Err(Error::I2c(e)),
        }
    }

    /// Ends the driver and hands back the bus.
    pub fn release(self) -> (r: I2C)
        ensures
            r == self.bus(),
    {
        self.i2c
    }

    /// Sends a soft reset: exactly one write of the reset command and nothing
    /// else. Nothing is read back, so only that write can fail.
    pub fn reset(&mut self) -> (r: Result<(), Error<I2C::Error>>)
        ensures
            final(self).history() == old(self).history().push(
                command_write(Command::SoftReset, answer(final(self).history().last())),
            ),
            r == bus_result(answer(final(self).history().last())),
    {
        self.command(Command::SoftReset)
    }
}

} // verus!
