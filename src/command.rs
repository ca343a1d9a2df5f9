use vstd::prelude::*;

verus! {

/// Whether the sensor may hold the clock line while it converts.
#[derive(Clone, Copy, PartialEq, Eq, Structural)]
pub enum ClockStretch {
    Enabled,
    Disabled,
}

/// Which of the two readings the sensor sends first.
#[derive(Clone, Copy, PartialEq, Eq, Structural)]
pub enum MeasurementOrder {
    TFirst,
    HFirst,
}

/// A command of the sensor's instruction set.
#[derive(Clone, Copy, PartialEq, Eq, Structural)]
pub enum Command {
    Measure(ClockStretch, MeasurementOrder),
    SoftReset,
    ReadID,
}

/// The two bytes that carry a command on the wire.
pub open spec fn command_bytes(c: Command) -> Seq<u8> {
    match c {
        Command::Measure(ClockStretch::Enabled, MeasurementOrder::TFirst) => seq![0x7Cu8, 0xA2u8],
        Command::Measure(ClockStretch::Enabled, MeasurementOrder::HFirst) => seq![0x5Cu8, 0x24u8],
        Command::Measure(ClockStretch::Disabled, MeasurementOrder::TFirst) => seq![0x78u8, 0x66u8],
        Command::Measure(ClockStretch::Disabled, MeasurementOrder::HFirst) => seq![0x58u8, 0xE0u8],
        Command::SoftReset => seq![0x80u8, 0x5Du8],
        Command::ReadID => seq![0xEFu8, 0xC8u8],
    }
}

impl Command {
    /// The wire form of this command.
    pub fn value(&self) -> (r: [u8; 2])
        ensures
            r@ == command_bytes(*self),
    {
        let r: [u8; 2] = match *self {
            Command::Measure(ClockStretch::Enabled, MeasurementOrder::TFirst) => [0x7C, 0xA2],
            Command::Measure(ClockStretch::Enabled, MeasurementOrder::HFirst) => [0x5C, 0x24],
            Command::Measure(ClockStretch::Disabled, MeasurementOrder::TFirst) => [0x78, 0x66],
            Command::Measure(ClockStretch::Disabled, MeasurementOrder::HFirst) => [0x58, 0xE0],
            Command::SoftReset => [0x80, 0x5D],
            Command::ReadID => [0xEF, 0xC8],
        };
        assert(r@ =~= command_bytes(*self));
        r
    }
}

/// Every command has a two-byte wire form drawn from the fixed table, and
/// no two commands share one.
pub proof fn lemma_command_encoding_injective(a: Command, b: Command)
    ensures
        command_bytes(a).len() == 2,
        command_bytes(a) == command_bytes(b) ==> a == b,
{
    if command_bytes(a) == command_bytes(b) {
        assert(command_bytes(a)[0] == command_bytes(b)[0]);
        assert(command_bytes(a)[1] == command_bytes(b)[1]);
    }
}

} // verus!
