//! The register accesses that the driver asks of the bus transport, and what
//! the transport reports of them.

use vstd::prelude::*;

verus! {

/// One access to a register of the device.
#[derive(Debug, Clone, Copy, PartialEq, Eq, Structural)]
pub enum Request {
    /// Write `value` to the register at address `register`.
    Write { register: u8, value: u16 },
    /// Read the register at address `register`.
    Read { register: u8 },
}

/// What the transport reports of one access.
#[derive(Debug)]
pub enum Reply<E> {
    /// The write was done.
    Written,
    /// The register that was read holds this value.
    Value(u16),
    /// The access failed.
    Failed(E),
}

impl<E> Reply<E> {
    /// The reply that stands for the outcome of a write.
    pub fn from_write(outcome: Result<(), E>) -> (reply: Reply<E>)
        ensures
            reply == match outcome {
                Ok(_) => Reply::Written,
                Err(e) => Reply::Failed(e),
            },
    {
        match outcome {
            Ok(_) => Reply::Written,
            Err(e) => Reply::Failed(e),
        }
    }

    /// The reply that stands for the outcome of a read.
    pub fn from_read(outcome: Result<u16, E>) -> (reply: Reply<E>)
        ensures
            reply == match outcome {
                Ok(value) => Reply::Value(value),
                Err(e) => Reply::Failed(e),
            },
    {
        match outcome {
            Ok(value) => Reply::Value(value),
            Err(e) => Reply::Failed(e),
        }
    }
}

/// The register value that two bytes on the wire stand for, the more
/// significant byte first.
pub open spec fn word_of(high: u8, low: u8) -> int {
    high * 256 + low
}

/// The bytes that write `value` to the register at `register`: the address,
/// then the value, its more significant byte first.
pub fn write_frame(register: u8, value: u16) -> (frame: [u8; 3])
    ensures
        frame[0] == register,
        word_of(frame[1], frame[2]) == value,
{
    let high: u8 = (value >> 8) as u8;
    let low: u8 = (value & 0xff) as u8;
    assert(high * 256 + low == value) by (bit_vector)
        requires
            high == (value >> 8) as u8,
            low == (value & 0xff) as u8,
    ;
    [register, high, low]
}

/// The register value that the two bytes read from the wire stand for.
pub fn read_word(bytes: [u8; 2]) -> (value: u16)
    ensures
        value == word_of(bytes[0], bytes[1]),
{
    let high: u16 = bytes[0] as u16;
    let low: u16 = bytes[1] as u16;
    assert((high << 8) | low == high * 256 + low) by (bit_vector)
        requires
            high < 256,
            low < 256,
    ;
    (high << 8) | low
}

} // verus!
