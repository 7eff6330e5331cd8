//! One request and its response over a serial link.
//!
//! The caller owns the link. It clears the buffers, writes the bytes of the
//! request, and then asks [`SerialDevice::poll`] what to do until the answer
//! is [`Wait::Read`] or [`Wait::GiveUp`]. What it read, if anything, goes to
//! [`SerialDevice::msg`].

use vstd::prelude::*;
use crate::fixed::clamp;
use crate::hardware::packet::{is_valid, wire_bytes, Packet};
use crate::units::Time;

verus! {

/// Why an exchange failed.
#[derive(Clone, Copy, Debug, PartialEq, Eq, Structural)]
pub enum SerialFault {
    /// No valid response came back for a request.
    WriteFailed,
    /// A response came back that cannot be used.
    ReadFailed,
}

/// What to do while a response is awaited.
#[derive(Clone, Copy, Debug, PartialEq, Eq, Structural)]
pub enum Wait {
    /// Too few bytes so far and time left: yield and look again.
    Again,
    /// Enough bytes have arrived: read them.
    Read,
    /// The time is up and too few bytes have arrived.
    GiveUp,
}

/// What a [`SerialDevice`] holds.
#[derive(Clone, Copy, Debug, PartialEq, Eq, Structural)]
pub struct SerialDeviceState {
    /// The identifier with which the device reports an error.
    pub error_id: u8,
    /// How long a response is awaited.
    pub timeout: Time,
}

/// The rules of an exchange with one device.
pub struct SerialDevice {
    state: SerialDeviceState,
}

impl View for SerialDevice {
    type V = SerialDeviceState;

    closed spec fn view(&self) -> SerialDeviceState {
        self.state
    }
}

/// What to do after waiting `waited` with `unread` bytes in the buffer.
pub open spec fn wait_of(unread: int, expected: int, waited: int, timeout: int) -> Wait {
    if unread < expected && waited < timeout {
        Wait::Again
    } else if unread >= expected {
        Wait::Read
    } else {
        Wait::GiveUp
    }
}

impl SerialDevice {
    /// The rules for a device that reports errors as `error_id` and is given
    /// `timeout` milliseconds to respond.
    pub fn new(error_id: u8, timeout: u64) -> (d: SerialDevice)
        ensures
            d@.error_id == error_id,
            d@.timeout.us as int == clamp(timeout as int * 1_000),
    {
        let wide: u128 = (timeout as u128) * 1_000;
        let us: i64 = if wide > i64::MAX as u128 {
            i64::MAX
        } else {
            wide as i64
        };
        SerialDevice { state: SerialDeviceState { error_id, timeout: Time { us } } }
    }

    /// The bytes to write for a request.
    pub fn write(&self, command: &Packet) -> (bytes: Vec<u8>)
        ensures
            bytes@ == wire_bytes(command.id, command.checksum, command.data@),
    {
        command.to_bytes()
    }

    /// The frame that the bytes read from the link hold.
    pub fn read(&self, bytes: &Vec<u8>) -> (p: Packet)
        ensures
            p.id == if bytes@.len() >= 1 { bytes@[0] } else { 0 },
            p.checksum == if bytes@.len() >= 2 { bytes@[1] } else { 0 },
            p.data@ == if bytes@.len() >= 2 {
                bytes@.subrange(2, bytes@.len() as int)
            } else {
                Seq::<u8>::empty()
            },
    {
        Packet::from_bytes(bytes)
    }

    /// What to do while a response of `expected_response_size` bytes is
    /// awaited, `waited` after the request was written, with `unread` bytes
    /// in the buffer.
    pub fn poll(&self, unread: usize, expected_response_size: usize, waited: Time) -> (w: Wait)
        ensures
            w == wait_of(
                unread as int,
                expected_response_size as int,
                waited.us as int,
                self@.timeout.us as int,
            ),
    {
        if unread < expected_response_size && waited.us < self.state.timeout.us {
            Wait::Again
        } else if unread >= expected_response_size {
            Wait::Read
        } else {
            Wait::GiveUp
        }
    }

    /// The outcome of an exchange: the response, where bytes were read and
    /// the frame they hold is valid; a failure otherwise. `received` is `None`
    /// where the wait was given up.
    pub fn msg(&self, received: Option<&Vec<u8>>) -> (r: Result<Packet, SerialFault>)
        ensures
            r is Ok <==> (received matches Some(bytes) && is_valid(
                if bytes@.len() >= 1 { bytes@[0] } else { 0 },
                if bytes@.len() >= 2 { bytes@[1] } else { 0 },
                if bytes@.len() >= 2 {
                    bytes@.subrange(2, bytes@.len() as int)
                } else {
                    Seq::<u8>::empty()
                },
            )),
            r matches Ok(p) ==> received matches Some(bytes) && {
                &&& p.id == if bytes@.len() >= 1 { bytes@[0] } else { 0 }
                &&& p.checksum == if bytes@.len() >= 2 { bytes@[1] } else { 0 }
                &&& p.data@ == if bytes@.len() >= 2 {
                    bytes@.subrange(2, bytes@.len() as int)
                } else {
                    Seq::<u8>::empty()
                }
            },
            r matches Err(e) ==> e == SerialFault::WriteFailed,
    {
        match received {
            Some(bytes) => {
                let response = self.read(bytes);
                if response.is_correct() {
                    Ok(response)
                } else {
                    Err(SerialFault::WriteFailed)
                }
            },
            None => Err(SerialFault::WriteFailed),
        }
    }
}

} // verus!
