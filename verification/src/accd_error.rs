//! The errors that decoding and command building can report.

use vstd::prelude::*;

verus! {

/// Why an operation of this library produced no value.
#[derive(Clone, Copy, Debug, PartialEq, Eq, Structural)]
pub enum ProtocolError {
    /// The bytes end before the message does, or a string is not UTF-8.
    MalformedMessage,
    /// A command was asked for while no registration is in force.
    NotRegistered,
    /// A string to send takes more than 65535 bytes, which its 16-bit
    /// length cannot say.
    StringTooLong,
}

} // verus!
