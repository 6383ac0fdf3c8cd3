//! The server's answer to a registration request.

use vstd::prelude::*;
use vstd::slice::{slice_subrange, slice_to_vec};
use vstd::utf8::{decode_utf8, valid_utf8};
use crate::accd_error::ProtocolError;
use crate::accd_utils::string_from_bytes;
use crate::accd_wire::{has_bytes, i32_at, reads, ByteCursor};

verus! {

/// What the server said of a registration: the connection id that every
/// later command carries, whether the registration succeeded, whether the
/// connection is read-only, and an error message.
#[derive(Debug)]
pub struct ACCDRegistrationResult {
    pub connection_id: i32,
    pub connection_success: u8,
    pub is_read_only: u8,
    pub err_msg: String,
}

/// The mathematical value of an [`ACCDRegistrationResult`].
pub struct RegistrationResultView {
    pub connection_id: i32,
    pub connection_success: u8,
    pub is_read_only: u8,
    pub err_msg: Seq<char>,
}

impl View for ACCDRegistrationResult {
    type V = RegistrationResultView;

    open spec fn view(&self) -> RegistrationResultView {
        RegistrationResultView {
            connection_id: self.connection_id,
            connection_success: self.connection_success,
            is_read_only: self.is_read_only,
            err_msg: self.err_msg@,
        }
    }
}

/// The result that stands before any registration: connection id -1.
pub open spec fn default_registration_result() -> RegistrationResultView {
    RegistrationResultView {
        connection_id: -1i32,
        connection_success: 0,
        is_read_only: 0,
        err_msg: "default"@,
    }
}

/// The registration result at `at`: a connection id, a success byte and a
/// read-only byte; all that follows, to the end of the datagram, is the
/// error message and must be well-formed UTF-8.
pub open spec fn take_registration_result(s: Seq<u8>, at: int) -> Option<
    (RegistrationResultView, int),
> {
    if has_bytes(s, at, 6) && valid_utf8(s.subrange(at + 6, s.len() as int)) {
        Some(
            (
                RegistrationResultView {
                    connection_id: i32_at(s, at),
                    connection_success: s[at + 4],
                    is_read_only: s[at + 5],
                    err_msg: decode_utf8(s.subrange(at + 6, s.len() as int)),
                },
                s.len() as int,
            ),
        )
    } else {
        None
    }
}

impl ACCDRegistrationResult {
    /// Decodes a registration result at the cursor.
    pub fn new(cur: &mut ByteCursor) -> (r: Result<ACCDRegistrationResult, ProtocolError>)
        ensures
            reads(
                *old(cur),
                *final(cur),
                r,
                take_registration_result(old(cur).data@, old(cur).pos as int),
            ),
    {
        let mut c = *cur;
        let connection_id: i32 = c.read_i32()?;
        let connection_success: u8 = c.read_u8()?;
        let is_read_only: u8 = c.read_u8()?;
        let end: usize = c.data.len();
        let rest = slice_to_vec(slice_subrange(c.data.as_slice(), c.pos, end));
        let err_msg = string_from_bytes(rest)?;
        c.pos = end;
        *cur = c;
        Ok(ACCDRegistrationResult { connection_id, connection_success, is_read_only, err_msg })
    }
}

impl Clone for ACCDRegistrationResult {
    fn clone(&self) -> (copy: Self)
        ensures
            copy@ == self@,
    {
        ACCDRegistrationResult {
            connection_id: self.connection_id,
            connection_success: self.connection_success,
            is_read_only: self.is_read_only,
            err_msg: self.err_msg.clone(),
        }
    }
}

impl Default for ACCDRegistrationResult {
    fn default() -> (result: Self)
        ensures
            result@ == default_registration_result(),
    {
        ACCDRegistrationResult {
            connection_id: -1,
            connection_success: 0,
            is_read_only: 0,
            err_msg: "default".to_owned(),
        }
    }
}

} // verus!
