//! Categorical values that several messages share.

use vstd::prelude::*;

verus! {

/// The country that a driver or a team races for.
#[derive(Clone, Copy, Debug, PartialEq, Eq, Structural)]
pub enum NationalityEnum {
    /// The country code as the message gave it.
    Country(u16),
    /// No message has told the country yet.
    Unknown,
}

} // verus!
