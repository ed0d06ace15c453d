//! The platform-defined error type.

use vstd::prelude::*;

verus! {

/// A platform-defined error carried by capability operations.
#[derive(Clone, Copy, Debug, PartialEq, Eq, Structural)]
pub enum X8664Error {
    /// A firmware call failed; the payload is the raw status it returned.
    UEFIError(usize),
}

} // verus!
