use vstd::prelude::*;

verus! {

/// The two ways an operation of this library can fail.
#[derive(Clone, Copy, Debug, PartialEq, Eq, Structural)]
pub enum Error {
    /// The terminal's default colour has no palette index.
    InvalidOperation,
    /// A column or row index lies outside the buffer's shape.
    IndexOutOfBounds,
}

} // verus!
