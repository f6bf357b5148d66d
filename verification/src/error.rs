use vstd::prelude::*;

verus! {

/// The closed set of error kinds the library raises. A failing operation
/// aborts and propagates its error to the caller; no partial or best-effort
/// result is ever returned on failure.
#[derive(Debug, Clone, PartialEq, Eq, Structural)]
pub enum I2Error {
    /// A (type code, byte size) pair outside the compatibility table.
    /// Carries the offending pair for diagnostics.
    UnrecognizedDatatype { _type: u16, size: u16 },
}

pub type I2Result<T> = Result<T, I2Error>;

} // verus!
