//! The driver's error taxonomy.

use vstd::prelude::*;

verus! {

/// Everything that can go wrong while talking to the converter. `E` is the
/// bus transport's own failure type, passed through unchanged.
#[derive(Debug)]
pub enum ADSError<E> {
    /// A register read produced bits on which some field decodes to no
    /// enumerated value: a desynchronized or incompatible device. Treated
    /// as unrecoverable for that read.
    ConfigConversionError,
    /// The device address does not match the chip family's fixed upper
    /// address bits; raised at session-open time, before any bus activity.
    WrongAddress,
    /// The device still reported a conversion in progress after the
    /// caller's polling budget was spent.
    Timeout,
    /// A bus transport failure (NACK, bus timeout, arbitration loss, ...),
    /// wrapped unchanged.
    I2C(E),
}

impl<E> ADSError<E> {
    /// A short description of the error kind.
    pub fn message(&self) -> (r: &'static str)
        ensures
            self is ConfigConversionError ==> r@ == "failed to convert config"@,
            self is WrongAddress ==> r@ == "invalid device address"@,
            self is Timeout ==> r@ == "conversion poll timed out"@,
            self is I2C ==> r@ == "bus communication error"@,
    {
        match self {
            ADSError::ConfigConversionError => "failed to convert config",
            ADSError::WrongAddress => "invalid device address",
            ADSError::Timeout => "conversion poll timed out",
            ADSError::I2C(_) => "bus communication error",
        }
    }
}

} // verus!
