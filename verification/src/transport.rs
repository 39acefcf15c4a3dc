//! The two-wire bus capability the driver is generic over.

use vstd::prelude::*;

verus! {

/// An addressed byte-exchange capability for one two-wire bus.
///
/// Every transaction of this chip is one register-select byte optionally
/// followed by two data bytes (writes), or followed by a read of two data
/// bytes (reads), so the capability is stated in exactly those shapes. The
/// transport is the sole source of communication failures, and the driver
/// assumes nothing about the bytes a read returns: any implementation — a
/// hardware bus behind a blocking or suspending adapter, or a scripted test
/// double — satisfies the driver's contracts.
pub trait BusTransport {
    /// The transport's own failure type (NACK, bus timeout, arbitration
    /// loss, ...); opaque to the driver and passed through unchanged.
    type BusError;

    /// Writes a three-byte frame (register-select byte followed by two
    /// big-endian data bytes) to the device at `address`.
    fn write(&mut self, address: u8, frame: &[u8; 3]) -> Result<(), Self::BusError>;

    /// Writes the one-byte register selection to the device at `address`,
    /// then reads the selected register's two big-endian data bytes.
    fn write_then_read(&mut self, address: u8, reg_select: &[u8; 1]) -> Result<
        [u8; 2],
        Self::BusError,
    >;

    /// Called between two consecutive busy polls, so an implementation can
    /// sleep, yield to other work, or return at once instead of hogging
    /// the bus in a tight loop.
    fn pause(&mut self);
}

} // verus!
