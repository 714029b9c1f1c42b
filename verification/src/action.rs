//! Physical steps the transport asks its driver to perform.
//!
//! Every timing-sensitive sequence of this layer — wake, sleep, the echo
//! discard after an SWI send, the command write before an I2C read — is
//! published as a list of these actions.  The embedding program executes
//! them in order against the real port; the contracts on the functions
//! that build the lists pin down exactly which steps occur and in which
//! order.

use vstd::prelude::*;

verus! {

/// One physical step, to be performed in list order.
#[derive(Debug, PartialEq, Eq)]
pub enum Action {
    /// Write these bytes to the serial line.
    SerialWrite(Vec<u8>),
    /// Reconfigure the serial line to this baud rate.  A failure here is
    /// a timeout fault: the wake pulse depends on the changed rate.
    SetBaudRate(u32),
    /// Block for this many microseconds.
    SleepMicros(u64),
    /// Discard all buffered serial data, in both directions.
    ClearSerialBuffers,
    /// Read back and throw away exactly this many bytes: the echo of a
    /// transmission on the shared transmit/receive line.
    DiscardEcho(usize),
    /// One I2C write transaction of these bytes to this slave address.
    I2cWrite(u16, Vec<u8>),
}

} // verus!
