//! The two failure kinds the transport layer can raise.

use vstd::prelude::*;

verus! {

/// A transport-level fault.
///
/// `Timeout` covers every way the device can fail to answer in time: an
/// exhausted I2C length probe, an exhausted SWI poll, a declared response
/// length that cannot be a real frame, and a failed baud-rate change
/// during the wake pulse.  `BusError` covers lower-level transfer
/// failures that are not retried at this layer.
#[derive(Clone, Copy, Debug, PartialEq, Eq, Structural)]
pub enum Error {
    Timeout,
    BusError,
}

impl Error {
    /// The fault raised when the device never produced a usable answer.
    pub fn timeout() -> (r: Error)
        ensures
            r == Error::Timeout,
    {
        Error::Timeout
    }
}

} // verus!
