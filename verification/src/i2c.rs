//! The I2C byte transport: a length-prefixed read with bounded retries.
//!
//! A command is a single write transaction to the slave address.  The
//! response is read in two steps: a one-byte probe of the length prefix,
//! retried a fixed number of times with a fixed pause, and then a read of
//! the remaining bytes in the same logical transaction (the start
//! condition suppressed, as this chip family requires).  The first byte
//! declares the total response length, itself included; the sentinel
//! value `0xFF`, still in place once the retries are spent, means the
//! device never answered.
//!
//! [`I2cReceive`] is that protocol with the bus calls taken out: the
//! driver performs each read and feeds the outcome in, and the machine
//! decides what follows.

use vstd::prelude::*;


verus! {

/// Number of one-byte probe attempts before the receive gives up.
pub const RECV_RETRIES: u8 = 2;
/// Pause between retry attempts, in milliseconds.
pub const RECV_RETRY_WAIT_MS: u64 = 50;
/// Length-prefix value that means "no response"; also the probe's
/// starting value, so a device that never answers leaves it in place.
pub const I2C_LENGTH_SENTINEL: u8 = 0xFF;
/// Bus-wide address the one-byte wake pulse is written to.
pub const I2C_WAKE_ADDRESS: u16 = 0;
/// One-byte opcode that puts the device to sleep.
pub const I2C_SLEEP_OPCODE: u8 = 0x01;

/// Where a receive stands.
#[derive(Clone, Copy, Debug, PartialEq, Eq, Structural)]
pub enum I2cRecvPhase {
    /// Probing for the length prefix.
    Probing,
    /// The prefix is in hand; the rest of the response is owed.
    ReadingRemainder,
    /// The probe was spent without a usable prefix.
    TimedOut,
    /// The response has been assembled.
    Complete,
}

/// What the driver must do next.
#[derive(Clone, Copy, Debug, PartialEq, Eq, Structural)]
pub enum I2cRecvAction {
    /// Pause for [`RECV_RETRY_WAIT_MS`], then probe again.
    WaitThenProbe,
    /// Read this many further bytes in the same transaction, with the
    /// start condition suppressed.
    ReadRemainder(usize),
    /// Give up: the receive is a timeout fault.
    Fail,
}

/// The length-prefixed receive protocol, one probe outcome at a time.
pub struct I2cReceive {
    /// Where the receive stands.
    pub phase: I2cRecvPhase,
    /// The working byte the probe reads into: the sentinel until a read
    /// lands something else.
    pub first: u8,
    /// Probe attempts consumed so far.
    pub attempts: u8,
}

impl I2cReceive {
    /// How many bytes follow the length prefix `first`: the prefix counts
    /// itself, and a zero prefix declares an empty response.
    pub open spec fn spec_remainder_len(first: u8) -> int {
        if first == 0 {
            0
        } else {
            first - 1
        }
    }

    /// The machine never over-counts attempts, and only a usable prefix
    /// reaches the remainder read.
    pub open spec fn wf(self) -> bool {
        &&& self.attempts <= RECV_RETRIES
        &&& (self.phase == I2cRecvPhase::ReadingRemainder ==> self.first != I2C_LENGTH_SENTINEL)
    }

    /// One probe step as a mathematical transition: the machine after
    /// the outcome, and the action it answers with.  A landed read
    /// settles the probe at once; a failed read leaves the working byte
    /// as it was and retries until the attempts are spent; a settled
    /// sentinel is a timeout, any other settled byte is the response
    /// length.
    pub open spec fn spec_note_probe(m: I2cReceive, outcome: Option<u8>) -> (
        I2cReceive,
        I2cRecvAction,
    ) {
        let first = match outcome {
            Some(b) => b,
            None => m.first,
        };
        let attempts = (m.attempts + 1) as u8;
        let settled = match outcome {
            Some(_) => true,
            None => attempts >= RECV_RETRIES,
        };
        if !settled {
            (
                I2cReceive { phase: m.phase, first, attempts },
                I2cRecvAction::WaitThenProbe,
            )
        } else if first == I2C_LENGTH_SENTINEL {
            (
                I2cReceive { phase: I2cRecvPhase::TimedOut, first, attempts },
                I2cRecvAction::Fail,
            )
        } else {
            (
                I2cReceive { phase: I2cRecvPhase::ReadingRemainder, first, attempts },
                I2cRecvAction::ReadRemainder(Self::spec_remainder_len(first) as usize),
            )
        }
    }

    /// Begin a receive: the working byte holds the sentinel.
    pub fn new() -> (r: Self)
        ensures
            r.phase == I2cRecvPhase::Probing,
            r.first == I2C_LENGTH_SENTINEL,
            r.attempts == 0,
            r.wf(),
    {
        I2cReceive { phase: I2cRecvPhase::Probing, first: I2C_LENGTH_SENTINEL, attempts: 0 }
    }

    /// Feed the outcome of one one-byte probe: `None` for a failed
    /// transfer (swallowed, the loop retries), `Some(b)` for a read that
    /// landed `b` in the working byte.
    ///
    /// A landed read settles the probe at once: the sentinel is a
    /// timeout, anything else is the response length.  A failed read
    /// leaves the working byte as it was and retries until the attempts
    /// are spent; a sentinel still in place then is a timeout, so a
    /// device that never answers mutates nothing beyond this one working
    /// byte.
    pub fn note_probe(&mut self, outcome: Option<u8>) -> (a: I2cRecvAction)
        requires
            old(self).wf(),
            old(self).phase == I2cRecvPhase::Probing,
            old(self).attempts < RECV_RETRIES,
        ensures
            final(self).wf(),
            final(self).attempts == old(self).attempts + 1,
            *final(self) == Self::spec_note_probe(*old(self), outcome).0,
            a == Self::spec_note_probe(*old(self), outcome).1,
    {
        self.attempts = self.attempts + 1;
        match outcome {
            Some(b) => {
                self.first = b;
            },
            None => {},
        }
        let settled = match outcome {
            Some(_) => true,
            None => self.attempts >= RECV_RETRIES,
        };
        if !settled {
            I2cRecvAction::WaitThenProbe
        } else if self.first == I2C_LENGTH_SENTINEL {
            self.phase = I2cRecvPhase::TimedOut;
            I2cRecvAction::Fail
        } else {
            self.phase = I2cRecvPhase::ReadingRemainder;
            let rest: usize = if self.first == 0 {
                0
            } else {
                (self.first - 1) as usize
            };
            I2cRecvAction::ReadRemainder(rest)
        }
    }

    /// A sentinel that persists cannot become a response.  While the
    /// machine is probing with the sentinel in its working byte, a step
    /// whose outcome is a failed transfer or a read of the sentinel
    /// keeps the sentinel there and either keeps probing or ends the
    /// receive as a timeout: it never asks for the remainder read, so no
    /// response buffer is ever assembled.  Chained from
    /// [`I2cReceive::new`], whose working byte is the sentinel, this
    /// holds across every retry the probe is allowed.
    pub proof fn lemma_sentinel_persists(m: I2cReceive, outcome: Option<u8>)
        requires
            m.phase == I2cRecvPhase::Probing,
            m.first == I2C_LENGTH_SENTINEL,
            outcome is None || outcome == Some(I2C_LENGTH_SENTINEL),
        ensures
            ({
                let (m2, a) = Self::spec_note_probe(m, outcome);
                &&& m2.first == I2C_LENGTH_SENTINEL
                &&& !(a matches I2cRecvAction::ReadRemainder(_))
                &&& m2.phase != I2cRecvPhase::ReadingRemainder
                &&& m2.phase != I2cRecvPhase::Complete
                &&& (a == I2cRecvAction::Fail ==> m2.phase == I2cRecvPhase::TimedOut)
            }),
    {
    }

    /// Supply the remainder that was read in the same transaction.  The
    /// assembled response keeps the length prefix at position 0 and has
    /// exactly the declared length.
    pub fn supply_remainder(&mut self, rest: &Vec<u8>) -> (out: Vec<u8>)
        requires
            old(self).wf(),
            old(self).phase == I2cRecvPhase::ReadingRemainder,
            rest@.len() == Self::spec_remainder_len(old(self).first),
        ensures
            final(self).wf(),
            final(self).phase == I2cRecvPhase::Complete,
            final(self).first == old(self).first,
            final(self).attempts == old(self).attempts,
            out@.len() == old(self).first as int,
            old(self).first != 0 ==> out@ == seq![old(self).first] + rest@,
            old(self).first == 0 ==> out@ == Seq::<u8>::empty(),
    {
        let mut out: Vec<u8> = Vec::new();
        if self.first != 0 {
            out.push(self.first);
            let mut i: usize = 0;
            while i < rest.len()
                invariant
                    i <= rest@.len(),
                    out@ =~= seq![self.first].add(rest@.take(i as int)),
                decreases rest@.len() - i,
            {
                out.push(rest[i]);
                i += 1;
            }
            proof {
                assert(out@ =~= seq![self.first].add(rest@));
            }
        }
        self.phase = I2cRecvPhase::Complete;
        out
    }
}

} // verus!
