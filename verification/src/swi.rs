//! The SWI byte transport: send with echo cancellation, poll-based
//! receive, and frame interpretation.
//!
//! The single wire is half duplex and the transmit and receive lines are
//! physically tied, so every transmitted byte echoes straight back into
//! the receive buffer and must be read off and discarded.  The chip also
//! cannot push data unsolicited: a receive first transmits an encoded
//! transmit-request marker, waits for the line to settle, and reads.  A
//! read that returns only the request's own echo means the chip has not
//! answered yet; a clearly larger read is a real frame.  The frame,
//! decoded, carries a transmit flag byte to discard and then a declared
//! length, which the response is cut to.

use vstd::prelude::*;

use crate::action::Action;
use crate::codec::{decode, decode_spec, encode, encode_spec};
use crate::error::Error;
use crate::i2c::RECV_RETRIES;

verus! {

/// Largest encoded frame the transport will read, in wire bytes.  Eight
/// times the largest logical frame, to absorb the codec's expansion.
pub const ATCA_SWI_CMD_SIZE_MAX: u16 = 1208;
/// Marker byte asking the chip to transmit its response.
pub const SWI_TRANSMIT_FLAG: u8 = 0x88;
/// Marker byte that puts the chip to sleep.
pub const SWI_SLEEP_FLAG: u8 = 0xCC;
/// Settle time between writing the transmit request and reading, in
/// microseconds.
pub const SWI_POLL_SETTLE_MICROS: u64 = 40_000;
/// Pause after writing the encoded sleep marker, in microseconds.
pub const SWI_SLEEP_SETTLE_MICROS: u64 = 300;
/// Time one wire byte takes to leave the UART, in microseconds.
pub const SWI_TX_MICROS_PER_BYTE: u64 = 45;
/// A read of exactly this many wire bytes is the transmit request's own
/// echo and nothing else: one encoded marker byte.
pub const SWI_ECHO_ONLY_COUNT: usize = 8;
/// A read must exceed this many wire bytes — about twice the echo — to
/// count as a real response frame.
pub const SWI_RESPONSE_OVER_COUNT: usize = 16;
/// Baud rate the line runs at for data.
pub const SWI_DATA_BAUD_RATE: u32 = 230_400;
/// Lowered baud rate under which a zero byte stretches into the wake
/// pulse.
pub const SWI_WAKE_BAUD_RATE: u32 = 115_200;
/// Width of the wake pulse, in microseconds.
pub const SWI_WAKE_DELAY_MICROS: u64 = 1300;

/// What the driver must do after one poll read.
#[derive(Clone, Copy, Debug, PartialEq, Eq, Structural)]
pub enum SwiPollAction {
    /// Only the request's own echo came back: pause for
    /// [`crate::i2c::RECV_RETRY_WAIT_MS`], then poll again.
    WaitThenPoll,
    /// An inconclusive count: poll again at once.
    PollAgain,
    /// A real frame arrived: stop polling and interpret it.
    Accept,
    /// The polls are spent without a frame: the receive is a timeout
    /// fault.
    Fail,
}

/// The transmit-request poll, one read count at a time.
pub struct SwiPoll {
    /// Poll attempts consumed so far.
    pub attempts: u8,
}

impl SwiPoll {
    /// Begin a receive poll.
    pub fn new() -> (r: Self)
        ensures
            r.attempts == 0,
    {
        SwiPoll { attempts: 0 }
    }

    /// Feed the byte count one poll read returned (a failed read counts
    /// as zero bytes).  A count over [`SWI_RESPONSE_OVER_COUNT`] is a
    /// frame; anything else retries until the attempts are spent.
    pub fn note_read(&mut self, count: usize) -> (a: SwiPollAction)
        requires
            old(self).attempts < RECV_RETRIES,
        ensures
            final(self).attempts == old(self).attempts + 1,
            count > SWI_RESPONSE_OVER_COUNT ==> a == SwiPollAction::Accept,
            count <= SWI_RESPONSE_OVER_COUNT && old(self).attempts + 1 >= RECV_RETRIES ==> a
                == SwiPollAction::Fail,
            count == SWI_ECHO_ONLY_COUNT && old(self).attempts + 1 < RECV_RETRIES ==> a
                == SwiPollAction::WaitThenPoll,
            count <= SWI_RESPONSE_OVER_COUNT && count != SWI_ECHO_ONLY_COUNT && old(self).attempts
                + 1 < RECV_RETRIES ==> a == SwiPollAction::PollAgain,
    {
        self.attempts = self.attempts + 1;
        if count > SWI_RESPONSE_OVER_COUNT {
            SwiPollAction::Accept
        } else if self.attempts >= RECV_RETRIES {
            SwiPollAction::Fail
        } else if count == SWI_ECHO_ONLY_COUNT {
            SwiPollAction::WaitThenPoll
        } else {
            SwiPollAction::PollAgain
        }
    }
}

/// The encoded transmit-request marker written before every poll read.
pub fn transmit_request() -> (r: Vec<u8>)
    ensures
        r@ == encode_spec(seq![SWI_TRANSMIT_FLAG]),
{
    let mut flag: Vec<u8> = Vec::new();
    flag.push(SWI_TRANSMIT_FLAG);
    proof {
        assert(flag@ =~= seq![SWI_TRANSMIT_FLAG]);
    }
    encode(&flag)
}

/// The steps owed after `written` bytes of an `sent_len`-byte encoded
/// buffer were handed to the port: wait out the transmission — each wire
/// byte takes [`SWI_TX_MICROS_PER_BYTE`] — then read back and discard
/// the echo, exactly as many bytes as were written.
pub fn send_follow_up(sent_len: usize, written: usize) -> (p: Vec<Action>)
    requires
        sent_len * SWI_TX_MICROS_PER_BYTE <= u64::MAX,
    ensures
        p@.len() == 2,
        (p@[0] matches Action::SleepMicros(m) && m == sent_len * SWI_TX_MICROS_PER_BYTE),
        p@[1] == Action::DiscardEcho(written),
{
    let micros: u64 = (sent_len as u64) * SWI_TX_MICROS_PER_BYTE;
    let mut p: Vec<Action> = Vec::new();
    p.push(Action::SleepMicros(micros));
    p.push(Action::DiscardEcho(written));
    p
}

/// The steps that put the chip to sleep over the wire: write the encoded
/// sleep marker, then let it drain.  Best effort — the driver ignores
/// failures.
pub fn swi_sleep_actions() -> (p: Vec<Action>)
    ensures
        p@.len() == 2,
        (p@[0] matches Action::SerialWrite(d) && d@ == encode_spec(seq![SWI_SLEEP_FLAG])),
        p@[1] == Action::SleepMicros(SWI_SLEEP_SETTLE_MICROS),
{
    let mut msg: Vec<u8> = Vec::new();
    msg.push(SWI_SLEEP_FLAG);
    proof {
        assert(msg@ =~= seq![SWI_SLEEP_FLAG]);
    }
    let encoded = encode(&msg);
    let mut p: Vec<Action> = Vec::new();
    p.push(Action::SerialWrite(encoded));
    p.push(Action::SleepMicros(SWI_SLEEP_SETTLE_MICROS));
    p
}

/// The wake sequence: drop the baud rate so that one zero byte stretches
/// into the wake pulse, write it, hold for the pulse width, restore the
/// data rate, and flush everything the pulse left in the buffers —
/// exactly these five steps, in exactly this order.
pub fn swi_wake_actions() -> (p: Vec<Action>)
    ensures
        p@.len() == 5,
        p@[0] == Action::SetBaudRate(SWI_WAKE_BAUD_RATE),
        (p@[1] matches Action::SerialWrite(d) && d@ == seq![0u8]),
        p@[2] == Action::SleepMicros(SWI_WAKE_DELAY_MICROS),
        p@[3] == Action::SetBaudRate(SWI_DATA_BAUD_RATE),
        p@[4] == Action::ClearSerialBuffers,
{
    let mut zero: Vec<u8> = Vec::new();
    zero.push(0u8);
    proof {
        assert(zero@ =~= seq![0u8]);
    }
    let mut p: Vec<Action> = Vec::new();
    p.push(Action::SetBaudRate(SWI_WAKE_BAUD_RATE));
    p.push(Action::SerialWrite(zero));
    p.push(Action::SleepMicros(SWI_WAKE_DELAY_MICROS));
    p.push(Action::SetBaudRate(SWI_DATA_BAUD_RATE));
    p.push(Action::ClearSerialBuffers);
    p
}

/// Interpret an accepted encoded frame.
///
/// The frame decodes to a transmit flag byte, a declared length, and the
/// payload; the response is the decoded bytes from the declared length
/// onward, cut to that length, so the length byte stays at position 0 of
/// the result.  A declared length larger than the largest logical frame
/// ([`ATCA_SWI_CMD_SIZE_MAX`] over the codec's expansion), or larger
/// than what the frame itself carries, cannot be a real response and is
/// a timeout fault.
pub fn interpret_frame(encoded: &Vec<u8>) -> (r: Result<Vec<u8>, Error>)
    requires
        encoded@.len() % 8 == 0,
        encoded@.len() >= 16,
    ensures
        ({
            let d = decode_spec(encoded@);
            match r {
                Ok(buf) => {
                    &&& d[1] as int <= ATCA_SWI_CMD_SIZE_MAX as int / 8
                    &&& 1 + d[1] as int <= d.len()
                    &&& buf@ == d.subrange(1, 1 + d[1] as int)
                },
                Err(e) => {
                    &&& e == Error::Timeout
                    &&& (d[1] as int > ATCA_SWI_CMD_SIZE_MAX as int / 8 || 1 + d[1] as int
                        > d.len())
                },
            }
        }),
{
    let decoded = decode(encoded);
    let msg_size = decoded[1];
    if msg_size as u16 > ATCA_SWI_CMD_SIZE_MAX / 8 {
        return Err(Error::Timeout);
    }
    if decoded.len() - 1 < msg_size as usize {
        return Err(Error::Timeout);
    }
    let mut out: Vec<u8> = Vec::new();
    let mut i: usize = 1;
    let end: usize = 1 + msg_size as usize;
    while i < end
        invariant
            1 <= i <= end,
            end == 1 + msg_size as int,
            end <= decoded@.len(),
            msg_size == decode_spec(encoded@)[1],
            decoded@ == decode_spec(encoded@),
            out@ =~= decode_spec(encoded@).subrange(1, i as int),
        decreases end - i,
    {
        out.push(decoded[i]);
        proof {
            assert(out@ =~= decode_spec(encoded@).subrange(1, i + 1));
        }
        i += 1;
    }
    proof {
        assert(out@ =~= decode_spec(encoded@).subrange(1, 1 + msg_size as int));
    }
    Ok(out)
}

} // verus!
