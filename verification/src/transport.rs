//! The protocol-tagged façade: medium selection and the per-protocol
//! wake, sleep and command-write sequences.
//!
//! A transport is opened from a device path: a path that names a serial
//! device selects the UART-emulated single wire interface, any other
//! path selects I2C.  The tag is fixed for the transport's lifetime and
//! decides which sequence every lifecycle operation expands to.

use vstd::prelude::*;

use crate::action::Action;
use crate::i2c::{I2C_SLEEP_OPCODE, I2C_WAKE_ADDRESS};
use crate::swi::{swi_sleep_actions, swi_wake_actions};

verus! {

/// The physical medium a transport was opened on.
#[derive(Clone, Copy, Debug, PartialEq, Eq, Structural)]
pub enum TransportProtocol {
    I2c,
    Swi,
}

/// The byte string that marks a path as a serial device: `/dev/tty`.
pub open spec fn serial_path_marker() -> Seq<u8> {
    seq![0x2Fu8, 0x64u8, 0x65u8, 0x76u8, 0x2Fu8, 0x74u8, 0x74u8, 0x79u8]
}

/// Whether `path` contains the serial-device marker anywhere.
pub open spec fn has_serial_marker(path: Seq<u8>) -> bool {
    exists|i: int|
        0 <= i && i + 8 <= path.len() && #[trigger] path.subrange(i, i + 8)
            == serial_path_marker()
}

/// Whether the serial-device marker starts at position `i` of `path`.
fn marker_at(path: &Vec<u8>, i: usize) -> (r: bool)
    requires
        i + 8 <= path@.len(),
    ensures
        r <==> path@.subrange(i as int, i as int + 8) == serial_path_marker(),
{
    let n = path.len();
    proof {
        assert(i + 8 <= n);
    }
    let hit = path[i] == 0x2F && path[i + 1] == 0x64 && path[i + 2] == 0x65 && path[i + 3] == 0x76
        && path[i + 4] == 0x2F && path[i + 5] == 0x74 && path[i + 6] == 0x74 && path[i + 7]
        == 0x79;
    proof {
        let sub = path@.subrange(i as int, i as int + 8);
        if hit {
            assert(sub =~= serial_path_marker());
        } else {
            assert(sub != serial_path_marker()) by {
                if sub == serial_path_marker() {
                    assert(path@[i as int] == 0x2F && path@[i + 1] == 0x64 && path@[i + 2] == 0x65
                        && path@[i + 3] == 0x76 && path@[i + 4] == 0x2F && path@[i + 5] == 0x74
                        && path@[i + 6] == 0x74 && path@[i + 7] == 0x79) by {
                        assert(sub[0] == path@[i as int]);
                        assert(sub[1] == path@[i + 1]);
                        assert(sub[2] == path@[i + 2]);
                        assert(sub[3] == path@[i + 3]);
                        assert(sub[4] == path@[i + 4]);
                        assert(sub[5] == path@[i + 5]);
                        assert(sub[6] == path@[i + 6]);
                        assert(sub[7] == path@[i + 7]);
                    }
                }
            }
        }
    }
    hit
}

/// The medium a device path selects: a path that names a serial device
/// (it contains `/dev/tty`) selects the single wire interface, any other
/// path selects I2C.  The path is taken as its raw bytes; the marker is
/// plain ASCII, so this agrees with a textual reading of the path.
pub fn protocol_for_path(path: &Vec<u8>) -> (p: TransportProtocol)
    ensures
        p == TransportProtocol::Swi <==> has_serial_marker(path@),
        p == TransportProtocol::I2c <==> !has_serial_marker(path@),
{
    let n = path.len();
    if n < 8 {
        proof {
            assert(!has_serial_marker(path@));
        }
        return TransportProtocol::I2c;
    }
    let mut i: usize = 0;
    while i <= n - 8
        invariant
            8 <= n == path@.len(),
            i <= n - 8 + 1,
            forall|k: int|
                0 <= k < i ==> #[trigger] path@.subrange(k, k + 8) != serial_path_marker(),
        decreases n - i,
    {
        if marker_at(path, i) {
            proof {
                assert(has_serial_marker(path@));
            }
            return TransportProtocol::Swi;
        }
        i += 1;
    }
    proof {
        assert(!has_serial_marker(path@)) by {
            if has_serial_marker(path@) {
                let w = choose|k: int|
                    0 <= k && k + 8 <= path@.len() && #[trigger] path@.subrange(k, k + 8)
                        == serial_path_marker();
                assert(w < i);
            }
        }
    }
    TransportProtocol::I2c
}

/// The wake sequence for the active medium.  Over I2C the wake is one
/// zero byte written to the bus-wide wake address, errors ignored.  Over
/// the single wire the line itself is the signal: see
/// [`swi_wake_actions`] for the five steps.
pub fn wake_plan(protocol: TransportProtocol) -> (p: Vec<Action>)
    ensures
        protocol == TransportProtocol::I2c ==> p@.len() == 1 && (p@[0] matches Action::I2cWrite(
            a,
            d,
        ) && a == I2C_WAKE_ADDRESS && d@ == seq![0u8]),
        protocol == TransportProtocol::Swi ==> {
            &&& p@.len() == 5
            &&& p@[0] == Action::SetBaudRate(crate::swi::SWI_WAKE_BAUD_RATE)
            &&& (p@[1] matches Action::SerialWrite(d) && d@ == seq![0u8])
            &&& p@[2] == Action::SleepMicros(crate::swi::SWI_WAKE_DELAY_MICROS)
            &&& p@[3] == Action::SetBaudRate(crate::swi::SWI_DATA_BAUD_RATE)
            &&& p@[4] == Action::ClearSerialBuffers
        },
{
    match protocol {
        TransportProtocol::I2c => {
            let mut zero: Vec<u8> = Vec::new();
            zero.push(0u8);
            proof {
                assert(zero@ =~= seq![0u8]);
            }
            let mut p: Vec<Action> = Vec::new();
            p.push(Action::I2cWrite(I2C_WAKE_ADDRESS, zero));
            p
        },
        TransportProtocol::Swi => swi_wake_actions(),
    }
}

/// The sleep sequence for the active medium, best effort on both.  Over
/// I2C it is the one-byte sleep opcode written to the device address;
/// over the single wire it is the encoded sleep marker and a short
/// drain: see [`swi_sleep_actions`].
pub fn sleep_plan(protocol: TransportProtocol, i2c_address: u16) -> (p: Vec<Action>)
    ensures
        protocol == TransportProtocol::I2c ==> p@.len() == 1 && (p@[0] matches Action::I2cWrite(
            a,
            d,
        ) && a == i2c_address && d@ == seq![I2C_SLEEP_OPCODE]),
        protocol == TransportProtocol::Swi ==> {
            &&& p@.len() == 2
            &&& (p@[0] matches Action::SerialWrite(d) && d@ == crate::codec::encode_spec(
                seq![crate::swi::SWI_SLEEP_FLAG],
            ))
            &&& p@[1] == Action::SleepMicros(crate::swi::SWI_SLEEP_SETTLE_MICROS)
        },
{
    match protocol {
        TransportProtocol::I2c => {
            let mut op: Vec<u8> = Vec::new();
            op.push(I2C_SLEEP_OPCODE);
            proof {
                assert(op@ =~= seq![I2C_SLEEP_OPCODE]);
            }
            let mut p: Vec<Action> = Vec::new();
            p.push(Action::I2cWrite(i2c_address, op));
            p
        },
        TransportProtocol::Swi => swi_sleep_actions(),
    }
}

/// The I2C half of a command exchange: write the whole command to the
/// device in one transaction, then hold for the caller-supplied
/// execution delay before the length-prefixed read begins.
pub fn i2c_send_plan(i2c_address: u16, command: &Vec<u8>, delay_micros: u64) -> (p: Vec<Action>)
    ensures
        p@.len() == 2,
        (p@[0] matches Action::I2cWrite(a, d) && a == i2c_address && d@ == command@),
        p@[1] == Action::SleepMicros(delay_micros),
{
    let mut p: Vec<Action> = Vec::new();
    p.push(Action::I2cWrite(i2c_address, command.clone()));
    p.push(Action::SleepMicros(delay_micros));
    p
}

} // verus!
