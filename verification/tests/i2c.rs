use ecc_transport::action::Action;
use ecc_transport::error::Error;
use ecc_transport::i2c::{I2cReceive, I2cRecvAction, I2cRecvPhase, I2C_LENGTH_SENTINEL};
use ecc_transport::transport::i2c_send_plan;

#[test]
fn probe_success_declares_remainder() {
    // A first byte of n (not the sentinel) leads to a read of n - 1 more
    // bytes and a response of exactly n bytes.
    let mut m = I2cReceive::new();
    let a = m.note_probe(Some(0x07));
    assert_eq!(a, I2cRecvAction::ReadRemainder(6));
    let out = m.supply_remainder(&vec![0x11, 0x22, 0x33, 0x44, 0x55, 0x66]);
    assert_eq!(out.len(), 7);
    assert_eq!(out, vec![0x07, 0x11, 0x22, 0x33, 0x44, 0x55, 0x66]);
    assert_eq!(m.phase, I2cRecvPhase::Complete);
}

#[test]
fn probe_sentinel_is_timeout() {
    // A read that lands the sentinel settles the probe at once: timeout.
    let mut m = I2cReceive::new();
    let a = m.note_probe(Some(0xFF));
    assert_eq!(a, I2cRecvAction::Fail);
    assert_eq!(m.phase, I2cRecvPhase::TimedOut);
}

#[test]
fn probe_exhaustion_keeps_sentinel() {
    // Failed transfers are swallowed and retried; once the attempts are
    // spent the sentinel is still in the working byte and nothing else
    // was touched.
    let mut m = I2cReceive::new();
    let a = m.note_probe(None);
    assert_eq!(a, I2cRecvAction::WaitThenProbe);
    assert_eq!(m.first, I2C_LENGTH_SENTINEL);
    let a = m.note_probe(None);
    assert_eq!(a, I2cRecvAction::Fail);
    assert_eq!(m.first, I2C_LENGTH_SENTINEL);
    assert_eq!(m.phase, I2cRecvPhase::TimedOut);
}

#[test]
fn zero_length_prefix_gives_empty_response() {
    let mut m = I2cReceive::new();
    let a = m.note_probe(Some(0x00));
    assert_eq!(a, I2cRecvAction::ReadRemainder(0));
    let out = m.supply_remainder(&vec![]);
    assert_eq!(out, Vec::<u8>::new());
}

#[test]
fn minimal_length_prefix() {
    let mut m = I2cReceive::new();
    let a = m.note_probe(Some(0x01));
    assert_eq!(a, I2cRecvAction::ReadRemainder(0));
    let out = m.supply_remainder(&vec![]);
    assert_eq!(out, vec![0x01]);
}

#[test]
fn scenario_happy_path() {
    // An info command goes out to slave 0x60; the device answers with a
    // length byte of 0x07 and six payload bytes; the response is those
    // seven bytes, the length byte first.
    let command = vec![0x03, 0x30, 0x00, 0x00];
    let plan = i2c_send_plan(0x60, &command, 5_000);
    assert_eq!(plan.len(), 2);
    assert_eq!(plan[0], Action::I2cWrite(0x60, command.clone()));
    assert_eq!(plan[1], Action::SleepMicros(5_000));

    let mut m = I2cReceive::new();
    let a = m.note_probe(Some(0x07));
    assert_eq!(a, I2cRecvAction::ReadRemainder(6));
    let payload = vec![0x11, 0x22, 0x33, 0x44, 0x2E, 0x7D];
    let response = m.supply_remainder(&payload);
    assert_eq!(response.len(), 7);
    assert_eq!(response[0], 0x07);
    assert_eq!(&response[1..], &payload[..]);
}

#[test]
fn scenario_timeout_leaves_command_alone() {
    // The device never returns a valid length byte: the receive is a
    // timeout fault, and the command buffer was never turned into a
    // response.
    let command = vec![0x03, 0x30, 0x00, 0x00];
    let mut m = I2cReceive::new();
    let mut result: Result<Vec<u8>, Error> = Ok(vec![]);
    loop {
        match m.note_probe(None) {
            I2cRecvAction::WaitThenProbe => continue,
            I2cRecvAction::Fail => {
                result = Err(Error::timeout());
                break;
            }
            I2cRecvAction::ReadRemainder(_) => unreachable!(),
        }
    }
    assert_eq!(result, Err(Error::Timeout));
    assert_eq!(command, vec![0x03, 0x30, 0x00, 0x00]);
}
