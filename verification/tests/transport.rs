use ecc_transport::action::Action;
use ecc_transport::codec::encode;
use ecc_transport::transport::{protocol_for_path, sleep_plan, wake_plan, TransportProtocol};

#[test]
fn serial_paths_select_swi() {
    assert_eq!(
        protocol_for_path(&b"/dev/ttyUSB0".to_vec()),
        TransportProtocol::Swi
    );
    assert_eq!(
        protocol_for_path(&b"/dev/ttyS1".to_vec()),
        TransportProtocol::Swi
    );
    // The marker may sit anywhere in the path.
    assert_eq!(
        protocol_for_path(&b"/by-id/../dev/tty".to_vec()),
        TransportProtocol::Swi
    );
}

#[test]
fn other_paths_select_i2c() {
    assert_eq!(
        protocol_for_path(&b"/dev/i2c-1".to_vec()),
        TransportProtocol::I2c
    );
    assert_eq!(protocol_for_path(&b"".to_vec()), TransportProtocol::I2c);
    assert_eq!(
        protocol_for_path(&b"/dev/tt".to_vec()),
        TransportProtocol::I2c
    );
    assert_eq!(
        protocol_for_path(&b"tty/dev/".to_vec()),
        TransportProtocol::I2c
    );
}

#[test]
fn scenario_swi_wake_sequence() {
    // Exactly one baud-rate change down to 115200, one zero-byte write,
    // a 1300 microsecond hold, one restoration to 230400, and a full
    // buffer clear — in that order.
    let p = wake_plan(TransportProtocol::Swi);
    assert_eq!(
        p,
        vec![
            Action::SetBaudRate(115_200),
            Action::SerialWrite(vec![0x00]),
            Action::SleepMicros(1_300),
            Action::SetBaudRate(230_400),
            Action::ClearSerialBuffers,
        ]
    );
}

#[test]
fn i2c_wake_is_zero_byte_to_wake_address() {
    let p = wake_plan(TransportProtocol::I2c);
    assert_eq!(p, vec![Action::I2cWrite(0, vec![0x00])]);
}

#[test]
fn i2c_sleep_is_opcode_to_device() {
    let p = sleep_plan(TransportProtocol::I2c, 0x60);
    assert_eq!(p, vec![Action::I2cWrite(0x60, vec![0x01])]);
}

#[test]
fn swi_sleep_writes_encoded_marker() {
    let p = sleep_plan(TransportProtocol::Swi, 0x60);
    assert_eq!(
        p,
        vec![
            Action::SerialWrite(encode(&vec![0xCC])),
            Action::SleepMicros(300),
        ]
    );
}
