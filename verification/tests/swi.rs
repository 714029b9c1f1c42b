use ecc_transport::action::Action;
use ecc_transport::codec::encode;
use ecc_transport::error::Error;
use ecc_transport::swi::{
    interpret_frame, send_follow_up, transmit_request, SwiPoll, SwiPollAction,
    ATCA_SWI_CMD_SIZE_MAX,
};

/// The seven-data-bit port strips the top bit of every byte it carries.
fn wire(bytes: &[u8]) -> Vec<u8> {
    bytes.iter().map(|b| b & 0x7F).collect()
}

#[test]
fn transmit_request_is_encoded_flag() {
    // 0x88 = 1000_1000, least significant bit first: 0,0,0,1,0,0,0,1.
    let r = transmit_request();
    assert_eq!(r, vec![0xFD, 0xFD, 0xFD, 0xFF, 0xFD, 0xFD, 0xFD, 0xFF]);
}

#[test]
fn echo_discard_matches_write_count() {
    // Exactly as many bytes are read back and discarded as were written,
    // and the transmission wait is 45 microseconds per byte.
    let p = send_follow_up(32, 32);
    assert_eq!(p.len(), 2);
    assert_eq!(p[0], Action::SleepMicros(32 * 45));
    assert_eq!(p[1], Action::DiscardEcho(32));
    let p = send_follow_up(100, 97);
    assert_eq!(p[0], Action::SleepMicros(4_500));
    assert_eq!(p[1], Action::DiscardEcho(97));
}

#[test]
fn poll_echo_only_waits_then_retries() {
    let mut m = SwiPoll::new();
    assert_eq!(m.note_read(8), SwiPollAction::WaitThenPoll);
    assert_eq!(m.note_read(8), SwiPollAction::Fail);
}

#[test]
fn poll_inconclusive_counts_retry_at_once() {
    let mut m = SwiPoll::new();
    assert_eq!(m.note_read(0), SwiPollAction::PollAgain);
    let mut m = SwiPoll::new();
    assert_eq!(m.note_read(16), SwiPollAction::PollAgain);
}

#[test]
fn poll_payload_is_accepted() {
    let mut m = SwiPoll::new();
    assert_eq!(m.note_read(17), SwiPollAction::Accept);
    let mut m = SwiPoll::new();
    assert_eq!(m.note_read(8), SwiPollAction::WaitThenPoll);
    assert_eq!(m.note_read(1208), SwiPollAction::Accept);
}

#[test]
fn poll_exhaustion_is_timeout() {
    let mut m = SwiPoll::new();
    assert_eq!(m.note_read(3), SwiPollAction::PollAgain);
    assert_eq!(m.note_read(16), SwiPollAction::Fail);
}

#[test]
fn frame_strips_flag_and_cuts_to_declared_length() {
    // Decoded frame: transmit flag, declared length 0x04, then payload.
    // The response keeps the length byte first, as the I2C path does.
    let logical = vec![0x23, 0x04, 0xAB, 0xCD, 0xEF];
    let encoded = wire(&encode(&logical));
    let r = interpret_frame(&encoded);
    assert_eq!(r, Ok(vec![0x04, 0xAB, 0xCD, 0xEF]));
}

#[test]
fn frame_in_full_read_buffer() {
    // The driver reads into a fixed buffer of the largest encoded frame;
    // the unread tail decodes to zeros and is cut away by the declared
    // length.
    let logical = vec![0x77, 0x07, 0x01, 0x02, 0x03, 0x04, 0x05];
    let head = wire(&encode(&logical));
    let mut full = vec![0u8; ATCA_SWI_CMD_SIZE_MAX as usize];
    full[..head.len()].copy_from_slice(&head);
    let r = interpret_frame(&full).unwrap();
    assert_eq!(r.len(), 7);
    assert_eq!(r, vec![0x07, 0x01, 0x02, 0x03, 0x04, 0x05, 0x00]);
}

#[test]
fn oversized_declared_length_is_timeout() {
    // 200 exceeds the largest logical frame (1208 / 8 = 151).
    let logical = vec![0x23, 200, 0x00, 0x00];
    let encoded = wire(&encode(&logical));
    assert_eq!(interpret_frame(&encoded), Err(Error::Timeout));
}

#[test]
fn declared_length_beyond_frame_is_timeout() {
    // The frame itself carries only one byte after the length field.
    let logical = vec![0x23, 0x05, 0x01];
    let encoded = wire(&encode(&logical));
    assert_eq!(interpret_frame(&encoded), Err(Error::Timeout));
}

#[test]
fn declared_length_at_frame_limit() {
    // A full 1208-byte read decodes to 151 logical bytes: one transmit
    // flag and at most 150 response bytes.  A declared length of 150
    // still fits; 151 passes the size ceiling but cannot fit the frame;
    // 152 exceeds the ceiling outright.
    for (declared, fits) in [(150u8, true), (151, false), (152, false)] {
        let mut logical = vec![0x23, declared];
        logical.resize(151, 0x00);
        let head = wire(&encode(&logical));
        let mut full = vec![0u8; ATCA_SWI_CMD_SIZE_MAX as usize];
        full[..head.len()].copy_from_slice(&head);
        let r = interpret_frame(&full);
        if fits {
            let buf = r.unwrap();
            assert_eq!(buf.len(), 150);
            assert_eq!(buf[0], 150);
        } else {
            assert_eq!(r, Err(Error::Timeout));
        }
    }
}

#[test]
fn timeout_constructor() {
    assert_eq!(Error::timeout(), Error::Timeout);
}
