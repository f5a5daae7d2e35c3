use fedimint_guard::p2p_frame::{
    decode_message_length, message_length_prefix, FrameError, MAX_MESSAGE_LEN,
};

#[test]
fn length_prefix_is_big_endian() {
    assert_eq!(message_length_prefix(0), [0, 0, 0, 0]);
    assert_eq!(message_length_prefix(1), [0, 0, 0, 1]);
    assert_eq!(message_length_prefix(0x0102_0304), [1, 2, 3, 4]);
    assert_eq!(message_length_prefix(1_000_000), [0x00, 0x0f, 0x42, 0x40]);
}

#[test]
fn length_prefix_cuts_to_32_bits() {
    if usize::BITS == 64 {
        let len = (1u64 << 32) as usize + 7;
        assert_eq!(message_length_prefix(len), [0, 0, 0, 7]);
    }
}

#[test]
fn receiver_reads_back_the_length() {
    for len in [0usize, 1, 255, 256, 65_535, 999_999, MAX_MESSAGE_LEN] {
        assert_eq!(decode_message_length(message_length_prefix(len)), Ok(len));
    }
}

#[test]
fn receiver_refuses_long_messages() {
    assert_eq!(
        decode_message_length(message_length_prefix(MAX_MESSAGE_LEN + 1)),
        Err(FrameError::MessageTooLarge)
    );
    assert_eq!(
        decode_message_length([0xff, 0xff, 0xff, 0xff]),
        Err(FrameError::MessageTooLarge)
    );
    assert_eq!(FrameError::MessageTooLarge.message(), "Message too large");
}
