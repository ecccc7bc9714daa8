use led_matrix::protocol::{decode_version, encode_column, encode_command, Command, EncodeError};

#[test]
fn opcodes_match_the_wire_table() {
    assert_eq!(Command::Brightness.opcode(), 0x00);
    assert_eq!(Command::SendCol.opcode(), 0x07);
    assert_eq!(Command::CommitCols.opcode(), 0x08);
    assert_eq!(Command::StartGame.opcode(), 0x10);
    assert_eq!(Command::PwmFreq.opcode(), 0x1E);
    assert_eq!(Command::Version.opcode(), 0x20);
}

#[test]
fn command_frame_has_preamble_opcode_and_payload() {
    let frame = encode_command(Command::Brightness, &[0x40]).unwrap();
    assert_eq!(frame, vec![0x32, 0xAC, 0x00, 0x40]);
}

#[test]
fn empty_payload_gives_three_bytes() {
    let frame = encode_command(Command::CommitCols, &[]).unwrap();
    assert_eq!(frame, vec![0x32, 0xAC, 0x08]);
}

#[test]
fn largest_payload_fits() {
    let payload = vec![7u8; 61];
    let frame = encode_command(Command::SendCol, &payload).unwrap();
    assert_eq!(frame.len(), 64);
    assert_eq!(&frame[3..], &payload[..]);
}

#[test]
fn payload_too_long_is_refused() {
    let payload = vec![0u8; 62];
    assert_eq!(
        encode_command(Command::SendCol, &payload),
        Err(EncodeError::PayloadTooLong { len: 62 })
    );
}

#[test]
fn column_payload_reverses_pixels() {
    let pixels: Vec<u8> = (0..34u8).collect();
    let payload = encode_column(5, &pixels);
    assert_eq!(payload.len(), 35);
    assert_eq!(payload[0], 5);
    let mut reversed = pixels.clone();
    reversed.reverse();
    assert_eq!(&payload[1..], &reversed[..]);
}

#[test]
fn column_payload_of_no_pixels() {
    assert_eq!(encode_column(3, &[]), vec![3]);
}

#[test]
fn version_release() {
    let mut reply = vec![0u8; 32];
    reply[0] = 1;
    reply[1] = 0x23;
    assert_eq!(decode_version(&reply), "1.2.3");
}

#[test]
fn version_release_candidate() {
    let mut reply = vec![0u8; 32];
    reply[0] = 1;
    reply[1] = 0x23;
    reply[2] = 1;
    assert_eq!(decode_version(&reply), "1.2.3-rc");
}

#[test]
fn version_with_large_numbers() {
    let mut reply = vec![0u8; 32];
    reply[0] = 255;
    reply[1] = 0xFA;
    reply[2] = 2;
    assert_eq!(decode_version(&reply), "255.15.10");
    reply[0] = 42;
    reply[1] = 0x09;
    assert_eq!(decode_version(&reply), "42.0.9");
}
