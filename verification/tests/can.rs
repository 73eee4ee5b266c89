use pond::can::{
    build_pos_bytes, build_speed_bytes, classify_frame, classify_row, encode_frame, line_end,
    parse_line,
    scan_response, Bitrate, CanFrame, ParseError, Response,
};

fn frame(id: u32, data: &[u8], extended: bool, rtr: bool) -> CanFrame {
    CanFrame { id, data: data.to_vec(), extended, rtr }
}

#[test]
fn bitrate_codes() {
    let all = [
        (Bitrate::B10k, "S0"),
        (Bitrate::B20k, "S1"),
        (Bitrate::B50k, "S2"),
        (Bitrate::B100k, "S3"),
        (Bitrate::B125k, "S4"),
        (Bitrate::B250k, "S5"),
        (Bitrate::B500k, "S6"),
        (Bitrate::B800k, "S7"),
        (Bitrate::B1M, "S8"),
    ];
    for (b, code) in all {
        assert_eq!(b.to_slcan_code(), code);
    }
}

#[test]
fn parses_a_standard_data_frame() {
    let f = parse_line(b"t1234DEADBEEF").unwrap();
    assert_eq!(f.id, 0x123);
    assert_eq!(f.data, vec![0xde, 0xad, 0xbe, 0xef]);
    assert!(!f.extended);
    assert!(!f.rtr);
}

#[test]
fn parses_lower_case_and_mixed_case_digits() {
    let f = parse_line(b"t7ff2aBcD").unwrap();
    assert_eq!(f.id, 0x7ff);
    assert_eq!(f.data, vec![0xab, 0xcd]);
}

#[test]
fn parses_an_extended_data_frame() {
    let f = parse_line(b"T1ABCDEF0811223344556677AA").unwrap();
    assert_eq!(f.id, 0x1abc_def0);
    assert_eq!(f.data, vec![0x11, 0x22, 0x33, 0x44, 0x55, 0x66, 0x77, 0xaa]);
    assert!(f.extended);
    assert!(!f.rtr);
}

#[test]
fn parses_remote_frames_without_data() {
    let f = parse_line(b"r1234").unwrap();
    assert_eq!((f.id, f.extended, f.rtr), (0x123, false, true));
    assert!(f.data.is_empty());
    let f = parse_line(b"R000001408ZZ").unwrap();
    assert_eq!((f.id, f.extended, f.rtr), (0x140, true, true));
    assert!(f.data.is_empty());
}

#[test]
fn parses_a_frame_without_data_and_ignores_what_follows() {
    let f = parse_line(b"t1230").unwrap();
    assert!(f.data.is_empty());
    let f = parse_line(b"t1231AAtrailing").unwrap();
    assert_eq!(f.data, vec![0xaa]);
}

#[test]
fn id_may_carry_a_plus_sign() {
    let f = parse_line(b"t+1F0").unwrap();
    assert_eq!(f.id, 0x1f);
    assert_eq!(u32::from_str_radix("+1F", 16).unwrap(), 0x1f);
}

#[test]
fn parse_errors() {
    assert_eq!(parse_line(b"").unwrap_err(), ParseError::Empty);
    assert_eq!(parse_line(b"x123").unwrap_err(), ParseError::UnknownFrameType(b'x'));
    assert_eq!(parse_line(b"t12").unwrap_err(), ParseError::ShortId);
    assert_eq!(parse_line(b"T1234567").unwrap_err(), ParseError::ShortId);
    assert_eq!(parse_line(b"t12G0").unwrap_err(), ParseError::BadId);
    assert_eq!(parse_line(b"t-120").unwrap_err(), ParseError::BadId);
    assert_eq!(parse_line(b"t++10").unwrap_err(), ParseError::BadId);
    assert_eq!(parse_line(&[b't', 0xff, b'1', b'2', b'0']).unwrap_err(), ParseError::BadId);
    assert_eq!(parse_line(b"t123").unwrap_err(), ParseError::MissingDlc);
    assert_eq!(parse_line(b"t123 ").unwrap_err(), ParseError::BadDlc);
    assert_eq!(parse_line(b"t1232AA").unwrap_err(), ParseError::ShortData);
    assert_eq!(parse_line(b"t1232AAB").unwrap_err(), ParseError::ShortData);
    assert_eq!(parse_line(b"t1232AAXY").unwrap_err(), ParseError::BadData);
    assert_eq!(parse_line(b"t1231 1").unwrap_err(), ParseError::BadData);
}

#[test]
fn a_length_character_past_nine_counts_on() {
    let mut line = b"t123:".to_vec();
    line.extend_from_slice(b"00112233445566778899");
    let f = parse_line(&line).unwrap();
    assert_eq!(f.data, vec![0x00, 0x11, 0x22, 0x33, 0x44, 0x55, 0x66, 0x77, 0x88, 0x99]);
}

#[test]
fn encodes_frames() {
    assert_eq!(encode_frame(&frame(0x123, &[0x11, 0x22, 0x33, 0x44], false, false)), b"t123411223344".to_vec());
    assert_eq!(encode_frame(&frame(0x1abc_def0, &[0xde, 0xad], true, false)), b"T1ABCDEF02DEAD".to_vec());
    assert_eq!(encode_frame(&frame(0x7ff, &[], false, true)), b"r7FF0".to_vec());
    assert_eq!(encode_frame(&frame(0x5, &[1, 2, 3], true, true)), b"R000000053".to_vec());
}

#[test]
fn encoding_cuts_id_and_data_to_size() {
    assert_eq!(encode_frame(&frame(0xffff_ffff, &[], false, false)), b"t7FF0".to_vec());
    assert_eq!(encode_frame(&frame(0xffff_ffff, &[], true, false)), b"T1FFFFFFF0".to_vec());
    let long = [1u8, 2, 3, 4, 5, 6, 7, 8, 9, 10];
    assert_eq!(encode_frame(&frame(1, &long, false, false)), b"t00180102030405060708".to_vec());
}

#[test]
fn encode_then_parse_gives_the_frame_back() {
    for f in [
        frame(0x141, &[0xa2, 0, 0, 0, 0x10, 0x27, 0, 0], false, false),
        frame(0x1234_5678, &[0xff], true, false),
        frame(0x241, &[], false, true),
        frame(0, &[], false, false),
    ] {
        let back = parse_line(&encode_frame(&f)).unwrap();
        assert_eq!(back.id, f.id);
        assert_eq!(back.data, f.data);
        assert_eq!(back.extended, f.extended);
        assert_eq!(back.rtr, f.rtr);
    }
}

#[test]
fn speed_and_position_bytes() {
    assert_eq!(build_speed_bytes(0), vec![0xa2, 0, 0, 0, 0, 0, 0, 0]);
    assert_eq!(build_speed_bytes(500), vec![0xa2, 0, 0, 0, 0xf4, 0x01, 0, 0]);
    assert_eq!(build_speed_bytes(-500), vec![0xa2, 0, 0, 0, 0x0c, 0xfe, 0xff, 0xff]);
    assert_eq!(build_pos_bytes(9000), vec![0xa4, 0, 0, 0, 0x28, 0x23, 0, 0]);
    assert_eq!(build_pos_bytes(i32::MIN)[4..], i32::MIN.to_le_bytes());
    assert_eq!(build_speed_bytes(i32::MAX)[4..], i32::MAX.to_le_bytes());
}

#[test]
fn rows_are_classified() {
    assert_eq!(classify_row(0x141, 1, &[0xa2, 0]), ("TX", "speed(0xA2)".to_string()));
    assert_eq!(classify_row(0x241, 1, &[0x92]), ("RX", "angle(0x92)".to_string()));
    assert_eq!(classify_row(0x300, 1, &[0x9a]), ("--", "status1(0x9A)".to_string()));
    assert_eq!(classify_row(0x142, 2, &[0x9c]), ("TX", "status2(0x9C)".to_string()));
    assert_eq!(classify_row(0x142, 2, &[0xa4]).1, "pos(0xA4)");
    assert_eq!(classify_row(0x142, 2, &[0x77]).1, "brake_release(0x77)");
    assert_eq!(classify_row(0x142, 2, &[0x78]).1, "brake_lock(0x78)");
    assert_eq!(classify_row(0x142, 2, &[0x81]).1, "stop(0x81)");
    assert_eq!(classify_row(0x142, 2, &[0xb6]).1, "other");
    assert_eq!(classify_row(0x142, 2, &[]), ("TX", String::new()));
    assert_eq!(classify_row(5, u32::MAX, &[]).0, "--");
}

#[test]
fn frames_are_classified() {
    assert_eq!(classify_frame(0x141, 1, &[0xa2]), ("TX", "speed".to_string()));
    assert_eq!(classify_frame(0x241, 1, &[0xa4]), ("RX", "position".to_string()));
    assert_eq!(classify_frame(0x241, 1, &[0xb6]).1, "active_reply");
    assert_eq!(classify_frame(0x241, 1, &[0x77]).1, "brake_rel");
    assert_eq!(classify_frame(0x241, 1, &[0x92]).1, "angle");
    assert_eq!(classify_frame(0x241, 1, &[0x01]).1, "other");
    assert_eq!(classify_frame(0x999, 1, &[]), ("--", String::new()));
}

#[test]
fn first_ack_or_nak_decides() {
    assert_eq!(scan_response(b""), Response::Pending);
    assert_eq!(scan_response(b"\r"), Response::Ack);
    assert_eq!(scan_response(&[0x07]), Response::Nak);
    assert_eq!(scan_response(b"S6"), Response::Pending);
    assert_eq!(scan_response(b"S6\r"), Response::Ack);
    assert_eq!(scan_response(&[b'O', 0x07, b'\r']), Response::Nak);
    assert_eq!(scan_response(&[b'O', b'\r', 0x07]), Response::Ack);
}

#[test]
fn a_line_ends_at_the_first_line_end() {
    assert_eq!(line_end(b""), None);
    assert_eq!(line_end(b"t1230"), None);
    assert_eq!(line_end(b"t1230\r"), Some(5));
    assert_eq!(line_end(b"t1230\nt4560\r"), Some(5));
    assert_eq!(line_end(b"\r\n"), Some(0));
    let bytes = b"t12321122\rT";
    let end = line_end(bytes).unwrap();
    assert_eq!(parse_line(&bytes[..end]).unwrap().data, vec![0x11, 0x22]);
}
