use marcontroller::error::KeyboardError;
use marcontroller::hid::frame_report;
use marcontroller::vialrgb::{
    check_echo, encode_direct_fastset, encode_set_mode, fastset_chunks, parse_info,
    parse_led_count, parse_led_info, parse_mode, parse_supported_page, request, request_u16,
    Info, LedInfo, Mode, SupportedScan, ID_LIGHTING_GET_VALUE, ID_LIGHTING_SET_VALUE,
    VIALRGB_GET_INFO, VIALRGB_GET_MODE, VIALRGB_GET_SUPPORTED,
};

fn reply(cmd: u8, sub: u8, args: &[u8]) -> [u8; 32] {
    let mut r = [0u8; 32];
    r[0] = cmd;
    r[1] = sub;
    r[2..2 + args.len()].copy_from_slice(args);
    r
}

#[test]
fn set_mode_packet_layout() {
    let p = encode_set_mode(0x1234, 7, 10, 20, 30);
    let mut expected = [0u8; 32];
    expected[..8].copy_from_slice(&[0x07, 0x41, 0x34, 0x12, 7, 10, 20, 30]);
    assert_eq!(p, expected);
}

#[test]
fn get_requests_carry_only_the_header() {
    let p = request(ID_LIGHTING_GET_VALUE, VIALRGB_GET_INFO);
    assert_eq!(p[0], 0x08);
    assert_eq!(p[1], 0x40);
    assert!(p[2..].iter().all(|b| *b == 0));
    let q = request_u16(ID_LIGHTING_GET_VALUE, VIALRGB_GET_SUPPORTED, 0x0102);
    assert_eq!(&q[..4], &[0x08, 0x42, 0x02, 0x01]);
}

#[test]
fn fastset_packet_layout() {
    let p = encode_direct_fastset(0x0109, &[(1, 2, 3), (4, 5, 6)]);
    assert_eq!(&p[..11], &[0x07, 0x42, 0x09, 0x01, 2, 1, 2, 3, 4, 5, 6]);
    assert!(p[11..].iter().all(|b| *b == 0));
}

#[test]
fn set_mode_reads_back_through_get_mode() {
    let set = encode_set_mode(37, 200, 1, 2, 3);
    let mut r = set;
    r[0] = ID_LIGHTING_GET_VALUE;
    r[1] = VIALRGB_GET_MODE;
    let m = parse_mode(&r).unwrap();
    assert_eq!(m, Mode { mode: 37, speed: 200, h: 1, s: 2, v: 3 });
}

#[test]
fn decoders_read_the_documented_bytes() {
    let info = parse_info(&reply(0x08, 0x40, &[0x01, 0x00, 200])).unwrap();
    assert_eq!(info, Info { protocol_version: 1, max_brightness: 200 });
    let n = parse_led_count(&reply(0x08, 0x43, &[0x48, 0x01])).unwrap();
    assert_eq!(n, 0x148);
    let li = parse_led_info(&reply(0x08, 0x44, &[112, 32, 4, 0xFF, 0xFF])).unwrap();
    assert_eq!(li, LedInfo { x: 112, y: 32, flags: 4, matrix_row: 0xFF, matrix_col: 0xFF });
}

#[test]
fn wrong_echo_is_an_unexpected_response() {
    let r = reply(0x08, 0x41, &[1, 2, 3, 4, 5, 6]);
    match parse_info(&r) {
        Err(KeyboardError::UnexpectedResponse { bytes }) => {
            assert_eq!(bytes, vec![0x08, 0x41, 1, 2, 3, 4, 5, 6]);
        }
        _ => panic!("expected an unexpected-response error"),
    }
    assert!(check_echo(&r, 0x08, 0x41).is_ok());
    assert!(check_echo(&r, ID_LIGHTING_SET_VALUE, 0x41).is_err());
}

#[test]
fn unexpected_response_message() {
    let e = KeyboardError::UnexpectedResponse { bytes: vec![0x07, 0x41, 0, 0, 0, 0, 0, 0xAB] };
    assert_eq!(e.message(), "unexpected_response bytes=[07, 41, 00, 00, 00, 00, 00, AB]");
}

#[test]
fn error_messages() {
    assert_eq!(KeyboardError::NoDevice { vid: 0xFEED, pid: 0 }.message(), "no_device vid=FEED pid=0000");
    assert_eq!(KeyboardError::AmbiguousInterface.message(), "ambiguous_interface");
    assert_eq!(KeyboardError::FastsetTooMany { got: 12 }.message(), "fastset_too_many got=12");
    assert_eq!(KeyboardError::WriteShort { wrote: 5 }.message(), "write_short wrote=5 expected=33");
    assert_eq!(KeyboardError::ReadShort { read: 0 }.message(), "read_short read=0 expected=32");
    assert!(KeyboardError::NoDevice { vid: 1, pid: 2 }.is_no_device());
    assert!(!KeyboardError::AmbiguousInterface.is_no_device());
}

#[test]
fn supported_page_stops_at_filler() {
    let r = reply(0x08, 0x42, &[2, 0, 3, 0, 0x2E, 0, 0xFF, 0xFF, 9, 0]);
    assert_eq!(parse_supported_page(&r).unwrap(), vec![2, 3, 46]);
    let mut full = [0xFFu8; 32];
    full[0] = 0x08;
    full[1] = 0x42;
    assert_eq!(parse_supported_page(&full).unwrap(), Vec::<u16>::new());
}

#[test]
fn supported_scan_pages_until_empty() {
    let mut scan = SupportedScan::new();
    assert_eq!(&scan.request()[..4], &[0x08, 0x42, 0, 0]);
    scan.absorb(&reply(0x08, 0x42, &[2, 0, 5, 0, 0xFF, 0xFF])).unwrap();
    assert_eq!(scan.ids, vec![2, 5]);
    assert_eq!(scan.cursor, 5);
    assert!(!scan.done);
    assert_eq!(&scan.request()[..4], &[0x08, 0x42, 5, 0]);
    let mut empty = [0xFFu8; 32];
    empty[0] = 0x08;
    empty[1] = 0x42;
    scan.absorb(&empty).unwrap();
    assert!(scan.done);
    assert_eq!(scan.ids, vec![2, 5]);
}

#[test]
fn supported_scan_refuses_a_page_that_does_not_advance() {
    let mut scan = SupportedScan::new();
    scan.absorb(&reply(0x08, 0x42, &[7, 0, 0xFF, 0xFF])).unwrap();
    let r = scan.absorb(&reply(0x08, 0x42, &[3, 0, 0xFF, 0xFF]));
    assert_eq!(r, Err(KeyboardError::SupportedStalled { cursor: 7 }));
}

#[test]
fn fastset_chunks_cover_every_led() {
    assert_eq!(fastset_chunks(20), vec![(0, 9), (9, 9), (18, 2)]);
    assert_eq!(fastset_chunks(9), vec![(0, 9)]);
    assert_eq!(fastset_chunks(0), Vec::<(u16, usize)>::new());
    let chunks = fastset_chunks(1000);
    assert_eq!(chunks.len(), 112);
    let total: usize = chunks.iter().map(|c| c.1).sum();
    assert_eq!(total, 1000);
}

#[test]
fn report_frame_has_zero_report_id() {
    let mut p = [0u8; 32];
    p[0] = 0x08;
    p[31] = 9;
    let w = frame_report(&p);
    assert_eq!(w.len(), 33);
    assert_eq!(w[0], 0);
    assert_eq!(&w[1..], &p[..]);
}
