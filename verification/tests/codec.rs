use pm1006::errors::Error;
use pm1006::parse_response;

#[test]
fn test_parse_response() {
    // an example response taken from the actual device
    let response: [u8; 20] = [
        22,  // 0x16 Response header (fixed)
        17,  // 0x11 Response length (CMD echo + DFs)
        11,  // 0x0b CMD echo
        0,   // 0x00 DF1
        0,   // 0x00 DF2
        0,   // 0x00 DF3 <----
        9,   // 0x09 DF4 <----
        0,   // 0x00 DF5
        0,   // 0x00 DF6
        3,   // 0x03 DF7
        238, // 0xee DF8
        0,   // 0x00 DF9
        0,   // 0x00 DF10
        0,   // 0x00 DF11
        64,  // 0x40 DF12
        2,   // 0x02 DF13
        0,   // 0x00 DF14
        0,   // 0x00 DF15
        55,  // 0x37 DF16
        91,  // 0x5b checksum
    ];
    // result = DF3 * 256 + DF4
    // 0 * 256 + 9 = 9
    let result = parse_response::<()>(&response);
    assert!(result.is_ok());
    assert!(result.unwrap() == 9);
}

#[test]
fn test_parse_response_with_2_data_frames() {
    let response: [u8; 20] = [
        22,  // 0x16 Response header (fixed)
        17,  // 0x11 Response length (CMD echo + DFs)
        11,  // 0x0b CMD echo
        0,   // 0x00 DF1
        0,   // 0x00 DF2
        1,   // 0x01 DF3 <----
        9,   // 0x09 DF4 <----
        0,   // 0x00 DF5
        0,   // 0x00 DF6
        3,   // 0x03 DF7
        238, // 0xee DF8
        0,   // 0x00 DF9
        0,   // 0x00 DF10
        0,   // 0x00 DF11
        64,  // 0x40 DF12
        2,   // 0x02 DF13
        0,   // 0x00 DF14
        0,   // 0x00 DF15
        55,  // 0x37 DF16
        90,  // 0x5a checksum
    ];
    // result = DF3 * 256 + DF4
    // 1 * 256 + 9 = 265
    let result = parse_response::<()>(&response);
    assert!(result.is_ok());
    assert!(result.unwrap() == 265);
}

fn scenario_response() -> [u8; 20] {
    [
        0x16, 0x11, 0x0b, 0x00, 0x00, 0x00, 0x09, 0x00, 0x00, 0x03, 0xee, 0x00, 0x00, 0x00,
        0x40, 0x02, 0x00, 0x00, 0x37, 0x5b,
    ]
}

#[test]
fn test_parse_rejects_wrong_header() {
    let mut response = scenario_response();
    response[0] = 0x00;
    let result = parse_response::<()>(&response);
    assert!(matches!(result, Err(Error::InvalidHeader(0x00))));
}

#[test]
fn test_parse_reports_exact_header_byte() {
    let mut response = scenario_response();
    response[0] = 0x99;
    let result = parse_response::<()>(&response);
    assert!(matches!(result, Err(Error::InvalidHeader(0x99))));
}

#[test]
fn test_parse_rejects_wrong_cmd_echo() {
    let mut response = scenario_response();
    // CMD echo 0x0c instead of 0x0b; checksum recomputed so that only the
    // CMD check can fail
    response[2] = 0x0c;
    response[19] = 0x5a;
    let result = parse_response::<()>(&response);
    assert!(matches!(result, Err(Error::InvalidCommandResponse(0x0c))));
}

#[test]
fn test_parse_rejects_bad_checksum() {
    let mut response = scenario_response();
    response[19] = 0x5c;
    let result = parse_response::<()>(&response);
    match result {
        Err(Error::InvalidChecksum(mismatch)) => {
            assert_eq!(mismatch.expected, 0x5c);
            // the valid trailing byte is 0x5b, so the running sum over the
            // 19 bytes before it is 256 - 0x5b = 0xa5
            assert_eq!(mismatch.calculated, 0xa5);
        }
        other => panic!("expected InvalidChecksum, got {:?}", other),
    }
}

#[test]
fn test_parse_rejects_empty_buffer() {
    let response: [u8; 0] = [];
    let result = parse_response::<()>(&response);
    assert!(matches!(result, Err(Error::MalformedLength)));
}

#[test]
fn test_parse_rejects_truncated_buffer() {
    // length byte claims 17 data-frame bytes but only one follows
    let response: [u8; 4] = [0x16, 0x11, 0x0b, 0x00];
    let result = parse_response::<()>(&response);
    assert!(matches!(result, Err(Error::MalformedLength)));
}

#[test]
fn test_parse_checksum_wraps_past_255() {
    // header + length + CMD + 0xff sums to 0x122: past 255 the running
    // checksum wraps to 0x22 instead of failing, so 0xde closes the frame
    let response: [u8; 5] = [0x16, 0x02, 0x0b, 0xff, 0xde];
    let result = parse_response::<()>(&response);
    assert!(result.is_ok());
    assert!(result.unwrap() == 0);
}

#[test]
fn test_parse_zero_length_frame() {
    // a declared length of zero runs the data loop zero times: the
    // measurement stays 0 and the checksum byte sits at offset 2
    let response: [u8; 3] = [0x16, 0x00, 0xea];
    let result = parse_response::<()>(&response);
    assert!(result.is_ok());
    assert!(result.unwrap() == 0);
}

#[test]
fn test_parse_is_idempotent() {
    let response = scenario_response();
    let first = parse_response::<()>(&response);
    let second = parse_response::<()>(&response);
    assert!(first.is_ok());
    assert!(second.is_ok());
    assert_eq!(first.unwrap(), second.unwrap());
}

#[test]
fn test_parse_ignores_unused_data_frames() {
    // DF1, DF2 and DF5..DF16 do not contribute to the measurement
    let mut response = scenario_response();
    response[3] = 0x21; // DF1
    response[8] = 0x42; // DF6
    // keep the frame sum at zero modulo 256: 0x21 + 0x42 = 0x63 extra
    response[19] = response[19].wrapping_sub(0x63);
    let result = parse_response::<()>(&response);
    assert!(result.is_ok());
    assert!(result.unwrap() == 9);
}

#[test]
fn test_parse_measurement_combines_both_bytes() {
    // DF3 = 0x02, DF4 = 0x30: measurement is 0x02 * 256 + 0x30 = 560
    let mut response = scenario_response();
    response[5] = 0x02;
    response[6] = 0x30;
    // scenario frame had DF3 = 0x00, DF4 = 0x09: adjust the checksum by
    // the difference 0x02 + 0x30 - 0x09 = 0x29
    response[19] = response[19].wrapping_sub(0x29);
    let result = parse_response::<()>(&response);
    assert!(result.is_ok());
    assert!(result.unwrap() == 560);
}
