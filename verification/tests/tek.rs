use rust_task::tek::{tek_decomp, tek_getsize, TekError};

fn tek_header(method: u8) -> Vec<u8> {
    let mut v = vec![method];
    v.extend_from_slice(&[0xff, 0xff, 0xff, 0x01, 0x00, 0x00, 0x00]);
    v.extend_from_slice(b"OSASKCMP");
    v
}

#[test]
fn getsize_of_a_short_stream_fails() {
    assert_eq!(tek_getsize(&[0x83; 15]), Err(TekError::UnexpectedEof));
}

#[test]
fn getsize_of_an_unknown_method_fails() {
    let mut v = tek_header(0x84);
    v.push(0x15);
    assert_eq!(tek_getsize(&v), Err(TekError::UnsupportedMethod(0x84)));
}

#[test]
fn getsize_of_a_bad_header_fails() {
    let mut v = tek_header(0x83);
    v[9] = b'X';
    v.push(0x15);
    assert_eq!(tek_getsize(&v), Err(TekError::InvalidFormat));
}

#[test]
fn getsize_reads_the_declared_size() {
    let mut v = tek_header(0x83);
    // 10, one byte: (10 << 1) | 1
    v.push(0x15);
    assert_eq!(tek_getsize(&v), Ok(10));
    let mut w = tek_header(0x85);
    // 0x80, two bytes of seven bits: 0x80 << 1 | 1 == 0x101 == 0b10_0000001
    w.push(0x02);
    w.push(0x01);
    assert_eq!(tek_getsize(&w), Ok(0x80));
}

#[test]
fn getsize_of_a_cut_size_fails() {
    let mut v = tek_header(0x89);
    v.push(0x02);
    assert_eq!(tek_getsize(&v), Err(TekError::UnexpectedEof));
}

#[test]
fn decomp_reports_the_errors_of_getsize() {
    assert_eq!(tek_decomp(&[0x83; 4]), Err(TekError::UnexpectedEof));
    let mut v = tek_header(0x84);
    v.push(0x15);
    assert_eq!(tek_decomp(&v), Err(TekError::UnsupportedMethod(0x84)));
}

#[test]
fn error_messages() {
    assert_eq!(TekError::UnexpectedEof.message(), "unexpected end of input");
    assert_eq!(TekError::InvalidFormat.message(), "invalid TEK header or stream");
}

#[test]
fn method2_literals_then_a_repeated_distance() {
    // size 5, block header 1, no prefix, flag byte 0b1100: a run of three
    // literals, then one match; the match token 0x15 copies two bytes from
    // the third last distance, 3 back.
    let mut v = tek_header(0x85);
    v.extend_from_slice(&[0x0b, 0x03, 0x01, 0x0c, b'a', b'b', b'c', 0x15]);
    assert_eq!(tek_decomp(&v), Ok(b"abcab".to_vec()));
}

#[test]
fn method2_cut_in_a_match_fails() {
    let mut v = tek_header(0x85);
    v.extend_from_slice(&[0x0b, 0x03, 0x01, 0x0c, b'a', b'b', b'c']);
    assert_eq!(tek_decomp(&v), Err(TekError::UnexpectedEof));
}

#[test]
fn method1_literals_then_a_match() {
    // size 5, block header 1, no auxiliary buffer; token 0x13: three
    // literals and one match; match token 0x15: two bytes from 3 back.
    let mut v = tek_header(0x83);
    v.extend_from_slice(&[0x0b, 0x03, 0x01, 0x13, b'a', b'b', b'c', 0x15]);
    assert_eq!(tek_decomp(&v), Ok(b"abcab".to_vec()));
}

#[test]
fn method5_reads_its_properties() {
    let mut v = tek_header(0x89);
    v.push(0x01);
    assert_eq!(tek_decomp(&v), Ok(Vec::new()));
    let mut v = tek_header(0x89);
    v.extend_from_slice(&[0x0b, 0x03, 0x02]);
    assert_eq!(tek_decomp(&v), Err(TekError::CorruptData("invalid TEK5 property flags")));
    let mut v = tek_header(0x89);
    v.extend_from_slice(&[0x0b, 0x03, 0x19, 0x00, 0x00]);
    assert_eq!(tek_decomp(&v), Err(TekError::UnexpectedEof));
}
