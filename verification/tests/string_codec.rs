use asc_marshal::base::AscType;
use asc_marshal::errors::AscError;
use asc_marshal::errors::BigNumberErr;
use asc_marshal::string::AscString;
use asc_marshal::version::ApiVersion;

#[test]
fn string_empty_encodes_to_block_minus_header() {
    // next_power_of_two(20) == 32; the codec emits 32 - 20 = 12 bytes.
    let s = AscString::new(&[]).unwrap();
    let bytes = s.to_asc_bytes().unwrap();
    assert_eq!(bytes.len(), 12);
    assert!(bytes.iter().all(|&b| b == 0));
}

#[test]
fn string_ten_units_encodes_to_block_minus_header() {
    // next_power_of_two(20 + 20) == 64; the codec emits 64 - 20 = 44 bytes.
    let content: Vec<u16> = (0u16..10u16).collect();
    let s = AscString::new(&content).unwrap();
    let bytes = s.to_asc_bytes().unwrap();
    assert_eq!(bytes.len(), 44);
}

#[test]
fn string_encodes_little_endian() {
    let s = AscString::new(&[0x0068, 0x1069]).unwrap();
    let bytes = s.to_asc_bytes().unwrap();
    assert_eq!(&bytes[..4], &[0x68, 0x00, 0x69, 0x10]);
    // The rest is the zero fill up to the 32-byte block (minus the header).
    assert_eq!(bytes.len(), 12);
    assert!(bytes[4..].iter().all(|&b| b == 0));
}

#[test]
fn string_round_trip_content_portion() {
    let content: Vec<u16> = vec![0x68, 0x69, 0x21, 0xD83D, 0xDE00];
    let s = AscString::new(&content).unwrap();
    let bytes = s.to_asc_bytes().unwrap();
    let n = s.content_len(&bytes);
    assert_eq!(n, 10);
    let back = AscString::from_asc_bytes(&bytes[..n], &ApiVersion::new(0, 0, 5)).unwrap();
    assert_eq!(back.content, content);
    assert_eq!(back.byte_length, 5);
}

#[test]
fn string_full_decode_includes_zero_fill() {
    // Decoding the whole emitted block reads the zero fill as zero units.
    let s = AscString::new(&[0x41]).unwrap();
    let bytes = s.to_asc_bytes().unwrap();
    assert_eq!(bytes.len(), 12);
    let back = AscString::from_asc_bytes(&bytes, &ApiVersion::new(0, 0, 5)).unwrap();
    assert_eq!(back.content.len(), 6);
    assert_eq!(back.content[0], 0x41);
    assert!(back.content[1..].iter().all(|&u| u == 0));
}

#[test]
fn string_odd_length_decode_fails_with_malformed_input() {
    let r = AscString::from_asc_bytes(&[0x68, 0x00, 0x69], &ApiVersion::new(0, 0, 5));
    assert!(matches!(r, Err(AscError::Plain(_))));
}

#[test]
fn string_single_byte_decode_fails_with_malformed_input() {
    let r = AscString::from_asc_bytes(&[0xFF], &ApiVersion::new(0, 0, 4));
    assert!(matches!(r, Err(AscError::Plain(_))));
}

#[test]
fn string_malformed_decode_message_is_fixed() {
    let r1 = AscString::from_asc_bytes(&[1, 2, 3], &ApiVersion::new(0, 0, 4));
    let r2 = AscString::from_asc_bytes(&[1, 2, 3], &ApiVersion::new(1, 0, 0));
    match (r1, r2) {
        (Err(AscError::Plain(m1)), Err(AscError::Plain(m2))) => {
            assert_eq!(m1, "Attempted to read past end of string content bytes chunk");
            assert_eq!(m1, m2);
        }
        _ => panic!("expected the generic decode failure from both versions"),
    }
}

#[test]
fn string_decode_ignores_the_version() {
    let bytes = [0x41, 0x00, 0x42, 0x00];
    let a = AscString::from_asc_bytes(&bytes, &ApiVersion::new(0, 0, 3)).unwrap();
    let b = AscString::from_asc_bytes(&bytes, &ApiVersion::new(2, 1, 7)).unwrap();
    assert_eq!(a.content, b.content);
    assert_eq!(a.byte_length, b.byte_length);
}

#[test]
fn string_empty_input_decodes_to_empty_string() {
    let s = AscString::from_asc_bytes(&[], &ApiVersion::new(0, 0, 4)).unwrap();
    assert_eq!(s.content.len(), 0);
    assert_eq!(s.byte_length, 0);
}

#[test]
fn string_new_keeps_content_verbatim() {
    // Lone surrogates pass through unchanged.
    let content = [0xD800u16, 0x0041];
    let s = AscString::new(&content).unwrap();
    assert_eq!(s.content, vec![0xD800, 0x0041]);
    assert_eq!(s.byte_length, 2);
}

#[test]
fn string_content_len_excludes_padding() {
    let s = AscString::new(&[1, 2, 3]).unwrap();
    let bytes = s.to_asc_bytes().unwrap();
    assert_eq!(s.content_len(&bytes), 6);
    assert!(bytes.len() > 6);
}

#[test]
fn bignumber_errors_convert() {
    let parse_err = "not a number".parse::<num_bigint::BigInt>().unwrap_err();
    let e = BigNumberErr::from(parse_err);
    assert!(matches!(e, BigNumberErr::ParseError(_)));
    let top = AscError::from(e);
    assert!(matches!(
        top,
        AscError::BigNumberOutOfRange(BigNumberErr::ParseError(_))
    ));
}

#[test]
fn bigint_out_of_range_converts() {
    let e = BigNumberErr::from(asc_marshal::errors::BigIntOutOfRangeError::Negative);
    assert!(matches!(
        e,
        BigNumberErr::OutOfRange(asc_marshal::errors::BigIntOutOfRangeError::Negative)
    ));
}
