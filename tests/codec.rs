use pollbot::codec::{decode_int, decode_roster, encode_int, encode_roster, CodecError};

#[test]
fn roster_is_written_as_compact_json() {
    assert_eq!(encode_roster(&[3, 1, -2]).unwrap(), "[3,1,-2]");
    assert_eq!(encode_roster(&[]).unwrap(), "[]");
    assert_eq!(encode_roster(&[i64::MIN, i64::MAX]).unwrap(), "[-9223372036854775808,9223372036854775807]");
}

#[test]
fn roster_round_trip_keeps_order() {
    for ids in [vec![], vec![7], vec![5, 3, 9, 1], vec![1, 2, 3, 4, 5], vec![-4, 0, 4]] {
        let text = encode_roster(&ids).unwrap();
        assert_eq!(decode_roster(&text).unwrap(), ids);
    }
}

#[test]
fn malformed_roster_is_a_decode_error() {
    assert_eq!(decode_roster("not json"), Err(CodecError::Decode));
    assert_eq!(decode_roster(""), Err(CodecError::Decode));
    assert_eq!(decode_roster("{\"a\":1}"), Err(CodecError::Decode));
    assert_eq!(decode_roster("[1,\"x\"]"), Err(CodecError::Decode));
}

#[test]
fn roster_text_with_spaces_still_reads() {
    assert_eq!(decode_roster(" [ 1 , 2 ] ").unwrap(), vec![1, 2]);
}

#[test]
fn integers_round_trip() {
    assert_eq!(encode_int(-42).unwrap(), "-42");
    assert_eq!(encode_int(0).unwrap(), "0");
    assert_eq!(decode_int("17"), Ok(17));
    assert_eq!(decode_int(&encode_int(i64::MIN).unwrap()), Ok(i64::MIN));
    assert_eq!(decode_int("1.5"), Err(CodecError::Decode));
    assert_eq!(decode_int("[1]"), Err(CodecError::Decode));
}
