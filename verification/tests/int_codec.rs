use bounce::error::CodecError;
use bounce::intcodec::{parse_u64, IntCodec};
use bytes::BytesMut;

fn buf(b: &[u8]) -> BytesMut {
    BytesMut::from(b)
}

#[test]
fn decode_reads_one_line() {
    let mut c = IntCodec::default();
    let mut b = buf(b"123\n");
    assert_eq!(c.decode(&mut b), Ok(Some(123)));
    assert!(b.is_empty());
}

#[test]
fn decode_strips_carriage_return_and_keeps_rest() {
    let mut c = IntCodec::default();
    let mut b = buf(b"42\r\n7");
    assert_eq!(c.decode(&mut b), Ok(Some(42)));
    assert_eq!(&b[..], b"7");
}

#[test]
fn decode_waits_for_a_complete_line() {
    let mut c = IntCodec::default();
    let mut b = buf(b"12");
    assert_eq!(c.decode(&mut b), Ok(None));
    assert_eq!(&b[..], b"12");
}

#[test]
fn decode_refuses_non_digits_and_drops_the_line() {
    let mut c = IntCodec::default();
    let mut b = buf(b"abc\n5\n");
    assert_eq!(c.decode(&mut b), Err(CodecError::InvalidData));
    assert_eq!(&b[..], b"5\n");
    assert_eq!(c.decode(&mut b), Ok(Some(5)));
}

#[test]
fn decode_refuses_empty_line() {
    let mut c = IntCodec::default();
    let mut b = buf(b"\n");
    assert_eq!(c.decode(&mut b), Err(CodecError::InvalidData));
    assert!(b.is_empty());
}

#[test]
fn decode_keeps_only_one_carriage_return() {
    let mut c = IntCodec::default();
    let mut b = buf(b"1\r\r\n");
    assert_eq!(c.decode(&mut b), Err(CodecError::InvalidData));
}

#[test]
fn decode_eof_reads_everything() {
    let mut c = IntCodec::default();
    let mut b = buf(b"99");
    assert_eq!(c.decode_eof(&mut b), Ok(Some(99)));
    assert!(b.is_empty());
    let mut e = buf(b"");
    assert_eq!(c.decode_eof(&mut e), Err(CodecError::InvalidData));
}

#[test]
fn encode_writes_digits_and_newline() {
    let mut c = IntCodec::default();
    let mut b = buf(b"x");
    assert_eq!(c.encode(1234, &mut b), Ok(()));
    assert_eq!(&b[..], b"x1234\n");
    let mut z = BytesMut::new();
    c.encode(0, &mut z).unwrap();
    assert_eq!(&z[..], b"0\n");
}

#[test]
fn encode_then_decode_gives_the_number_back() {
    let mut c = IntCodec::default();
    let mut b = BytesMut::with_capacity(64);
    for n in [0u64, 7, 10, 65535, u64::MAX] {
        assert_eq!(c.encode(n, &mut b), Ok(()));
    }
    for n in [0u64, 7, 10, 65535, u64::MAX] {
        assert_eq!(c.decode(&mut b), Ok(Some(n)));
    }
    assert!(b.is_empty());
}

#[test]
fn parse_u64_follows_str_parse() {
    for s in ["0", "007", "+5", "18446744073709551615", "", "+", "-1", "18446744073709551616", " 1", "1a", "++1"] {
        let want: Result<u64, CodecError> = s.parse::<u64>().map_err(|_| CodecError::InvalidData);
        assert_eq!(parse_u64(s.as_bytes()), want, "input {:?}", s);
    }
    assert_eq!(parse_u64(&[0xff, 0x31]), Err(CodecError::InvalidData));
}

#[test]
fn encode_stops_when_the_buffer_is_full() {
    let mut c = IntCodec::default();
    let mut b = BytesMut::with_capacity(8);
    let cap = b.capacity();
    let fill = vec![b'a'; cap - 5];
    b.extend_from_slice(&fill);
    assert_eq!(b.capacity() - b.len(), 5);
    assert_eq!(c.encode(123456789012, &mut b), Err(CodecError::WriteZero));
    assert_eq!(b.len(), cap);
    assert_eq!(&b[..cap - 5], &fill[..]);
    assert_eq!(&b[cap - 5..], b"12345");
}
