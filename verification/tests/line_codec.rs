use bounce::codec::line::Line;
use bounce::codec::{LineCodec, PingPong};
use bounce::error::CodecError;
use bytes::BytesMut;

#[test]
fn decode_reads_a_line_and_keeps_the_rest() {
    let mut c = LineCodec::default();
    let mut b = BytesMut::from(&b"PING :x\r\nrest"[..]);
    match c.decode(&mut b) {
        Ok(Some(Line::Ping { orig })) => assert_eq!(orig, "PING :x"),
        other => panic!("{:?}", other),
    }
    assert_eq!(&b[..], b"rest");
    assert!(matches!(c.decode(&mut b), Ok(None)));
    assert_eq!(&b[..], b"rest");
}

#[test]
fn decode_refuses_bad_utf8() {
    let mut c = LineCodec::default();
    let mut b = BytesMut::from(&b"\xff\xfe\nNICK x\n"[..]);
    assert!(matches!(c.decode(&mut b), Err(CodecError::BadUtf8)));
    assert_eq!(&b[..], b"NICK x\n");
    match c.decode(&mut b) {
        Ok(Some(Line::Meta { orig })) => assert_eq!(orig, "NICK x"),
        other => panic!("{:?}", other),
    }
}

#[test]
fn decode_reads_unicode() {
    let mut c = LineCodec::default();
    let mut b = BytesMut::from(":é!u PRIVMSG #c :ünï\n".as_bytes());
    match c.decode(&mut b) {
        Ok(Some(Line::PrivMsg { src, text, .. })) => {
            assert_eq!(src, "é");
            assert_eq!(text, "ünï");
        }
        other => panic!("{:?}", other),
    }
}

#[test]
fn decode_panics_flags_the_bad_prefix() {
    let c = LineCodec::default();
    assert!(c.decode_panics(&BytesMut::from(&b": PRIVMSG a b\nok\n"[..])));
    assert!(!c.decode_panics(&BytesMut::from(&b": PRIVMSG a b"[..])));
    assert!(!c.decode_panics(&BytesMut::from(&b"\xff\n"[..])));
    assert!(!c.decode_panics(&BytesMut::from(&b"PING x\n"[..])));
}

#[test]
fn encode_then_decode_gives_the_line_back() {
    let mut c = LineCodec::default();
    let mut b = BytesMut::new();
    c.encode(Line::from_str(":n!u PRIVMSG #c :hé  "), &mut b).unwrap();
    c.encode(Line::new_meta("JOIN #c"), &mut b).unwrap();
    assert_eq!(&b[..], ":n!u PRIVMSG #c :hé\nJOIN #c\n".as_bytes());
    match c.decode(&mut b) {
        Ok(Some(l)) => assert_eq!(
            format!("{:?}", l),
            format!("{:?}", Line::from_str(":n!u PRIVMSG #c :hé"))
        ),
        other => panic!("{:?}", other),
    }
    match c.decode(&mut b) {
        Ok(Some(Line::Meta { orig })) => assert_eq!(orig, "JOIN #c"),
        other => panic!("{:?}", other),
    }
}

#[test]
fn ping_pong_answers_a_ping_before_sending_more() {
    let mut p = PingPong::new(vec![1u8]);
    assert!(p.accepts_send());
    assert!(p.on_polled(Some(Line::new_ping("PING :srv"))).is_none());
    assert!(!p.accepts_send());
    match p.take_response() {
        Some(Line::Ping { orig }) => assert_eq!(orig, "PONG :srv"),
        other => panic!("{:?}", other),
    }
    assert!(p.accepts_send());
    assert!(p.take_response().is_none());
    assert_eq!(p.upstream_mut(), &mut vec![1u8]);
}

#[test]
fn ping_pong_passes_other_lines_on() {
    let mut p = PingPong::new(());
    match p.on_polled(Some(Line::new_meta("NOTICE x"))) {
        Some(Some(Line::Meta { orig })) => assert_eq!(orig, "NOTICE x"),
        other => panic!("{:?}", other),
    }
    assert!(matches!(p.on_polled(None), Some(None)));
    assert!(p.accepts_send());
}

#[test]
fn has_room_for_an_ordinary_line() {
    let c = LineCodec::default();
    assert!(c.has_room(&Line::new_meta("NICK x"), &BytesMut::from(&b"abc"[..])));
}

#[test]
fn ping_pong_keeps_a_refused_answer() {
    let mut p = PingPong::new(());
    assert!(p.on_polled(Some(Line::new_ping("PING a"))).is_none());
    let pong = p.take_response().unwrap();
    assert!(p.accepts_send());
    p.keep_response(pong);
    assert!(!p.accepts_send());
    match p.take_response() {
        Some(Line::Ping { orig }) => assert_eq!(orig, "PONG a"),
        other => panic!("{:?}", other),
    }
}

#[test]
fn ping_pong_swallows_every_ping() {
    let mut p = PingPong::new(());
    assert!(p.on_polled(Some(Line::new_ping("PING a"))).is_none());
    p.take_response();
    assert!(p.on_polled(Some(Line::new_ping("PING b"))).is_none());
    match p.take_response() {
        Some(Line::Ping { orig }) => assert_eq!(orig, "PONG b"),
        other => panic!("{:?}", other),
    }
}
