//! Framing of IRC lines, and the ping answering that sits on top of it.
pub mod line;

use bytes::BytesMut;
use vstd::prelude::*;
use vstd::utf8::{
    decode_utf8, encode_scalar, encode_utf8, encode_utf8_decode_utf8, encode_utf8_valid_utf8,
    has_width_1_encoding, is_scalar, valid_utf8,
};

use self::line::{
    from_str_panics, lemma_trim_end_idempotent, lemma_trim_end_prefix, parse_line, pong_text, Line,
    LineView,
};
use crate::buffer::{buf_bytes, buf_extend, buf_len, buf_split_to, contents};
use crate::error::CodecError;
use crate::seqs::{find_byte, first_index, lemma_first_index_concat};

verus! {

/// `std::str::from_utf8`: the bytes as a string slice when they are valid
/// UTF-8 (the slice then holds exactly these bytes), and nothing otherwise.
#[verifier::external_body]
fn str_from_utf8(v: &[u8]) -> (r: Option<&str>)
    ensures
        r is Some <==> valid_utf8(v@),
        r matches Some(s) ==> encode_utf8(s@) == v@,
{
    std::str::from_utf8(v).ok()
}

/// What a line of these bytes (without its `'\n'`) decodes to.
pub open spec fn line_frame(bytes: Seq<u8>) -> Result<LineView, CodecError> {
    if valid_utf8(bytes) {
        Ok(parse_line(decode_utf8(bytes)))
    } else {
        Err(CodecError::BadUtf8)
    }
}

/// The buffers on which decoding panics: their first complete line is
/// UTF-8 text on which reading a line panics (see `from_str_panics`).
pub open spec fn decode_panics(buf: Seq<u8>) -> bool {
    match first_index(buf, 10u8) {
        Some(i) => valid_utf8(buf.take(i)) && from_str_panics(decode_utf8(buf.take(i))),
        None => false,
    }
}

/// Frames IRC lines: each line ends with `'\n'`.
#[derive(Default)]
pub struct LineCodec;

impl LineCodec {
    /// Takes the first line, up to and including its `'\n'`, off the buffer
    /// and reads it as a `Line`; a trailing `'\r'` is whitespace that reading
    /// drops. Without a complete line it returns `Ok(None)` and leaves the
    /// buffer as it was.
    pub fn decode(&mut self, buf: &mut BytesMut) -> (r: Result<Option<Line>, CodecError>)
        requires
            !decode_panics(contents(*old(buf))),
        ensures
            match first_index(contents(*old(buf)), 10u8) {
                None => r matches Ok(None) && contents(*final(buf)) == contents(*old(buf)),
                Some(i) => {
                    &&& contents(*final(buf)) == contents(*old(buf)).skip(i + 1)
                    &&& match r {
                        Ok(Some(l)) => line_frame(contents(*old(buf)).take(i)) == Ok::<
                            LineView,
                            CodecError,
                        >(l@),
                        Ok(None) => false,
                        Err(e) => line_frame(contents(*old(buf)).take(i)) == Err::<
                            LineView,
                            CodecError,
                        >(e),
                    }
                },
            },
    {
        let ghost old_bytes = contents(*buf);
        match find_byte(buf_bytes(buf), 10u8) {
            None => Ok(None),
            Some(i) => {
                let line = buf_split_to(buf, i);
                let _newline = buf_split_to(buf, 1);
                assert(contents(line) =~= old_bytes.take(i as int));
                assert(contents(*buf) =~= old_bytes.skip(i + 1));
                match str_from_utf8(buf_bytes(&line)) {
                    Some(s) => {
                        proof {
                            encode_utf8_decode_utf8(s@);
                        }
                        Ok(Some(Line::from_str(s)))
                    },
                    None => Err(CodecError::BadUtf8),
                }
            },
        }
    }

    /// Whether decoding this buffer panics (see `decode_panics`).
    pub fn decode_panics(&self, buf: &BytesMut) -> (r: bool)
        ensures
            r == decode_panics(contents(*buf)),
    {
        let bytes = buf_bytes(buf);
        match find_byte(bytes, 10u8) {
            None => false,
            Some(i) => {
                let mut head: Vec<u8> = Vec::new();
                let mut k: usize = 0;
                while k < i
                    invariant
                        i < bytes@.len(),
                        k <= i,
                        head@ == bytes@.take(k as int),
                    decreases i - k,
                {
                    head.push(bytes[k]);
                    k = k + 1;
                    assert(head@ =~= bytes@.take(k as int));
                }
                match str_from_utf8(head.as_slice()) {
                    Some(s) => {
                        proof {
                            encode_utf8_decode_utf8(s@);
                        }
                        Line::panics_on(s)
                    },
                    None => false,
                }
            },
        }
    }

    /// Whether the buffer can take the line's frame: its length stays within
    /// `isize::MAX` bytes, beyond which growing the buffer panics.
    pub fn has_room(&self, line: &Line, buf: &BytesMut) -> (r: bool)
        ensures
            r == (contents(*buf).len() + encode_utf8(line@.orig()).len() + 1 <= isize::MAX),
    {
        let text = line.to_string();
        let n = buf_len(buf);
        let m = text.as_str().as_bytes().len();
        let max = isize::MAX as usize;
        n <= max && m < max - n
    }

    /// Appends the line's text and a `'\n'` to the buffer.
    pub fn encode(&mut self, line: Line, buf: &mut BytesMut) -> (r: Result<(), CodecError>)
        requires
            contents(*old(buf)).len() + encode_utf8(line@.orig()).len() + 1 <= isize::MAX,
        ensures
            r is Ok,
            contents(*final(buf)) == contents(*old(buf)) + encode_utf8(line@.orig()) + seq![10u8],
    {
        let text = line.to_string();
        buf_extend(buf, text.as_str().as_bytes());
        let mut newline: Vec<u8> = Vec::new();
        newline.push(10u8);
        buf_extend(buf, newline.as_slice());
        assert(newline@ =~= seq![10u8]);
        Ok(())
    }
}

/// Answers the server's pings on a line transport, and holds back other
/// outgoing lines while an answer waits to be sent.
pub struct PingPong<T> {
    upstream: T,
    response: Option<Line>,
}

impl<T> PingPong<T> {
    /// The transport that the lines come from and go to.
    pub closed spec fn transport(&self) -> T {
        self.upstream
    }

    /// The answer to a ping that waits to be sent, if any.
    pub closed spec fn pending(&self) -> Option<LineView> {
        match self.response {
            Some(l) => Some(l@),
            None => None,
        }
    }

    /// Wraps a transport; no answer waits.
    pub fn new(t: T) -> (p: Self)
        ensures
            p.transport() == t,
            p.pending() is None,
    {
        PingPong { upstream: t, response: None }
    }

    /// The wrapped transport, to poll it and send on it.
    pub fn upstream_mut(&mut self) -> (t: &mut T)
        ensures
            *t == old(self).transport(),
            final(self).transport() == *final(t),
            final(self).pending() == old(self).pending(),
    {
        &mut self.upstream
    }

    /// Decides on each line polled from the transport. A ping is answered:
    /// its pong waits to be sent, and `None` tells the caller to flush it and
    /// poll again; pings are never passed on. Anything else (the end of the
    /// stream too) is passed on.
    pub fn on_polled(&mut self, item: Option<Line>) -> (r: Option<Option<Line>>)
        ensures
            final(self).transport() == old(self).transport(),
            match item {
                Some(l) => match l@ {
                    LineView::Ping { orig } => {
                        &&& r is None
                        &&& final(self).pending() == Some(LineView::Ping { orig: pong_text(orig) })
                    },
                    _ => r == Some(item) && final(self).pending() == old(self).pending(),
                },
                None => r == Some(item) && final(self).pending() == old(self).pending(),
            },
    {
        match item {
            Some(Line::Ping { orig }) => {
                self.response = Some(Line::pong_from_ping(orig.as_str()));
                None
            },
            other => Some(other),
        }
    }

    /// Whether an outgoing line can be handed to the transport now: not
    /// while an answer to a ping waits.
    pub fn accepts_send(&self) -> (r: bool)
        ensures
            r == (self.pending() is None),
    {
        self.response.is_none()
    }

    /// Keeps an answer that the transport refused, to send it at the next flush.
    pub fn keep_response(&mut self, pong: Line)
        requires
            old(self).pending() is None,
        ensures
            final(self).transport() == old(self).transport(),
            final(self).pending() == Some(pong@),
    {
        self.response = Some(pong);
    }

    /// Takes the waiting answer, to send it before the transport is flushed.
    pub fn take_response(&mut self) -> (r: Option<Line>)
        ensures
            final(self).transport() == old(self).transport(),
            final(self).pending() is None,
            match r {
                Some(l) => old(self).pending() == Some(l@),
                None => old(self).pending() is None,
            },
    {
        self.response.take()
    }
}

proof fn lemma_multibyte_not_newline(u: u32)
    by (bit_vector)
    ensures
        (0xC0u8 | ((u >> 6u32) & 0x1Fu32) as u8) != 10u8,
        (0xE0u8 | ((u >> 12u32) & 0x0Fu32) as u8) != 10u8,
        (0xF0u8 | ((u >> 18u32) & 0x7u32) as u8) != 10u8,
        (0x80u8 | (u & 0x3Fu32) as u8) != 10u8,
        (0x80u8 | ((u >> 6u32) & 0x3Fu32) as u8) != 10u8,
        (0x80u8 | ((u >> 12u32) & 0x3Fu32) as u8) != 10u8,
{
}

proof fn lemma_ascii_byte(u: u32)
    by (bit_vector)
    requires
        u <= 0x7F,
    ensures
        (u & 0x7Fu32) as u8 == u,
{
}

/// A character other than `'\n'` is encoded without the byte 10.
proof fn lemma_encode_scalar_no_newline(u: u32)
    requires
        is_scalar(u),
        u != 10,
    ensures
        forall|k: int| 0 <= k < encode_scalar(u).len() ==> encode_scalar(u)[k] != 10u8,
{
    lemma_multibyte_not_newline(u);
    if has_width_1_encoding(u) {
        lemma_ascii_byte(u);
    }
}

/// Text without `'\n'` is encoded without the byte 10.
pub proof fn lemma_encode_no_newline(chars: Seq<char>)
    requires
        !chars.contains('\n'),
    ensures
        forall|k: int| 0 <= k < encode_utf8(chars).len() ==> encode_utf8(chars)[k] != 10u8,
    decreases chars.len(),
{
    if chars.len() > 0 {
        let c = chars[0];
        assert(c != '\n');
        vstd::utf8::char_is_scalar(c);
        assert((c as u32) != 10u32) by {
            if (c as u32) == 10u32 {
                vstd::utf8::char_u32_cast(c, c as u32);
                vstd::utf8::char_u32_cast('\n', '\n' as u32);
                assert(('\n' as u32) == 10u32);
            }
        }
        lemma_encode_scalar_no_newline(c as u32);
        let rest = chars.drop_first();
        assert(!rest.contains('\n')) by {
            if rest.contains('\n') {
                let j = choose|j: int| 0 <= j < rest.len() && rest[j] == '\n';
                assert(chars[j + 1] == '\n');
            }
        }
        lemma_encode_no_newline(rest);
        let e = encode_utf8(chars);
        let h = encode_scalar(c as u32);
        assert(e == h + encode_utf8(rest));
        assert forall|k: int| 0 <= k < e.len() implies e[k] != 10u8 by {
            if k < h.len() {
                assert(e[k] == h[k]);
            } else {
                assert(e[k] == encode_utf8(rest)[k - h.len()]);
            }
        }
    }
}

/// Decoding refuses a line only when it is not UTF-8: every line of UTF-8
/// text is read as a `Line` (a private message ending in `"\r"` too, since
/// reading drops trailing whitespace).
pub proof fn lemma_line_frame_accepts_utf8(bytes: Seq<u8>)
    ensures
        line_frame(bytes) is Err <==> !valid_utf8(bytes),
        line_frame(bytes) is Err ==> line_frame(bytes) == Err::<LineView, CodecError>(
            CodecError::BadUtf8,
        ),
        valid_utf8(bytes) ==> line_frame(bytes) == Ok::<LineView, CodecError>(
            parse_line(decode_utf8(bytes)),
        ),
{
}

/// Reading the text that a line holds gives that line again.
pub proof fn lemma_reparse(s: Seq<char>)
    requires
        !from_str_panics(s),
    ensures
        !from_str_panics(parse_line(s).orig()),
        parse_line(parse_line(s).orig()) == parse_line(s),
{
    lemma_trim_end_idempotent(s);
}

/// A line that the encoder wrote is decoded to the line it holds (for a
/// line read from text without `'\n'`), and the bytes after it are left for
/// the next line.
pub proof fn lemma_line_frame_roundtrip(s: Seq<char>, rest: Seq<u8>)
    requires
        !s.contains('\n'),
        !from_str_panics(s),
    ensures
        ({
            let l = parse_line(s);
            let e = encode_utf8(l.orig());
            let bytes = e + seq![10u8] + rest;
            &&& first_index(bytes, 10u8) == Some(e.len() as int)
            &&& !decode_panics(bytes)
            &&& line_frame(bytes.take(e.len() as int)) == Ok::<LineView, CodecError>(l)
            &&& bytes.skip(e.len() as int + 1) == rest
        }),
{
    let l = parse_line(s);
    let o = l.orig();
    lemma_trim_end_prefix(s);
    assert(!o.contains('\n')) by {
        if o.contains('\n') {
            let j = choose|j: int| 0 <= j < o.len() && o[j] == '\n';
            assert(s[j] == '\n');
        }
    }
    let e = encode_utf8(o);
    lemma_encode_no_newline(o);
    lemma_first_index_concat(e, 10u8, rest);
    let bytes = e + seq![10u8] + rest;
    assert(bytes.take(e.len() as int) =~= e);
    assert(bytes.skip(e.len() as int + 1) =~= rest);
    encode_utf8_valid_utf8(o);
    encode_utf8_decode_utf8(o);
    lemma_reparse(s);
}

} // verus!
