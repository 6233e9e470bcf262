//! A codec of newline-terminated decimal numbers.
use bytes::{BufMut, BytesMut};
use std::io::Write;
use vstd::prelude::*;

use crate::buffer::{buf_bytes, buf_len, buf_split_to, contents};
use crate::error::CodecError;
use crate::seqs::{find_byte, first_index, lemma_first_index_concat};

verus! {

/// The ASCII digits `'0'..='9'`.
pub open spec fn is_digit(b: u8) -> bool {
    48 <= b && b <= 57
}

/// Every byte of `s` is an ASCII digit.
pub open spec fn all_digits(s: Seq<u8>) -> bool {
    forall|i: int| 0 <= i < s.len() ==> is_digit(#[trigger] s[i])
}

/// The number that a string of ASCII digits writes in base ten.
pub open spec fn digits_value(s: Seq<u8>) -> nat
    decreases s.len(),
{
    if s.len() == 0 {
        0
    } else {
        digits_value(s.drop_last()) * 10 + (s.last() - 48) as nat
    }
}

/// The bytes after an optional leading `'+'`.
pub open spec fn unsigned_part(s: Seq<u8>) -> Seq<u8> {
    if s.len() > 0 && s[0] == 43 {
        s.drop_first()
    } else {
        s
    }
}

/// What `str::parse::<u64>` gives for these bytes: an optional `'+'`
/// followed by at least one digit, and a value that fits in a `u64`.
/// Bytes that are not UTF-8 are never of that form.
pub open spec fn spec_parse_u64(s: Seq<u8>) -> Option<u64> {
    let d = unsigned_part(s);
    if d.len() > 0 && all_digits(d) && digits_value(d) <= u64::MAX {
        Some(digits_value(d) as u64)
    } else {
        None
    }
}

/// The base-ten ASCII digits of `n`, without leading zeros.
pub open spec fn decimal(n: nat) -> Seq<u8>
    decreases n,
{
    if n < 10 {
        seq![(n + 48) as u8]
    } else {
        decimal(n / 10).push((n % 10 + 48) as u8)
    }
}

/// A line without its trailing carriage return, if it has one.
pub open spec fn strip_cr(line: Seq<u8>) -> Seq<u8> {
    if line.len() > 0 && line.last() == 13 {
        line.drop_last()
    } else {
        line
    }
}

/// What a frame of these bytes decodes to.
pub open spec fn number_frame(bytes: Seq<u8>) -> Result<Option<u64>, CodecError> {
    match spec_parse_u64(bytes) {
        Some(v) => Ok(Some(v)),
        None => Err(CodecError::InvalidData),
    }
}

proof fn lemma_digits_value_prefix(s: Seq<u8>, k: int)
    requires
        0 <= k <= s.len(),
        all_digits(s),
    ensures
        digits_value(s.take(k)) <= digits_value(s),
    decreases s.len(),
{
    if k == s.len() {
        assert(s.take(k) =~= s);
    } else {
        let t = s.drop_last();
        assert(all_digits(t)) by {
            assert forall|i: int| 0 <= i < t.len() implies is_digit(#[trigger] t[i]) by {
                assert(t[i] == s[i]);
            }
        }
        lemma_digits_value_prefix(t, k);
        assert(t.take(k) =~= s.take(k));
    }
}

proof fn lemma_digits_value_step(s: Seq<u8>, k: int)
    requires
        0 <= k < s.len(),
    ensures
        digits_value(s.take(k + 1)) == digits_value(s.take(k)) * 10 + (s[k] - 48) as nat,
{
    assert(s.take(k + 1).drop_last() =~= s.take(k));
}

/// Facts about `decimal`: its bytes are digits, it is not empty, it does not
/// start with `'+'`, and its digits write `n`.
pub proof fn lemma_decimal(n: nat)
    ensures
        decimal(n).len() > 0,
        all_digits(decimal(n)),
        decimal(n)[0] != 43,
        digits_value(decimal(n)) == n,
        !decimal(n).contains(10),
        decimal(n).last() != 13,
        n > 0 ==> decimal(n)[0] != 48,
    decreases n,
{
    if n >= 10 {
        lemma_decimal(n / 10);
        let d = decimal(n / 10);
        let e = d.push((n % 10 + 48) as u8);
        assert(e[0] == d[0]);
        assert(e.drop_last() =~= d);
        assert(all_digits(e)) by {
            assert forall|i: int| 0 <= i < e.len() implies is_digit(#[trigger] e[i]) by {
                if i < d.len() {
                    assert(e[i] == d[i]);
                }
            }
        }
        assert(!e.contains(10)) by {
            if e.contains(10) {
                let i = choose|i: int| 0 <= i < e.len() && e[i] == 10;
                assert(is_digit(e[i]));
            }
        }
        assert(e.last() == (n % 10 + 48) as u8);
        assert(((n % 10 + 48) as u8 - 48) as nat == n % 10);
        assert(digits_value(e) == digits_value(d) * 10 + n % 10);
        assert(n == (n / 10) * 10 + n % 10);
    } else {
        assert(decimal(n).drop_last() =~= Seq::<u8>::empty());
        assert(decimal(n).last() == (n + 48) as u8);
        assert(((n + 48) as u8 - 48) as nat == n);
        assert(digits_value(decimal(n)) == digits_value(Seq::<u8>::empty()) * 10 + n);
        assert(!decimal(n).contains(10)) by {
            if decimal(n).contains(10) {
                let i = choose|i: int| 0 <= i < decimal(n).len() && decimal(n)[i] == 10;
                assert(i == 0);
            }
        }
    }
}

/// Parsing accepts only an optional `'+'` followed by one or more ASCII
/// digits.
pub proof fn lemma_parse_u64_accepts(s: Seq<u8>)
    ensures
        spec_parse_u64(s) is Some ==> {
            &&& s.len() > 0
            &&& forall|i: int|
                0 <= i < s.len() ==> (48 <= #[trigger] s[i] <= 57 || (i == 0 && s[i] == 43
                    && s.len() > 1))
        },
{
    if spec_parse_u64(s) is Some {
        let d = unsigned_part(s);
        assert forall|i: int| 0 <= i < s.len() implies (48 <= #[trigger] s[i] <= 57 || (i == 0
            && s[i] == 43 && s.len() > 1)) by {
            if s.len() > 0 && s[0] == 43 {
                if i > 0 {
                    assert(s[i] == d[i - 1]);
                    assert(is_digit(d[i - 1]));
                }
            } else {
                assert(is_digit(d[i]));
            }
        }
    }
}

/// How digits are read: a single digit gives its value; one more digit
/// multiplies the value by ten and adds the digit, as long as the result
/// fits in a `u64` (and once it does not fit, no more digits make it fit);
/// a leading `'+'` changes nothing.
pub proof fn lemma_parse_u64_digits(s: Seq<u8>, d: u8)
    requires
        48 <= d <= 57,
        s.len() > 0,
        forall|i: int| 0 <= i < s.len() ==> 48 <= #[trigger] s[i] <= 57,
    ensures
        spec_parse_u64(seq![d]) == Some((d - 48) as u64),
        spec_parse_u64(s.push(d)) == match spec_parse_u64(s) {
            Some(v) => if v * 10 + (d - 48) <= u64::MAX {
                Some((v * 10 + (d - 48)) as u64)
            } else {
                None
            },
            None => None,
        },
        spec_parse_u64(seq![43u8] + s) == spec_parse_u64(s),
{
    let one = seq![d];
    assert(one.drop_last() =~= Seq::<u8>::empty());
    assert(all_digits(one));
    assert(unsigned_part(one) == one);
    assert(digits_value(one) == digits_value(Seq::<u8>::empty()) * 10 + (d - 48) as nat);
    assert(digits_value(one) <= u64::MAX);
    let t = s.push(d);
    assert(t.drop_last() =~= s);
    assert(unsigned_part(s) == s);
    assert(unsigned_part(t) == t);
    assert(all_digits(s));
    assert(all_digits(t)) by {
        assert forall|i: int| 0 <= i < t.len() implies is_digit(#[trigger] t[i]) by {
            if i < s.len() {
                assert(t[i] == s[i]);
            }
        }
    }
    assert(digits_value(t) == digits_value(s) * 10 + (d - 48) as nat);
    assert((seq![43u8] + s).drop_first() =~= s);
}

/// A frame is refused, as invalid data, exactly when its bytes do not parse.
pub proof fn lemma_number_frame(bytes: Seq<u8>)
    ensures
        number_frame(bytes) is Err <==> spec_parse_u64(bytes) is None,
        number_frame(bytes) is Err ==> number_frame(bytes) == Err::<Option<u64>, CodecError>(
            CodecError::InvalidData,
        ),
        spec_parse_u64(bytes) matches Some(v) ==> number_frame(bytes) == Ok::<
            Option<u64>,
            CodecError,
        >(Some(v)),
{
}

/// A line's trailing carriage return, and only that one, is dropped.
pub proof fn lemma_strip_cr(l: Seq<u8>)
    ensures
        strip_cr(l.push(13u8)) == l,
        (l.len() == 0 || l.last() != 13) ==> strip_cr(l) == l,
{
    assert(l.push(13u8).drop_last() =~= l);
}

/// Parsing the decimal digits of a number gives the number back.
pub proof fn lemma_parse_decimal(n: u64)
    ensures
        spec_parse_u64(decimal(n as nat)) == Some(n),
{
    lemma_decimal(n as nat);
}

/// A frame that the encoder wrote is decoded to the number it holds, and the
/// bytes after it are left for the next frame.
pub proof fn lemma_int_frame_roundtrip(n: u64, rest: Seq<u8>)
    ensures
        ({
            let s = number_line(n) + rest;
            let len = decimal(n as nat).len() as int;
            &&& first_index(s, 10u8) == Some(len)
            &&& number_frame(strip_cr(s.take(len))) == Ok::<Option<u64>, CodecError>(Some(n))
            &&& s.skip(len + 1) == rest
        }),
{
    let d = decimal(n as nat);
    let s = d + seq![10u8] + rest;
    assert(number_line(n) + rest =~= s);
    lemma_decimal(n as nat);
    assert forall|j: int| 0 <= j < d.len() implies d[j] != 10u8 by {
        if d[j] == 10u8 {
            assert(d.contains(10));
        }
    }
    lemma_first_index_concat(d, 10u8, rest);
    assert(s.take(d.len() as int) =~= d);
    assert(s.skip(d.len() as int + 1) =~= rest);
    lemma_parse_decimal(n);
}

/// Reads an optional `'+'` and then decimal digits as a `u64`, as
/// `str::parse::<u64>` does; any other input is invalid data.
pub fn parse_u64(from: &[u8]) -> (r: Result<u64, CodecError>)
    ensures
        r == match spec_parse_u64(from@) {
            Some(v) => Ok(v),
            None => Err(CodecError::InvalidData),
        },
{
    let n = from.len();
    let mut start: usize = 0;
    if n > 0 && from[0] == 43 {
        start = 1;
    }
    let ghost d = unsigned_part(from@);
    assert(d =~= from@.subrange(start as int, n as int));
    if start == n {
        return Err(CodecError::InvalidData);
    }
    let mut acc: u64 = 0;
    let mut i: usize = start;
    assert(d.take(0) =~= Seq::<u8>::empty());
    while i < n
        invariant
            n == from@.len(),
            start <= i <= n,
            start < n,
            d =~= from@.subrange(start as int, n as int),
            d == unsigned_part(from@),
            acc as nat == digits_value(d.take(i - start)),
            forall|j: int| 0 <= j < i - start ==> is_digit(#[trigger] d[j]),
        decreases n - i,
    {
        let b = from[i];
        assert(b == d[i - start]);
        if b < 48 || b > 57 {
            assert(!all_digits(d)) by {
                assert(!is_digit(d[i - start]));
            }
            return Err(CodecError::InvalidData);
        }
        let digit: u64 = (b - 48) as u64;
        proof {
            lemma_digits_value_step(d, i - start);
        }
        match acc.checked_mul(10) {
            None => {
                proof {
                    if all_digits(d) {
                        lemma_digits_value_prefix(d, i - start + 1);
                    }
                }
                return Err(CodecError::InvalidData);
            },
            Some(m) => match m.checked_add(digit) {
                None => {
                    proof {
                        if all_digits(d) {
                            lemma_digits_value_prefix(d, i - start + 1);
                        }
                    }
                    return Err(CodecError::InvalidData);
                },
                Some(v) => {
                    acc = v;
                },
            },
        }
        i = i + 1;
    }
    assert(d.take(n - start) =~= d);
    Ok(acc)
}

/// The frame that encodes `n`: its decimal digits and a `'\n'`.
pub open spec fn number_line(n: u64) -> Seq<u8> {
    decimal(n as nat) + seq![10u8]
}

/// `std::io::Error`, which writing into a buffer can report.
#[verifier::external_type_specification]
#[verifier::external_body]
pub struct ExIoError(std::io::Error);

/// `into.writer().write_all(bytes)`: `bytes`' `Writer` never grows the
/// buffer; each `write` copies as many bytes as the spare capacity holds
/// and reports that count, and `write_all` stops with an error when it
/// reports none. So a prefix of `bytes` is appended, all of them exactly when
/// the call succeeds; how long a prefix depends on the capacity, which is
/// not stated.
#[verifier::external_body]
fn write_all_into(into: &mut BytesMut, bytes: &[u8]) -> (r: Result<(), std::io::Error>)
    ensures
        contents(*old(into)).len() <= contents(*final(into)).len() <= contents(*old(into)).len()
            + bytes@.len(),
        contents(*final(into)) == contents(*old(into)) + bytes@.take(
            contents(*final(into)).len() - contents(*old(into)).len(),
        ),
        r is Ok <==> contents(*final(into)) == contents(*old(into)) + bytes@,
{
    into.writer().write_all(bytes)
}

/// Appends the decimal digits of `n` to `out`.
fn write_decimal(n: u64, out: &mut Vec<u8>)
    ensures
        final(out)@ == old(out)@ + decimal(n as nat),
    decreases n,
{
    if n >= 10 {
        write_decimal(n / 10, out);
    }
    out.push((n % 10 + 48) as u8);
    assert(final(out)@ =~= old(out)@ + decimal(n as nat));
}

/// Frames `u64`s as lines of decimal digits.
#[derive(Default)]
pub struct IntCodec;

impl IntCodec {
    /// Takes the first line, up to and including its `'\n'`, off the buffer
    /// and reads it, without a trailing `'\r'`, as a number. Without a
    /// complete line it returns `Ok(None)` and leaves the buffer as it was.
    pub fn decode(&mut self, buf: &mut BytesMut) -> (r: Result<Option<u64>, CodecError>)
        ensures
            match first_index(contents(*old(buf)), 10u8) {
                None => {
                    &&& r == Ok::<Option<u64>, CodecError>(None)
                    &&& contents(*final(buf)) == contents(*old(buf))
                },
                Some(i) => {
                    &&& r == number_frame(strip_cr(contents(*old(buf)).take(i)))
                    &&& contents(*final(buf)) == contents(*old(buf)).skip(i + 1)
                },
            },
    {
        let n = buf_len(buf);
        let found = find_byte(buf_bytes(buf), 10u8);
        match found {
            None => Ok(None),
            Some(i) => {
                let ghost old_bytes = contents(*buf);
                let full_line = buf_split_to(buf, i + 1);
                let line = buf_bytes(&full_line);
                assert(line@.len() == i + 1);
                let mut end = i;
                if i >= 1 && line[i - 1] == 13 {
                    end = i - 1;
                }
                let mut slice: Vec<u8> = Vec::new();
                let mut k: usize = 0;
                while k < end
                    invariant
                        end <= i,
                        line@ == old_bytes.take(i + 1),
                        line@.len() == i + 1,
                        k <= end,
                        slice@ == line@.take(k as int),
                    decreases end - k,
                {
                    slice.push(line[k]);
                    k = k + 1;
                    assert(slice@ =~= line@.take(k as int));
                }
                assert(slice@ =~= strip_cr(old_bytes.take(i as int)));
                assert(contents(*buf) =~= old_bytes.skip(i + 1));
                match parse_u64(slice.as_slice()) {
                    Ok(v) => Ok(Some(v)),
                    Err(e) => Err(e),
                }
            },
        }
    }

    /// Takes everything off the buffer and reads it as a number: at the end
    /// of the input the last frame needs no `'\n'`.
    pub fn decode_eof(&mut self, buf: &mut BytesMut) -> (r: Result<Option<u64>, CodecError>)
        ensures
            r == number_frame(contents(*old(buf))),
            contents(*final(buf)) == Seq::<u8>::empty(),
    {
        let amt = buf_len(buf);
        let all = buf_split_to(buf, amt);
        assert(contents(all) =~= contents(*old(buf)));
        assert(contents(*buf) =~= Seq::<u8>::empty());
        match parse_u64(buf_bytes(&all)) {
            Ok(v) => Ok(Some(v)),
            Err(e) => Err(e),
        }
    }

    /// Writes the decimal digits of `item` and a `'\n'` into the buffer's
    /// spare capacity, which is not grown. All of the frame is appended and
    /// `Ok` returned, or, when the room runs out, the part that fits is
    /// appended and `WriteZero` returned.
    pub fn encode(&mut self, item: u64, into: &mut BytesMut) -> (r: Result<(), CodecError>)
        ensures
            contents(*old(into)).len() <= contents(*final(into)).len() <= contents(*old(into)).len()
                + number_line(item).len(),
            contents(*final(into)) == contents(*old(into)) + number_line(item).take(
                contents(*final(into)).len() - contents(*old(into)).len(),
            ),
            r is Ok <==> contents(*final(into)) == contents(*old(into)) + number_line(item),
            r is Err ==> r == Err::<(), CodecError>(CodecError::WriteZero),
    {
        let mut frame: Vec<u8> = Vec::new();
        write_decimal(item, &mut frame);
        frame.push(10u8);
        assert(frame@ =~= number_line(item));
        match write_all_into(into, frame.as_slice()) {
            Ok(()) => Ok(()),
            Err(_) => Err(CodecError::WriteZero),
        }
    }
}

} // verus!
