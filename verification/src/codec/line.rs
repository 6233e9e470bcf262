//! IRC lines as the bouncer sees them: private messages, pings and the rest.
use vstd::prelude::*;

use crate::seqs::{first_index, is_first_index, lemma_first_index_found, lemma_first_index_is_first};
use crate::text::{
    contains_run, find_char, find_run, first_occurrence, is_first_occurrence, is_whitespace,
    lemma_first_occurrence_found,
    is_ws, occurs_at, run_is, string_of, to_chars,
};

verus! {

/// A line received from or sent to an IRC server.
#[derive(Debug)]
pub enum Line {
    /// A `PRIVMSG`; these are logged and sometimes raise alerts.
    PrivMsg { src: String, dst: String, text: String, orig: String },
    /// Any other line; it is passed on but not logged.
    Meta { orig: String },
    /// A `PING`, which must be answered and is neither logged nor passed on.
    Ping { orig: String },
}

/// The characters that a `Line` holds.
pub enum LineView {
    PrivMsg { src: Seq<char>, dst: Seq<char>, text: Seq<char>, orig: Seq<char> },
    Meta { orig: Seq<char> },
    Ping { orig: Seq<char> },
}

impl LineView {
    /// The text of the line as it was received.
    pub open spec fn orig(self) -> Seq<char> {
        match self {
            LineView::PrivMsg { orig, .. } => orig,
            LineView::Meta { orig } => orig,
            LineView::Ping { orig } => orig,
        }
    }
}

impl View for Line {
    type V = LineView;

    open spec fn view(&self) -> LineView {
        match self {
            Line::PrivMsg { src, dst, text, orig } => LineView::PrivMsg {
                src: src@,
                dst: dst@,
                text: text@,
                orig: orig@,
            },
            Line::Meta { orig } => LineView::Meta { orig: orig@ },
            Line::Ping { orig } => LineView::Ping { orig: orig@ },
        }
    }
}

/// `s` without its trailing whitespace, as `str::trim_end` gives it.
pub open spec fn trim_end(s: Seq<char>) -> Seq<char>
    decreases s.len(),
{
    if s.len() > 0 && is_whitespace(s.last()) {
        trim_end(s.drop_last())
    } else {
        s
    }
}

/// The text before the first space, and the text after it if there is one.
pub open spec fn split_space(s: Seq<char>) -> (Seq<char>, Option<Seq<char>>) {
    match first_index(s, ' ') {
        Some(k) => (s.take(k), Some(s.skip(k + 1))),
        None => (s, None),
    }
}

/// The parts that `str::splitn(4, ' ')` yields: three space-separated words
/// and the rest of the line, as far as the line has them.
pub open spec fn fields(s: Seq<char>) -> (Seq<char>, Option<Seq<char>>, Option<Seq<char>>, Option<Seq<char>>) {
    let (a, r1) = split_space(s);
    match r1 {
        None => (a, None, None, None),
        Some(r1) => {
            let (b, r2) = split_space(r1);
            match r2 {
                None => (a, Some(b), None, None),
                Some(r2) => {
                    let (c, r3) = split_space(r2);
                    match r3 {
                        None => (a, Some(b), Some(c), None),
                        Some(r3) => (a, Some(b), Some(c), Some(r3)),
                    }
                },
            }
        },
    }
}

/// The word `PRIVMSG`.
pub open spec fn privmsg_word() -> Seq<char> {
    seq!['P', 'R', 'I', 'V', 'M', 'S', 'G']
}

/// The word `PING`.
pub open spec fn ping_word() -> Seq<char> {
    seq!['P', 'I', 'N', 'G']
}

/// The sender's nick in a message prefix: after a leading `':'`, up to the
/// first `'!'`; without a `'!'`, up to (not including) the prefix's last character.
pub open spec fn source_nick(prefix: Seq<char>) -> Seq<char> {
    let i: int = if prefix.len() > 0 && prefix[0] == ':' {
        1
    } else {
        0
    };
    let j: int = match first_index(prefix, '!') {
        Some(k) => k,
        None => prefix.len() - 1,
    };
    prefix.subrange(i, j)
}

/// A message's text without its leading `':'`.
pub open spec fn message_text(m: Seq<char>) -> Seq<char> {
    if m.len() > 0 && m[0] == ':' {
        m.drop_first()
    } else {
        m
    }
}

/// The trimmed line has the shape `prefix PRIVMSG target message`.
pub open spec fn is_privmsg_shape(t: Seq<char>) -> bool {
    let (a, b, c, d) = fields(t);
    b == Some(privmsg_word()) && c is Some && d is Some
}

/// The inputs on which reading a line panics: a `PRIVMSG` whose prefix has no
/// `'!'` and is empty, is the lone `":"`, or ends in a character that takes
/// more than one byte (the prefix is cut one byte before its end).
pub open spec fn from_str_panics(input: Seq<char>) -> bool {
    let t = trim_end(input);
    let a = fields(t).0;
    &&& is_privmsg_shape(t)
    &&& first_index(a, '!') is None
    &&& (a.len() == 0 || (a.last() as u32) >= 0x80 || (a[0] == ':' && a.len() == 1))
}

/// How a line of text is classified. Trailing whitespace is dropped; a line
/// of the shape `prefix PRIVMSG target message` is a private message, one
/// whose first word is `PING` a ping, and any other line is kept as it came.
pub open spec fn parse_line(input: Seq<char>) -> LineView {
    let t = trim_end(input);
    let (a, b, c, d) = fields(t);
    if is_privmsg_shape(t) {
        LineView::PrivMsg {
            src: source_nick(a),
            dst: c->0,
            text: message_text(d->0),
            orig: t,
        }
    } else if a == ping_word() {
        LineView::Ping { orig: t }
    } else {
        LineView::Meta { orig: input }
    }
}

/// The text with its first `"PING "` turned into `"PONG "`, as
/// `str::replacen("PING ", "PONG ", 1)` gives it.
#[verifier::opaque]
pub open spec fn pong_text(p: Seq<char>) -> Seq<char> {
    match first_occurrence(p, ping_space()) {
        Some(k) => p.take(k) + pong_space() + p.skip(k + 5),
        None => p,
    }
}

/// The text `"PING "`.
pub open spec fn ping_space() -> Seq<char> {
    seq!['P', 'I', 'N', 'G', ' ']
}

/// The text `"PONG "`.
pub open spec fn pong_space() -> Seq<char> {
    seq!['P', 'O', 'N', 'G', ' ']
}

/// A nick can start with one of the characters `'A'..='}'` (RFC 2812, 2.3.1).
pub open spec fn valid_nick_start(c: char) -> bool {
    0x41 <= (c as u32) <= 0x7D
}

/// The log that a private message goes to: its channel, or for a message
/// sent to a nick, the sender's nick joined to the server's name by `'_'`.
pub open spec fn log_name(src: Seq<char>, dst: Seq<char>, srv_name: Seq<char>) -> Seq<char> {
    if dst.len() > 0 && valid_nick_start(dst[0]) {
        src + seq!['_'] + srv_name
    } else {
        dst
    }
}

/// `s` right-aligned in a field of `width` characters, as `{:>width}` writes it.
pub open spec fn right_aligned(s: Seq<char>, width: nat) -> Seq<char> {
    if s.len() < width {
        Seq::new((width - s.len()) as nat, |i: int| ' ') + s
    } else {
        s
    }
}

/// A log entry: the time stamp, the sender right-aligned in nine
/// characters, a colon, two spaces, the text and a newline.
pub open spec fn log_entry(stamp: Seq<char>, src: Seq<char>, text: Seq<char>) -> Seq<char> {
    stamp + seq![' '] + right_aligned(src, 9) + seq![':', ' ', ' '] + text + seq!['\n']
}

/// An ASCII digit.
pub open spec fn is_digit_char(c: char) -> bool {
    0x30 <= (c as u32) <= 0x39
}

/// The year of a time stamp: decimal digits, after a `'-'` for years before 1 BC.
pub open spec fn is_year(y: Seq<char>) -> bool {
    let d = if y.len() > 0 && y[0] == '-' {
        y.drop_first()
    } else {
        y
    };
    d.len() > 0 && forall|i: int| 0 <= i < d.len() ==> is_digit_char(#[trigger] d[i])
}

/// `-MM-DDTHH:MM:SS`: the month, day, hour, minute and second, two digits each.
pub open spec fn is_date_time_tail(t: Seq<char>) -> bool {
    &&& t.len() == 15
    &&& t[0] == '-' && t[3] == '-' && t[6] == 'T' && t[9] == ':' && t[12] == ':'
    &&& is_digit_char(t[1]) && is_digit_char(t[2])
    &&& is_digit_char(t[4]) && is_digit_char(t[5])
    &&& is_digit_char(t[7]) && is_digit_char(t[8])
    &&& is_digit_char(t[10]) && is_digit_char(t[11])
    &&& is_digit_char(t[13]) && is_digit_char(t[14])
}

/// The zone of a time stamp: `Z` for UTC, else `+hh:mm` or `-hh:mm`.
pub open spec fn is_zone(z: Seq<char>) -> bool {
    ||| z == seq!['Z']
    ||| {
        &&& z.len() == 6
        &&& (z[0] == '+' || z[0] == '-')
        &&& is_digit_char(z[1]) && is_digit_char(z[2])
        &&& z[3] == ':'
        &&& is_digit_char(z[4]) && is_digit_char(z[5])
    }
}

/// A time stamp in the form of RFC 3339, such as `2012-02-22T07:53:18-07:00`
/// or `2012-02-22T14:53:18Z`.
pub open spec fn is_rfc3339_stamp(s: Seq<char>) -> bool {
    exists|y: Seq<char>, t: Seq<char>, z: Seq<char>|
        #![trigger is_year(y), is_date_time_tail(t), is_zone(z)]
        s == y + t + z && is_year(y) && is_date_time_tail(t) && is_zone(z)
}

/// `trim_end` leaves nothing to trim.
pub proof fn lemma_trim_end_idempotent(s: Seq<char>)
    ensures
        trim_end(trim_end(s)) == trim_end(s),
    decreases s.len(),
{
    if s.len() > 0 && is_whitespace(s.last()) {
        lemma_trim_end_idempotent(s.drop_last());
    }
}

/// `trim_end(s)` is a prefix of `s`.
pub proof fn lemma_trim_end_prefix(s: Seq<char>)
    ensures
        trim_end(s).len() <= s.len(),
        trim_end(s) == s.take(trim_end(s).len() as int),
    decreases s.len(),
{
    if s.len() > 0 && is_whitespace(s.last()) {
        lemma_trim_end_prefix(s.drop_last());
        assert(s.drop_last().take(trim_end(s).len() as int) =~= s.take(trim_end(s).len() as int));
    } else {
        assert(s.take(s.len() as int) =~= s);
    }
}

/// Trimming keeps a prefix that is empty or ends in a character other than
/// whitespace, and drops only whitespace.
pub proof fn lemma_trim_end_characterization(s: Seq<char>)
    ensures
        trim_end(s) == s.take(trim_end(s).len() as int),
        trim_end(s).len() == 0 || !is_whitespace(trim_end(s).last()),
        forall|j: int| trim_end(s).len() <= j < s.len() ==> is_whitespace(#[trigger] s[j]),
    decreases s.len(),
{
    lemma_trim_end_prefix(s);
    if s.len() > 0 && is_whitespace(s.last()) {
        let t = s.drop_last();
        lemma_trim_end_characterization(t);
        assert forall|j: int| trim_end(s).len() <= j < s.len() implies is_whitespace(
            #[trigger] s[j],
        ) by {
            if j < t.len() {
                assert(s[j] == t[j]);
            }
        }
    }
}

/// A ping is answered by turning its first `"PING "` into `"PONG "`: the
/// text before it and after it are kept as they are.
#[verifier::spinoff_prover]
pub proof fn lemma_pong_text(a: Seq<char>, b: Seq<char>)
    requires
        !contains_run(a, seq!['P', 'I', 'N', 'G', ' ']),
    ensures
        pong_text(a + seq!['P', 'I', 'N', 'G', ' '] + b) == a + seq!['P', 'O', 'N', 'G', ' '] + b,
{
    let h = a + ping_space() + b;
    lemma_ping_first_at(a, b);
    lemma_first_occurrence_found(h, ping_space(), a.len() as int);
    lemma_pong_text_at(h, a.len() as int);
    lemma_splice(a, ping_space(), b, pong_space());
}

#[verifier::spinoff_prover]
proof fn lemma_ping_first_at(a: Seq<char>, b: Seq<char>)
    requires
        !contains_run(a, seq!['P', 'I', 'N', 'G', ' ']),
    ensures
        is_first_occurrence(a + ping_space() + b, ping_space(), a.len() as int),
{
    let ping = ping_space();
    let h = a + ping + b;
    let n = a.len() as int;
    assert(h.subrange(n, n + 5) =~= ping);
    assert forall|j: int| 0 <= j < n implies !occurs_at(h, ping, j) by {
        lemma_no_earlier_ping(a, b, j);
    }
}

/// The answer to text whose first `"PING "` is at `n`.
proof fn lemma_pong_text_at(h: Seq<char>, n: int)
    requires
        first_occurrence(h, ping_space()) == Some(n),
    ensures
        pong_text(h) == h.take(n) + pong_space() + h.skip(n + 5),
{
    reveal(pong_text);
}

/// Replacing the middle part of `a + mid + b`.
proof fn lemma_splice(a: Seq<char>, mid: Seq<char>, b: Seq<char>, rep: Seq<char>)
    ensures
        (a + mid + b).take(a.len() as int) + rep + (a + mid + b).skip(a.len() + mid.len() as int)
            == a + rep + b,
{
    let h = a + mid + b;
    assert(h.take(a.len() as int) =~= a);
    assert(h.skip(a.len() + mid.len() as int) =~= b);
}

proof fn lemma_no_earlier_ping(a: Seq<char>, b: Seq<char>, j: int)
    requires
        !contains_run(a, seq!['P', 'I', 'N', 'G', ' ']),
        0 <= j < a.len(),
    ensures
        !occurs_at(a + seq!['P', 'I', 'N', 'G', ' '] + b, seq!['P', 'I', 'N', 'G', ' '], j),
{
    let ping = seq!['P', 'I', 'N', 'G', ' '];
    let h = a + ping + b;
    let n = a.len() as int;
    if occurs_at(h, ping, j) {
        let r = h.subrange(j, j + 5);
        if j + 5 <= n {
            assert(a.subrange(j, j + 5) =~= r);
            assert(occurs_at(a, ping, j));
        } else {
            let k = n - j;
            assert(1 <= k <= 4);
            assert(r[k] == h[n]);
            assert(h[n] == 'P');
            assert(ping[1] == 'I' && ping[2] == 'N' && ping[3] == 'G' && ping[4] == ' ');
            assert(r[k] == ping[k]);
        }
    }
}

/// Text without `"PING "` is answered as it is.
pub proof fn lemma_pong_text_unchanged(p: Seq<char>)
    requires
        !contains_run(p, seq!['P', 'I', 'N', 'G', ' ']),
    ensures
        pong_text(p) == p,
{
    reveal(pong_text);
}

/// A log entry: the stamp, a space, the sender right-aligned in a field of
/// nine characters (wider if the nick is longer) padded with spaces, a
/// colon and two spaces, the text and a line feed.
pub proof fn lemma_log_entry(stamp: Seq<char>, src: Seq<char>, text: Seq<char>)
    ensures
        ({
            let e = log_entry(stamp, src, text);
            let w: int = if src.len() < 9 {
                9
            } else {
                src.len() as int
            };
            let f = stamp.len() + 1;
            &&& e.len() == stamp.len() + 1 + w + 3 + text.len() + 1
            &&& e.take(stamp.len() as int) == stamp
            &&& e[stamp.len() as int] == ' '
            &&& forall|j: int| f <= j < f + w - src.len() ==> #[trigger] e[j] == ' '
            &&& e.subrange(f + w - src.len(), f + w) == src
            &&& e.subrange(f + w, f + w + 3) == seq![':', ' ', ' ']
            &&& e.subrange(f + w + 3, e.len() - 1) == text
            &&& e.last() == '\n'
        }),
{
    let e = log_entry(stamp, src, text);
    let w: int = if src.len() < 9 {
        9
    } else {
        src.len() as int
    };
    let f = stamp.len() + 1;
    let pad = right_aligned(src, 9);
    assert(pad.len() == w);
    assert(e =~= stamp + seq![' '] + pad + seq![':', ' ', ' '] + text + seq!['\n']);
    assert(e.take(stamp.len() as int) =~= stamp);
    assert(pad.subrange(w - src.len(), w) =~= src);
    assert(e.subrange(f + w - src.len(), f + w) =~= pad.subrange(w - src.len(), w));
    assert forall|j: int| f <= j < f + w - src.len() implies #[trigger] e[j] == ' ' by {
        assert(e[j] == pad[j - f]);
    }
    assert(e.subrange(f + w, f + w + 3) =~= seq![':', ' ', ' ']);
    assert(e.subrange(f + w + 3, e.len() - 1) =~= text);
}

/// A line `prefix PRIVMSG target message`, where the prefix and the target
/// hold no space and the message does not end in whitespace, is a private
/// message to the target: its text is the message without a leading `':'`,
/// its text as received is the whole line, and its sender is the prefix
/// without a leading `':'`, up to the first `'!'` (without a `'!'`, up to the
/// prefix's last character, which is dropped).
pub proof fn lemma_privmsg_line(a: Seq<char>, c: Seq<char>, m: Seq<char>)
    requires
        !a.contains(' '),
        !c.contains(' '),
        m.len() > 0,
        !is_whitespace(m.last()),
    ensures
        ({
            let t = a + seq![' ', 'P', 'R', 'I', 'V', 'M', 'S', 'G', ' '] + c + seq![' '] + m;
            let lead: int = if a.len() > 0 && a[0] == ':' {
                1
            } else {
                0
            };
            match parse_line(t) {
                LineView::PrivMsg { src, dst, text, orig } => {
                    &&& dst == c
                    &&& orig == t
                    &&& text == (if m[0] == ':' {
                        m.drop_first()
                    } else {
                        m
                    })
                    &&& a.contains('!') ==> !src.contains('!') && a.subrange(lead, lead + src.len())
                        == src && lead + src.len() < a.len() && a[lead + src.len()] == '!'
                    &&& !a.contains('!') ==> src == a.subrange(lead, a.len() - 1)
                    &&& from_str_panics(t) <==> (!a.contains('!') && (a.len() == 0 || (a.last() as u32)
                        >= 0x80 || (a.len() == 1 && a[0] == ':')))
                },
                _ => false,
            }
        }),
{
    let mid = seq![' ', 'P', 'R', 'I', 'V', 'M', 'S', 'G', ' '];
    let t = a + mid + c + seq![' '] + m;
    let n = a.len() as int;
    let lead: int = if a.len() > 0 && a[0] == ':' {
        1
    } else {
        0
    };
    assert(t.last() == m.last());
    assert(trim_end(t) == t);
    // the first space ends the prefix
    assert(t[n] == ' ');
    assert forall|j: int| 0 <= j < n implies t[j] != ' ' by {
        assert(t[j] == a[j]);
    }
    lemma_first_index_found(t, ' ', n);
    let r1 = t.skip(n + 1);
    assert(r1[7] == ' ');
    assert forall|j: int| 0 <= j < 7 implies r1[j] != ' ' by {
        assert(r1[j] == mid[j + 1]);
    }
    lemma_first_index_found(r1, ' ', 7);
    assert(r1.take(7) =~= privmsg_word());
    let r2 = r1.skip(8);
    let k = c.len() as int;
    assert(r2 =~= c + seq![' '] + m);
    assert(r2[k] == ' ');
    assert forall|j: int| 0 <= j < k implies r2[j] != ' ' by {
        assert(r2[j] == c[j]);
    }
    lemma_first_index_found(r2, ' ', k);
    assert(r2.take(k) =~= c);
    assert(r2.skip(k + 1) =~= m);
    assert(t.take(n) =~= a);
    assert(fields(t) == (a, Some(privmsg_word()), Some(c), Some(m)));
    assert(is_privmsg_shape(t));
    lemma_first_index_is_first(a, '!');
    if a.contains('!') {
        let q = choose|q: int| 0 <= q < a.len() && a[q] == '!';
        assert(first_index(a, '!') is Some) by {
            if first_index(a, '!') is None {
                assert(a[q] != '!');
            }
        }
        let f = first_index(a, '!')->0;
        assert(is_first_index(a, '!', f));
        if lead == 1 {
            assert(f != 0);
        }
        let src = source_nick(a);
        assert(src == a.subrange(lead, f));
        assert(!src.contains('!')) by {
            if src.contains('!') {
                let z = choose|z: int| 0 <= z < src.len() && src[z] == '!';
                assert(a[lead + z] == '!');
            }
        }
    } else {
        assert(first_index(a, '!') is None) by {
            if first_index(a, '!') is Some {
                let f = first_index(a, '!')->0;
                assert(a[f] == '!');
            }
        }
    }
}

/// Reading a line panics only on private messages.
pub proof fn lemma_panics_only_on_privmsg(s: Seq<char>)
    ensures
        from_str_panics(s) ==> parse_line(s) is PrivMsg,
{
}

/// The text starts with the word `PING`: the letters P, I, N, G, then the
/// end of the text or a space.
pub open spec fn starts_with_ping(t: Seq<char>) -> bool {
    &&& t.len() >= 4
    &&& t[0] == 'P' && t[1] == 'I' && t[2] == 'N' && t[3] == 'G'
    &&& (t.len() == 4 || t[4] == ' ')
}

/// A line is a ping exactly when, trailing whitespace dropped, it is not a
/// private message and its first word is `PING`; a ping keeps the trimmed
/// text. A line that is neither a private message nor a ping is kept
/// whole, as it came.
pub proof fn lemma_ping_classification(s: Seq<char>)
    ensures
        parse_line(s) is Ping <==> (!is_privmsg_shape(trim_end(s)) && starts_with_ping(trim_end(s))),
        parse_line(s) is Ping ==> parse_line(s) == (LineView::Ping { orig: trim_end(s) }),
        (!is_privmsg_shape(trim_end(s)) && !starts_with_ping(trim_end(s))) ==> parse_line(s) == (
        LineView::Meta { orig: s }),
{
    let t = trim_end(s);
    let a = fields(t).0;
    lemma_first_index_is_first(t, ' ');
    assert(a == ping_word() <==> starts_with_ping(t)) by {
        match first_index(t, ' ') {
            Some(k) => {
                assert(a == t.take(k));
                if a == ping_word() {
                    assert(a.len() == 4);
                    assert(t[0] == a[0] && t[1] == a[1] && t[2] == a[2] && t[3] == a[3]);
                }
                if starts_with_ping(t) {
                    if k < 4 {
                        assert(t[k] != ' ');
                    } else if k > 4 {
                        assert(t[4] == ' ');
                    }
                    assert(a =~= ping_word());
                }
            },
            None => {
                assert(a == t);
                if starts_with_ping(t) {
                    if t.len() > 4 {
                        assert(t[4] != ' ');
                    }
                    assert(a =~= ping_word());
                }
            },
        }
    }
}

/// The log of a private message: for a message sent to a nick (its first
/// character is one of `'A'..='}'`, RFC 2812 2.3.1), the sender's nick, `'_'`
/// and the server's name; otherwise (a channel) the message's target.
pub proof fn lemma_log_name(src: Seq<char>, dst: Seq<char>, srv_name: Seq<char>)
    ensures
        (dst.len() > 0 && 0x41 <= (dst[0] as u32) && (dst[0] as u32) <= 0x7D) ==> log_name(
            src,
            dst,
            srv_name,
        ) == src + seq!['_'] + srv_name,
        !(dst.len() > 0 && 0x41 <= (dst[0] as u32) && (dst[0] as u32) <= 0x7D) ==> log_name(
            src,
            dst,
            srv_name,
        ) == dst,
{
}

/// A carriage return at the end of a line is whitespace: it is dropped
/// before the line is read, so a private message or ping reads the same
/// with it or without it; any other line keeps it.
pub proof fn lemma_carriage_return(t: Seq<char>)
    ensures
        trim_end(t.push('\r')) == trim_end(t),
        from_str_panics(t.push('\r')) == from_str_panics(t),
        !(parse_line(t) is Meta) ==> parse_line(t.push('\r')) == parse_line(t),
        parse_line(t) is Meta ==> parse_line(t.push('\r')) == (LineView::Meta { orig: t.push('\r') }),
{
    vstd::utf8::char_u32_cast('\r', '\r' as u32);
    assert(('\r' as u32) == 13u32);
    assert(is_whitespace('\r'));
    assert(t.push('\r').drop_last() =~= t);
}

/// Positions of the first three spaces of `t`, each looked for after the previous one.
spec fn spaces_at(t: Seq<char>, p1: Option<usize>, p2: Option<usize>, p3: Option<usize>) -> bool {
    match p1 {
        None => first_index(t, ' ') == None::<int> && p2 is None && p3 is None,
        Some(a) => {
            &&& a < t.len()
            &&& first_index(t, ' ') == Some(a as int)
            &&& match p2 {
                None => first_index(t.skip(a + 1), ' ') == None::<int> && p3 is None,
                Some(b) => {
                    &&& a < b < t.len()
                    &&& first_index(t.skip(a + 1), ' ') == Some(b - a - 1)
                    &&& match p3 {
                        None => first_index(t.skip(b + 1), ' ') == None::<int>,
                        Some(c) => b < c < t.len() && first_index(t.skip(b + 1), ' ') == Some(
                            c - b - 1,
                        ),
                    }
                },
            }
        },
    }
}

/// The fields of `t`, given the positions of its first three spaces.
spec fn fields_from(t: Seq<char>, p1: Option<usize>, p2: Option<usize>, p3: Option<usize>) -> (
    Seq<char>,
    Option<Seq<char>>,
    Option<Seq<char>>,
    Option<Seq<char>>,
) {
    match p1 {
        None => (t, None, None, None),
        Some(a) => match p2 {
            None => (t.take(a as int), Some(t.skip(a + 1)), None, None),
            Some(b) => match p3 {
                None => (
                    t.take(a as int),
                    Some(t.subrange(a + 1, b as int)),
                    Some(t.skip(b + 1)),
                    None,
                ),
                Some(c) => (
                    t.take(a as int),
                    Some(t.subrange(a + 1, b as int)),
                    Some(t.subrange(b + 1, c as int)),
                    Some(t.skip(c + 1)),
                ),
            },
        },
    }
}

proof fn lemma_fields(t: Seq<char>, p1: Option<usize>, p2: Option<usize>, p3: Option<usize>)
    requires
        spaces_at(t, p1, p2, p3),
    ensures
        fields(t) == fields_from(t, p1, p2, p3),
{
    if let Some(a) = p1 {
        let r1 = t.skip(a + 1);
        if let Some(b) = p2 {
            assert(r1.take(b - a - 1) =~= t.subrange(a + 1, b as int));
            let r2 = r1.skip(b - a - 1 + 1);
            assert(r2 =~= t.skip(b + 1));
            if let Some(c) = p3 {
                assert(r2.take(c - b - 1) =~= t.subrange(b + 1, c as int));
                assert(r2.skip(c - b - 1 + 1) =~= t.skip(c + 1));
            }
        }
    }
}

/// The trimmed length of a line and the positions of its first three spaces.
struct Scan {
    t: usize,
    p1: Option<usize>,
    p2: Option<usize>,
    p3: Option<usize>,
}

/// Trims the line and finds its first three spaces.
fn scan(cs: &Vec<char>) -> (r: Scan)
    ensures
        r.t <= cs@.len(),
        trim_end(cs@) == cs@.take(r.t as int),
        spaces_at(cs@.take(r.t as int), r.p1, r.p2, r.p3),
{
    let n = cs.len();
    let mut t = n;
    assert(cs@.take(n as int) =~= cs@);
    while t > 0 && is_ws(cs[t - 1])
        invariant
            t <= n == cs@.len(),
            trim_end(cs@.take(t as int)) == trim_end(cs@),
        decreases t,
    {
        assert(cs@.take(t as int).drop_last() =~= cs@.take(t - 1));
        t = t - 1;
    }
    let ghost ts = cs@.take(t as int);
    assert(ts =~= cs@.subrange(0, t as int));
    let p1 = find_char(cs, ' ', 0, t);
    let mut p2: Option<usize> = None;
    let mut p3: Option<usize> = None;
    if let Some(a) = p1 {
        assert(ts.skip(a + 1) =~= cs@.subrange(a + 1, t as int));
        p2 = find_char(cs, ' ', a + 1, t);
        if let Some(b) = p2 {
            assert(ts.skip(b + 1) =~= cs@.subrange(b + 1, t as int));
            p3 = find_char(cs, ' ', b + 1, t);
        }
    }
    Scan { t, p1, p2, p3 }
}

fn privmsg_chars() -> (v: Vec<char>)
    ensures
        v@ == privmsg_word(),
{
    let mut v: Vec<char> = Vec::new();
    v.push('P');
    v.push('R');
    v.push('I');
    v.push('V');
    v.push('M');
    v.push('S');
    v.push('G');
    assert(v@ =~= privmsg_word());
    v
}

fn ping_chars() -> (v: Vec<char>)
    ensures
        v@ == ping_word(),
{
    let mut v: Vec<char> = Vec::new();
    v.push('P');
    v.push('I');
    v.push('N');
    v.push('G');
    assert(v@ =~= ping_word());
    v
}

/// Whether the scanned line has the shape `prefix PRIVMSG target message`.
fn privmsg_shape(cs: &Vec<char>, sc: &Scan) -> (r: bool)
    requires
        sc.t <= cs@.len(),
        spaces_at(cs@.take(sc.t as int), sc.p1, sc.p2, sc.p3),
    ensures
        r == is_privmsg_shape(cs@.take(sc.t as int)),
        r ==> sc.p1 is Some && sc.p2 is Some && sc.p3 is Some,
{
    let ghost ts = cs@.take(sc.t as int);
    proof {
        lemma_fields(ts, sc.p1, sc.p2, sc.p3);
    }
    match (sc.p1, sc.p2, sc.p3) {
        (Some(a), Some(b), Some(_)) => {
            assert(ts.subrange(a + 1, b as int) =~= cs@.subrange(a + 1, b as int));
            run_is(cs, a + 1, b, &privmsg_chars())
        },
        _ => false,
    }
}

impl Line {
    /// A line that is neither a private message nor a ping.
    pub fn new_meta(s: &str) -> (l: Line)
        ensures
            l@ == (LineView::Meta { orig: s@ }),
    {
        Line::Meta { orig: String::from_str(s) }
    }

    /// A ping line.
    pub fn new_ping(s: &str) -> (l: Line)
        ensures
            l@ == (LineView::Ping { orig: s@ }),
    {
        Line::Ping { orig: String::from_str(s) }
    }

    /// A private message from `src` to `dst`.
    pub fn new_pm(src: &str, dst: &str, text: &str, orig: &str) -> (l: Line)
        ensures
            l@ == (LineView::PrivMsg { src: src@, dst: dst@, text: text@, orig: orig@ }),
    {
        Line::PrivMsg {
            src: String::from_str(src),
            dst: String::from_str(dst),
            text: String::from_str(text),
            orig: String::from_str(orig),
        }
    }

    /// Whether reading this text as a line panics (see `from_str_panics`).
    pub fn panics_on(input: &str) -> (r: bool)
        ensures
            r == from_str_panics(input@),
    {
        let cs = to_chars(input);
        let sc = scan(&cs);
        let ghost ts = cs@.take(sc.t as int);
        proof {
            lemma_fields(ts, sc.p1, sc.p2, sc.p3);
        }
        if !privmsg_shape(&cs, &sc) {
            return false;
        }
        let a = sc.p1.unwrap();
        let ghost prefix = ts.take(a as int);
        assert(prefix =~= cs@.subrange(0, a as int));
        if find_char(&cs, '!', 0, a).is_some() {
            return false;
        }
        a == 0 || (cs[a - 1] as u32) >= 0x80 || (cs[0] == ':' && a == 1)
    }

    /// Reads a line of IRC text; see `parse_line`.
    pub fn from_str(input: &str) -> (l: Line)
        requires
            !from_str_panics(input@),
        ensures
            l@ == parse_line(input@),
    {
        let cs = to_chars(input);
        let sc = scan(&cs);
        let ghost ts = cs@.take(sc.t as int);
        proof {
            lemma_fields(ts, sc.p1, sc.p2, sc.p3);
        }
        assert(input@ == cs@);
        if privmsg_shape(&cs, &sc) {
            let a = sc.p1.unwrap();
            let b = sc.p2.unwrap();
            let c = sc.p3.unwrap();
            let ghost prefix = ts.take(a as int);
            assert(prefix =~= cs@.subrange(0, a as int));
            let lead: usize = if a > 0 && cs[0] == ':' {
                1
            } else {
                0
            };
            let end: usize = match find_char(&cs, '!', 0, a) {
                Some(k) => k,
                None => a - 1,
            };
            let ghost m = ts.skip(c + 1);
            assert(m =~= cs@.subrange(c + 1, sc.t as int));
            let mstart: usize = if c + 1 < sc.t && cs[c + 1] == ':' {
                c + 2
            } else {
                c + 1
            };
            let src = string_of(input, lead, end);
            let dst = string_of(input, b + 1, c);
            let text = string_of(input, mstart, sc.t);
            let orig = string_of(input, 0, sc.t);
            assert(src@ =~= source_nick(prefix));
            assert(dst@ =~= ts.subrange(b + 1, c as int));
            assert(text@ =~= message_text(m));
            assert(orig@ =~= ts);
            Line::PrivMsg { src, dst, text, orig }
        } else {
            let first_end = match sc.p1 {
                Some(a) => a,
                None => sc.t,
            };
            assert(fields(ts).0 =~= cs@.subrange(0, first_end as int));
            if run_is(&cs, 0, first_end, &ping_chars()) {
                let orig = string_of(input, 0, sc.t);
                assert(orig@ =~= ts);
                Line::Ping { orig }
            } else {
                Line::new_meta(input)
            }
        }
    }

    /// Answers a ping: the same text with its first `"PING "` turned into `"PONG "`.
    pub fn pong_from_ping(p: &str) -> (l: Line)
        ensures
            l@ == (LineView::Ping { orig: pong_text(p@) }),
    {
        proof {
            reveal(pong_text);
        }
        let cs = to_chars(p);
        let len = cs.len();
        let mut pat: Vec<char> = Vec::new();
        pat.push('P');
        pat.push('I');
        pat.push('N');
        pat.push('G');
        pat.push(' ');
        assert(pat@ =~= seq!['P', 'I', 'N', 'G', ' ']);
        match find_run(&cs, &pat) {
            Some(k) => {
                assert(occurs_at(cs@, pat@, k as int));
                let mut s = string_of(p, 0, k);
                proof {
                    reveal_strlit("PONG ");
                }
                s.append("PONG ");
                s.append(p.substring_char(k + 5, len));
                assert(s@ =~= p@.take(k as int) + seq!['P', 'O', 'N', 'G', ' '] + p@.skip(k + 5));
                Line::Ping { orig: s }
            },
            None => Line::Ping { orig: String::from_str(p) },
        }
    }

    /// The log name and log entry for a private message received at the time
    /// written in `stamp`; other lines are not logged.
    pub fn format_privmsg_at(&self, srv_name: &str, stamp: &str) -> (r: Option<(String, String)>)
        ensures
            match self@ {
                LineView::PrivMsg { src, dst, text, .. } => match r {
                    Some((name, msg)) => name@ == log_name(src, dst, srv_name@) && msg@ == log_entry(
                        stamp@,
                        src,
                        text,
                    ),
                    None => false,
                },
                _ => r is None,
            },
    {
        match self {
            Line::PrivMsg { src, dst, text, .. } => {
                proof {
                    reveal_strlit(" ");
                    reveal_strlit(":  ");
                    reveal_strlit("\n");
                    reveal_strlit("_");
                }
                let mut msg = String::from_str(stamp);
                msg.append(" ");
                let n = src.as_str().unicode_len();
                let mut k = n;
                while k < 9
                    invariant
                        n == src@.len(),
                        n <= k <= 9 || (k == n && n > 9),
                        msg@ == stamp@ + seq![' '] + Seq::new((k - n) as nat, |i: int| ' '),
                    decreases 9 - k,
                {
                    proof {
                        reveal_strlit(" ");
                    }
                    msg.append(" ");
                    k = k + 1;
                    assert(msg@ =~= stamp@ + seq![' '] + Seq::new((k - n) as nat, |i: int| ' '));
                }
                assert(Seq::new((k - n) as nat, |i: int| ' ') + src@ =~= right_aligned(src@, 9));
                msg.append(src.as_str());
                msg.append(":  ");
                msg.append(text.as_str());
                msg.append("\n");
                assert(msg@ =~= log_entry(stamp@, src@, text@));
                let d = to_chars(dst.as_str());
                let name = if d.len() > 0 && 0x41 <= (d[0] as u32) && (d[0] as u32) <= 0x7D {
                    let mut nm = src.clone();
                    nm.append("_");
                    nm.append(srv_name);
                    assert(nm@ =~= src@ + seq!['_'] + srv_name@);
                    nm
                } else {
                    dst.clone()
                };
                Some((name, msg))
            },
            _ => None,
        }
    }

    /// The log name and log entry for a private message, stamped with the
    /// current local time in RFC 3339 form; other lines are not logged.
    /// Which time the stamp gives depends on the clock and is not stated.
    pub fn format_privmsg(&self, srv_name: &str) -> (r: Option<(String, String)>)
        ensures
            match self@ {
                LineView::PrivMsg { src, dst, text, .. } => match r {
                    Some((name, msg)) => name@ == log_name(src, dst, srv_name@) && exists|
                        stamp: Seq<char>,
                    | is_rfc3339_stamp(stamp) && msg@ == log_entry(stamp, src, text),
                    None => false,
                },
                _ => r is None,
            },
    {
        let stamp = now_rfc3339();
        let r = self.format_privmsg_at(srv_name, stamp.as_str());
        proof {
            if let Some((_, msg)) = &r {
                if let LineView::PrivMsg { src, text, .. } = self@ {
                    assert(is_rfc3339_stamp(stamp@) && msg@ == log_entry(stamp@, src, text));
                }
            }
        }
        r
    }

    /// Whether a private message is addressed to `nick` or names it in its text.
    pub fn mention(&self, nick: &str) -> (r: bool)
        ensures
            r == match self@ {
                LineView::PrivMsg { dst, text, .. } => dst == nick@ || contains_run(text, nick@),
                _ => false,
            },
    {
        match self {
            Line::PrivMsg { dst, text, .. } => {
                let d = to_chars(dst.as_str());
                let n = to_chars(nick);
                assert(d@.subrange(0, d@.len() as int) =~= d@);
                if run_is(&d, 0, d.len(), &n) {
                    true
                } else {
                    let t = to_chars(text.as_str());
                    find_run(&t, &n).is_some()
                }
            },
            _ => false,
        }
    }

    /// The text of the line as it was received.
    pub fn to_string(&self) -> (s: String)
        ensures
            s@ == self@.orig(),
    {
        match self {
            Line::PrivMsg { orig, .. } => orig.clone(),
            Line::Meta { orig } => orig.clone(),
            Line::Ping { orig } => orig.clone(),
        }
    }
}

/// `time::now().rfc3339()`: the current local time written as in RFC 3339.
/// `TmFmt`'s `Display` writes `%Y-%m-%dT%H:%M:%S` (year with `{}`, the other
/// fields with `{:02}`) and then `Z` or the offset as `+hh:mm`/`-hh:mm`; the
/// fields of a time that `time::now` returns are in their calendar ranges,
/// so each is two digits. Which time it is depends on the clock and the
/// time zone, and is not stated.
#[verifier::external_body]
fn now_rfc3339() -> (s: String)
    ensures
        is_rfc3339_stamp(s@),
{
    time::now().rfc3339().to_string()
}

} // verus!
