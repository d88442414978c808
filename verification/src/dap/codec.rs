//! DAP wire framing.
//!
//! A message is a block of header lines, ended by an empty line, followed by
//! a body of exactly as many bytes as the `Content-Length` header says:
//!
//! ```text
//! Content-Length: <byte-length>\r\n
//! \r\n
//! <JSON body>
//! ```

use crate::common::Error;
use crate::number::{decimal_chars, parse_usize};
use crate::text::{
    append, append_bytes, append_str, byte_range, bytes_of, chars_of, seq_eq, slice_range,
    starts_with, string_from, trim, utf8_decode,
};
use vstd::prelude::*;
use vstd::utf8::*;

verus! {

/// The largest body a message may announce (100 MiB).
pub const MAX_CONTENT_LENGTH: usize = 104857600;

/// The text of the io error for a header line that is not UTF-8.
pub open spec fn line_not_utf8_text() -> Seq<char> {
    "stream did not contain valid UTF-8"@
}

/// Where the line starting at `pos` ends: just after its `\n`, or at the end
/// of the data.
pub open spec fn line_end(data: Seq<u8>, pos: int) -> int
    decreases data.len() - pos,
{
    if pos < 0 || pos >= data.len() {
        data.len() as int
    } else if data[pos] == 10u8 {
        pos + 1
    } else {
        line_end(data, pos + 1)
    }
}

pub proof fn lemma_line_end(data: Seq<u8>, pos: int)
    requires
        0 <= pos < data.len(),
    ensures
        pos < line_end(data, pos) <= data.len(),
        forall|k: int| pos <= k < line_end(data, pos) - 1 ==> data[k] != 10u8,
        line_end(data, pos) < data.len() || data[line_end(data, pos) - 1] == 10u8 || line_end(
            data,
            pos,
        ) == data.len(),
    decreases data.len() - pos,
{
    if data[pos] == 10u8 {
    } else if pos + 1 < data.len() {
        lemma_line_end(data, pos + 1);
        assert(line_end(data, pos) == line_end(data, pos + 1));
    } else {
        assert(line_end(data, pos + 1) == data.len());
        assert(line_end(data, pos) == data.len());
    }
}

/// A line that ends the header block.
pub open spec fn is_blank_line(cs: Seq<char>) -> bool {
    cs == seq!['\r', '\n'] || cs == seq!['\n']
}

/// The header name the framing reads.
pub open spec fn length_header() -> Seq<char> {
    "Content-Length:"@
}

/// The value of a `Content-Length` header line, trimmed, when the line is one.
pub open spec fn length_value(cs: Seq<char>) -> Option<Seq<char>> {
    let t = crate::text::trimmed(cs);
    if crate::text::has_prefix(t, length_header()) {
        Some(crate::text::trimmed(t.skip(length_header().len() as int)))
    } else {
        None
    }
}

/// What a header line means to the reader.
pub enum HeaderMeaning {
    End,
    Length(nat),
    Other,
    NotUtf8,
    BadLength(Seq<char>),
}

/// What a header line (as `read_line` hands it over) means to the reader.
pub open spec fn header_meaning(line: Seq<u8>) -> HeaderMeaning {
    if !valid_utf8(line) {
        HeaderMeaning::NotUtf8
    } else {
        let cs = decode_utf8(line);
        if is_blank_line(cs) {
            HeaderMeaning::End
        } else {
            match length_value(cs) {
                Some(v) => match crate::number::parse_unsigned(v, usize::MAX as nat) {
                    Some(n) => HeaderMeaning::Length(n),
                    None => HeaderMeaning::BadLength(v),
                },
                None => HeaderMeaning::Other,
            }
        }
    }
}

/// Why reading a message fails.
pub enum ReadFault {
    /// The stream ended before the message did.
    Ended,
    LineNotUtf8,
    BadLength(Seq<char>),
    NoLength,
    TooLarge(nat),
    BodyNotUtf8(Seq<u8>),
}

/// Reading header lines from `pos`, with the length announced so far: the
/// announced length and where the body starts.
pub open spec fn read_headers(data: Seq<u8>, pos: int, len: Option<nat>) -> Result<
    (nat, int),
    ReadFault,
>
    decreases data.len() - pos,
{
    if pos < 0 || pos >= data.len() {
        Err(ReadFault::Ended)
    } else {
        let end = line_end(data, pos);
        proof {
            lemma_line_end(data, pos);
        }
        match header_meaning(data.subrange(pos, end)) {
            HeaderMeaning::NotUtf8 => Err(ReadFault::LineNotUtf8),
            HeaderMeaning::BadLength(v) => Err(ReadFault::BadLength(v)),
            HeaderMeaning::End => match len {
                Some(n) => Ok((n, end)),
                None => Err(ReadFault::NoLength),
            },
            HeaderMeaning::Length(n) => read_headers(data, end, Some(n)),
            HeaderMeaning::Other => read_headers(data, end, len),
        }
    }
}

/// Reading one message from the start of `data`: the body's characters and
/// the number of bytes the message takes.
pub open spec fn read_outcome(data: Seq<u8>) -> Result<(Seq<char>, nat), ReadFault> {
    match read_headers(data, 0, None) {
        Err(f) => Err(f),
        Ok((n, start)) => {
            if n > MAX_CONTENT_LENGTH {
                Err(ReadFault::TooLarge(n))
            } else if start + n > data.len() {
                Err(ReadFault::Ended)
            } else {
                let body = data.subrange(start, start + n);
                if valid_utf8(body) {
                    Ok((decode_utf8(body), (start + n) as nat))
                } else {
                    Err(ReadFault::BodyNotUtf8(body))
                }
            }
        },
    }
}

/// The error that reports a fault.
pub open spec fn fault_error(f: ReadFault, e: Error) -> bool {
    match f {
        ReadFault::Ended => e is AdapterCrashed,
        ReadFault::LineNotUtf8 => e matches Error::Io(m) && m@ == line_not_utf8_text(),
        ReadFault::BadLength(v) => e matches Error::DapProtocol(m) && m@ == "Invalid Content-Length: "@
            + v,
        ReadFault::NoLength => e matches Error::DapProtocol(m) && m@
            == "Missing Content-Length header"@,
        ReadFault::TooLarge(n) => e matches Error::DapProtocol(m) && m@ == "Content-Length too large: "@
            + crate::number::decimal_of(n) + " bytes"@,
        ReadFault::BodyNotUtf8(b) => e matches Error::DapProtocol(m) && m@ == "Invalid UTF-8: "@
            + crate::text::utf8_error_text(b),
    }
}

/// What a header line tells the reader.
#[derive(Debug, Clone, Copy, PartialEq, Eq)]
pub enum HeaderLine {
    /// The empty line that ends the headers.
    End,
    /// A `Content-Length` header.
    ContentLength(usize),
    /// Any other header, which the reader ignores.
    Other,
}

/// The error for an invalid `Content-Length` value.
fn bad_length_error(v: &[char]) -> (e: Error)
    ensures
        fault_error(ReadFault::BadLength(v@), e),
{
    let mut m = chars_of("Invalid Content-Length: ");
    append(&mut m, v);
    Error::DapProtocol(string_from(m.as_slice()))
}

/// Classifies one header line, as `read_line` hands it over (ending with
/// `\n` unless the stream ended).
pub fn parse_header_line(line: &[u8]) -> (r: Result<HeaderLine, Error>)
    ensures
        match header_meaning(line@) {
            HeaderMeaning::End => r == Ok::<HeaderLine, Error>(HeaderLine::End),
            HeaderMeaning::Length(n) => r matches Ok(HeaderLine::ContentLength(k)) && k == n,
            HeaderMeaning::Other => r == Ok::<HeaderLine, Error>(HeaderLine::Other),
            HeaderMeaning::NotUtf8 => r matches Err(e) && fault_error(ReadFault::LineNotUtf8, e),
            HeaderMeaning::BadLength(v) => r matches Err(e) && fault_error(ReadFault::BadLength(v), e),
        },
{
    let text = match utf8_decode(line) {
        Ok(t) => t,
        Err(_) => {
            return Err(Error::Io(String::from_str("stream did not contain valid UTF-8")));
        },
    };
    let cs = chars_of(text.as_str());
    let crlf = chars_of("\r\n");
    let lf = chars_of("\n");
    proof {
        reveal_strlit("\r\n");
        reveal_strlit("\n");
        assert(crlf@ =~= seq!['\r', '\n']);
        assert(lf@ =~= seq!['\n']);
    }
    if seq_eq(cs.as_slice(), crlf.as_slice()) || seq_eq(cs.as_slice(), lf.as_slice()) {
        return Ok(HeaderLine::End);
    }
    let t = trim(cs.as_slice());
    let prefix = chars_of("Content-Length:");
    if starts_with(t.as_slice(), prefix.as_slice()) {
        let after = slice_range(t.as_slice(), prefix.len(), t.len());
        proof {
            assert(after@ =~= t@.skip(length_header().len() as int));
        }
        let v = trim(after.as_slice());
        match parse_usize(v.as_slice()) {
            Some(n) => Ok(HeaderLine::ContentLength(n)),
            None => Err(bad_length_error(v.as_slice())),
        }
    } else {
        Ok(HeaderLine::Other)
    }
}

/// The body length once the headers have ended: an announced length no
/// larger than `MAX_CONTENT_LENGTH`.
pub fn check_content_length(len: Option<usize>) -> (r: Result<usize, Error>)
    ensures
        match len {
            None => r matches Err(e) && fault_error(ReadFault::NoLength, e),
            Some(n) => if n > MAX_CONTENT_LENGTH {
                r matches Err(e) && fault_error(ReadFault::TooLarge(n as nat), e)
            } else {
                r == Ok::<usize, Error>(n)
            },
        },
{
    match len {
        None => Err(Error::DapProtocol(String::from_str("Missing Content-Length header"))),
        Some(n) => {
            if n > MAX_CONTENT_LENGTH {
                let mut m = chars_of("Content-Length too large: ");
                let d = decimal_chars(n as u64);
                append(&mut m, d.as_slice());
                append_str(&mut m, " bytes");
                Err(Error::DapProtocol(string_from(m.as_slice())))
            } else {
                Ok(n)
            }
        },
    }
}

/// The body as text.
pub fn decode_body(body: &[u8]) -> (r: Result<String, Error>)
    ensures
        r matches Ok(s) ==> valid_utf8(body@) && s@ == decode_utf8(body@),
        r matches Err(e) ==> !valid_utf8(body@) && fault_error(ReadFault::BodyNotUtf8(body@), e),
{
    match utf8_decode(body) {
        Ok(s) => Ok(s),
        Err(t) => {
            let mut m = chars_of("Invalid UTF-8: ");
            append_str(&mut m, t.as_str());
            Err(Error::DapProtocol(string_from(m.as_slice())))
        },
    }
}

/// Where the line starting at `pos` ends.
fn find_line_end(data: &[u8], pos: usize) -> (end: usize)
    requires
        pos < data@.len(),
    ensures
        end == line_end(data@, pos as int),
{
    let mut i = pos;
    while i < data.len() && data[i] != 10u8
        invariant
            pos <= i <= data@.len(),
            line_end(data@, pos as int) == line_end(data@, i as int),
        decreases data@.len() - i,
    {
        i = i + 1;
    }
    if i < data.len() {
        i + 1
    } else {
        i
    }
}

/// Reads one message from the start of `data`: the body and the number of
/// bytes the message takes.
pub fn read_message(data: &[u8]) -> (r: Result<(String, usize), Error>)
    ensures
        match read_outcome(data@) {
            Ok((cs, n)) => r matches Ok((s, k)) && s@ == cs && k == n,
            Err(f) => r matches Err(e) && fault_error(f, e),
        },
{
    let mut pos: usize = 0;
    let mut len: Option<usize> = None;
    let mut body_start: usize = 0;
    let mut found: usize = 0;
    loop
        invariant
            pos <= data@.len(),
            read_headers(data@, 0, None) == read_headers(
                data@,
                pos as int,
                match len {
                    Some(n) => Some(n as nat),
                    None => None,
                },
            ),
        ensures
            read_headers(data@, 0, None) == Ok::<(nat, int), ReadFault>(
                (found as nat, body_start as int),
            ),
            body_start <= data@.len(),
            found <= MAX_CONTENT_LENGTH,
        decreases data@.len() - pos,
    {
        if pos >= data.len() {
            return Err(Error::AdapterCrashed);
        }
        let end = find_line_end(data, pos);
        proof {
            lemma_line_end(data@, pos as int);
        }
        let line = byte_range(data, pos, end);
        match parse_header_line(line.as_slice()) {
            Err(e) => {
                return Err(e);
            },
            Ok(HeaderLine::End) => {
                match check_content_length(len) {
                    Ok(n) => {
                        found = n;
                        body_start = end;
                        break ;
                    },
                    Err(e) => {
                        return Err(e);
                    },
                }
            },
            Ok(HeaderLine::ContentLength(n)) => {
                len = Some(n);
            },
            Ok(HeaderLine::Other) => {},
        }
        pos = end;
    }
    if found > data.len() - body_start {
        return Err(Error::AdapterCrashed);
    }
    let body = byte_range(data, body_start, body_start + found);
    match decode_body(body.as_slice()) {
        Ok(s) => Ok((s, body_start + found)),
        Err(e) => Err(e),
    }
}

/// The header written before a body of `n` bytes.
pub open spec fn header_chars(n: nat) -> Seq<char> {
    "Content-Length: "@ + crate::number::decimal_of(n) + "\r\n\r\n"@
}

/// The bytes of a message whose body is `body`.
pub open spec fn encode_message(body: Seq<u8>) -> Seq<u8> {
    encode_utf8(header_chars(body.len())) + body
}

/// Frames a JSON text as a DAP message.
pub fn write_message(json: &str) -> (out: Vec<u8>)
    ensures
        out@ == encode_message(encode_utf8(json@)),
{
    let body = bytes_of(json);
    let mut h = chars_of("Content-Length: ");
    let d = decimal_chars(body.len() as u64);
    append(&mut h, d.as_slice());
    append_str(&mut h, "\r\n\r\n");
    let header = string_from(h.as_slice());
    let mut out = bytes_of(header.as_str());
    append_bytes(&mut out, body.as_slice());
    out
}


/// A line of the data ends just after the first `\n` at or after `pos`.
proof fn lemma_line_end_at(data: Seq<u8>, pos: int, j: int)
    requires
        0 <= pos <= j < data.len(),
        data[j] == 10u8,
        forall|k: int| pos <= k < j ==> data[k] != 10u8,
    ensures
        line_end(data, pos) == j + 1,
    decreases j - pos,
{
    if pos < j {
        lemma_line_end_at(data, pos + 1, j);
    }
}

/// The bytes of an ASCII text are its characters' codes.
proof fn lemma_ascii_bytes(cs: Seq<char>)
    requires
        is_ascii_chars(cs),
    ensures
        encode_utf8(cs).len() == cs.len(),
        forall|i: int| 0 <= i < cs.len() ==> encode_utf8(cs)[i] == cs[i] as u8,
        valid_utf8(encode_utf8(cs)),
        decode_utf8(encode_utf8(cs)) == cs,
{
    vstd::utf8::is_ascii_chars_encode_utf8(cs);
    vstd::utf8::encode_utf8_valid_utf8(cs);
    vstd::utf8::encode_utf8_decode_utf8(cs);
}

/// Two ASCII texts whose characters agree have the same bytes.
proof fn lemma_ascii_slice(cs: Seq<char>, from: int, to: int)
    requires
        is_ascii_chars(cs),
        0 <= from <= to <= cs.len(),
    ensures
        is_ascii_chars(cs.subrange(from, to)),
        encode_utf8(cs).subrange(from, to) == encode_utf8(cs.subrange(from, to)),
{
    let sub = cs.subrange(from, to);
    assert(is_ascii_chars(sub)) by {
        assert forall|i| 0 <= i < sub.len() implies '\0' <= #[trigger] sub[i] <= '\u{7f}' by {
            assert(sub[i] == cs[from + i]);
        }
    }
    lemma_ascii_bytes(cs);
    lemma_ascii_bytes(sub);
    assert(encode_utf8(cs).subrange(from, to) =~= encode_utf8(sub));
}

/// The characters of the header for a body of `n` bytes.
proof fn lemma_header_shape(n: nat)
    ensures
        ({
            let h = header_chars(n);
            let d = crate::number::decimal_of(n);
            &&& h.len() == 16 + d.len() + 4
            &&& h.subrange(0, 16) == "Content-Length: "@
            &&& h.subrange(16, 16 + d.len() as int) == d
            &&& h[16 + d.len() as int] == '\r'
            &&& h[17 + d.len() as int] == '\n'
            &&& h[18 + d.len() as int] == '\r'
            &&& h[19 + d.len() as int] == '\n'
            &&& is_ascii_chars(h)
            &&& forall|k: int| 0 <= k < 16 + d.len() + 1 ==> h[k] != '\n'
        }),
{
    let h = header_chars(n);
    let d = crate::number::decimal_of(n);
    let dl = d.len() as int;
    crate::number::lemma_decimal_roundtrip(n);
    reveal_strlit("Content-Length: ");
    reveal_strlit("\r\n\r\n");
    let p = "Content-Length: "@;
    let q = "\r\n\r\n"@;
    assert(p =~= seq!['C', 'o', 'n', 't', 'e', 'n', 't', '-', 'L', 'e', 'n', 'g', 't', 'h', ':', ' ']);
    assert(q =~= seq!['\r', '\n', '\r', '\n']);
    assert(h =~= p + d + q);
    assert(h.subrange(0, 16) =~= p);
    assert(h.subrange(16, 16 + dl) =~= d);
    assert forall|j| 0 <= j < 16 implies '\0' <= #[trigger] p[j] <= '\u{7f}' && p[j] != '\n' by {
        assert(j == 0 || j == 1 || j == 2 || j == 3 || j == 4 || j == 5 || j == 6 || j == 7 || j
            == 8 || j == 9 || j == 10 || j == 11 || j == 12 || j == 13 || j == 14 || j == 15);
    }
    assert forall|j| 0 <= j < 4 implies '\0' <= #[trigger] q[j] <= '\u{7f}' by {
        assert(j == 0 || j == 1 || j == 2 || j == 3);
    }
    assert forall|j| 0 <= j < dl implies '\0' <= #[trigger] d[j] <= '\u{7f}' && d[j] != '\n' by {
        assert(crate::number::is_digit(d[j]));
        crate::number::lemma_digit_ascii(d[j]);
    }
    assert forall|i| 0 <= i < h.len() implies '\0' <= #[trigger] h[i] <= '\u{7f}' && (i < 16 + dl
        + 1 ==> h[i] != '\n') by {
        if i < 16 {
            assert(h[i] == p[i]);
        } else if i >= 16 + dl {
            assert(h[i] == q[i - 16 - dl]);
        } else {
            assert(h[i] == d[i - 16]);
            assert(crate::number::is_digit(d[i - 16]));
        }
    }
}

/// The first header line of a written message, trimmed, holds the length.
proof fn lemma_first_line(n: nat)
    requires
        n <= usize::MAX,
    ensures
        ({
            let d = crate::number::decimal_of(n);
            let l1 = header_chars(n).subrange(0, 16 + d.len() as int + 2);
            &&& !is_blank_line(l1)
            &&& length_value(l1) == Some(d)
            &&& crate::number::parse_unsigned(d, usize::MAX as nat) == Some(n)
        }),
{
    let d = crate::number::decimal_of(n);
    let dl = d.len() as int;
    let h = header_chars(n);
    lemma_header_shape(n);
    crate::number::lemma_decimal_roundtrip(n);
    crate::number::lemma_parse_decimal(n, usize::MAX as nat);
    reveal_strlit("Content-Length: ");
    reveal_strlit("Content-Length:");
    let p = "Content-Length: "@;
    assert(p =~= seq!['C', 'o', 'n', 't', 'e', 'n', 't', '-', 'L', 'e', 'n', 'g', 't', 'h', ':', ' ']);
    let l1 = h.subrange(0, 16 + dl + 2);
    let pd = p + d;
    assert(l1 =~= pd.push('\r').push('\n'));
    assert(l1.len() >= 19);
    assert(crate::text::trim_start(l1) == l1);
    assert(l1.drop_last() =~= pd.push('\r'));
    assert(pd.push('\r').drop_last() =~= pd);
    assert(pd.last() == d.last());
    assert(crate::number::is_digit(d[d.len() - 1]));
    assert(crate::text::trim_end(pd) == pd);
    assert(crate::text::trim_end(pd.push('\r')) == pd);
    assert(crate::text::trim_end(l1) == pd);
    assert(crate::text::trimmed(l1) == pd);
    assert(pd.take(15) =~= length_header());
    let after = pd.skip(15);
    assert(after =~= seq![' '] + d);
    assert(after.drop_first() =~= d);
    assert(crate::number::is_digit(d[0]));
    assert(crate::text::trim_start(d) == d);
    assert(crate::text::trim_start(after) == d);
    assert(crate::text::trim_end(d) == d);
}

/// Reading a message gives back the body that was written, whatever follows
/// it, and consumes exactly the written message.
#[verifier::rlimit(40)]
pub proof fn law_read_after_write(json: Seq<char>, rest: Seq<u8>)
    requires
        encode_utf8(json).len() <= MAX_CONTENT_LENGTH,
    ensures
        read_outcome(encode_message(encode_utf8(json)) + rest) == Ok::<(Seq<char>, nat), ReadFault>(
            (json, encode_message(encode_utf8(json)).len()),
        ),
{
    let b = encode_utf8(json);
    let n = b.len();
    let d = crate::number::decimal_of(n);
    let dl = d.len() as int;
    let h = header_chars(n);
    let hb = encode_utf8(h);
    let data = encode_message(b) + rest;
    lemma_header_shape(n);
    lemma_first_line(n);
    lemma_ascii_bytes(h);
    assert(data =~= hb + b + rest);
    let e1 = 16 + dl + 2;
    assert forall|k: int| 0 <= k < 16 + dl + 1 implies data[k] != 10u8 by {
        assert(data[k] == hb[k]);
        assert(hb[k] == h[k] as u8);
    }
    assert(data[16 + dl + 1] == hb[16 + dl + 1]);
    lemma_line_end_at(data, 0, 16 + dl + 1);
    let l1 = h.subrange(0, e1);
    lemma_ascii_slice(h, 0, e1);
    assert(data.subrange(0, e1) =~= hb.subrange(0, e1));
    lemma_ascii_bytes(l1);
    assert(header_meaning(data.subrange(0, e1)) == HeaderMeaning::Length(n));
    assert(data[e1] == hb[e1]);
    assert(data[e1 + 1] == hb[e1 + 1]);
    lemma_line_end_at(data, e1, e1 + 1);
    let l2 = h.subrange(e1, e1 + 2);
    lemma_ascii_slice(h, e1, e1 + 2);
    assert(data.subrange(e1, e1 + 2) =~= hb.subrange(e1, e1 + 2));
    lemma_ascii_bytes(l2);
    assert(l2 =~= seq!['\r', '\n']);
    assert(header_meaning(data.subrange(e1, e1 + 2)) == HeaderMeaning::End);
    assert(read_headers(data, e1, Some(n)) == Ok::<(nat, int), ReadFault>((n, e1 + 2)));
    assert(read_headers(data, 0, None) == Ok::<(nat, int), ReadFault>((n, e1 + 2)));
    assert(data.subrange(e1 + 2, e1 + 2 + n) =~= b);
    vstd::utf8::encode_utf8_valid_utf8(json);
    vstd::utf8::encode_utf8_decode_utf8(json);
}

/// The headers of a framed message are read the same whatever follows
/// them: they give the length and end where the body begins.
proof fn lemma_read_header_part(n: nat, tail: Seq<u8>)
    requires
        n <= usize::MAX,
    ensures
        read_headers(encode_utf8(header_chars(n)) + tail, 0, None) == Ok::<(nat, int), ReadFault>(
            (n, encode_utf8(header_chars(n)).len() as int),
        ),
{
    let d = crate::number::decimal_of(n);
    let dl = d.len() as int;
    let h = header_chars(n);
    let hb = encode_utf8(h);
    let data = hb + tail;
    lemma_header_shape(n);
    lemma_first_line(n);
    lemma_ascii_bytes(h);
    let e1 = 16 + dl + 2;
    assert forall|k: int| 0 <= k < 16 + dl + 1 implies data[k] != 10u8 by {
        assert(data[k] == hb[k]);
        assert(hb[k] == h[k] as u8);
    }
    assert(data[16 + dl + 1] == hb[16 + dl + 1]);
    lemma_line_end_at(data, 0, 16 + dl + 1);
    let l1 = h.subrange(0, e1);
    lemma_ascii_slice(h, 0, e1);
    assert(data.subrange(0, e1) =~= hb.subrange(0, e1));
    lemma_ascii_bytes(l1);
    assert(header_meaning(data.subrange(0, e1)) == HeaderMeaning::Length(n));
    assert(data[e1] == hb[e1]);
    assert(data[e1 + 1] == hb[e1 + 1]);
    lemma_line_end_at(data, e1, e1 + 1);
    let l2 = h.subrange(e1, e1 + 2);
    lemma_ascii_slice(h, e1, e1 + 2);
    assert(data.subrange(e1, e1 + 2) =~= hb.subrange(e1, e1 + 2));
    lemma_ascii_bytes(l2);
    assert(l2 =~= seq!['\r', '\n']);
    assert(header_meaning(data.subrange(e1, e1 + 2)) == HeaderMeaning::End);
    assert(read_headers(data, e1, Some(n)) == Ok::<(nat, int), ReadFault>((n, e1 + 2)));
}

/// A message cut short anywhere in its body reads as the stream having
/// ended (the adapter gone): the headers are read, the body is not all
/// there.
pub proof fn law_read_cut_body(json: Seq<char>, k: int)
    requires
        encode_utf8(json).len() <= MAX_CONTENT_LENGTH,
        encode_message(encode_utf8(json)).len() - encode_utf8(json).len() <= k < encode_message(
            encode_utf8(json),
        ).len(),
    ensures
        read_outcome(encode_message(encode_utf8(json)).take(k)) == Err::<(Seq<char>, nat), ReadFault>(
            ReadFault::Ended,
        ),
{
    let b = encode_utf8(json);
    let hb = encode_utf8(header_chars(b.len()));
    let tail = b.take(k - hb.len());
    assert(encode_message(b).take(k) =~= hb + tail);
    lemma_read_header_part(b.len(), tail);
}

/// A length over the limit is refused once the headers are read, whatever
/// follows them.
pub proof fn law_read_too_large(n: nat, rest: Seq<u8>)
    requires
        MAX_CONTENT_LENGTH < n <= usize::MAX,
    ensures
        read_outcome(encode_utf8(header_chars(n)) + rest) == Err::<(Seq<char>, nat), ReadFault>(ReadFault::TooLarge(n)),
{
    lemma_read_header_part(n, rest);
}

/// Headers that end before any `Content-Length` are refused as missing it.
pub proof fn law_read_no_length(rest: Seq<u8>)
    ensures
        read_outcome(seq![13u8, 10u8] + rest) == Err::<(Seq<char>, nat), ReadFault>(ReadFault::NoLength),
{
    let data = seq![13u8, 10u8] + rest;
    let cs = seq!['\r', '\n'];
    assert(is_ascii_chars(cs)) by {
        assert forall|i| 0 <= i < cs.len() implies '\0' <= #[trigger] cs[i] <= '\u{7f}' by {
            assert(i == 0 || i == 1);
        }
    }
    lemma_ascii_bytes(cs);
    assert(encode_utf8(cs) =~= seq![13u8, 10u8]);
    assert(data[1] == 10u8);
    assert(data[0] == 13u8);
    lemma_line_end_at(data, 0, 1);
    assert(data.subrange(0, 2) =~= encode_utf8(cs));
    assert(header_meaning(data.subrange(0, 2)) == HeaderMeaning::End);
}

/// Which failure reading a message meets, by where it is met: nothing to
/// read, or a header line that is not UTF-8 or has a `Content-Length`
/// that is not a number, ends the read with that fault; headers that end
/// without a length give `NoLength`. Once the headers give a length, a
/// length over the limit is `TooLarge`, a body that is not all there is
/// `Ended` (the adapter gone), and a body that is not UTF-8 is
/// `BodyNotUtf8`. `read_message` turns each fault into the error that
/// `fault_error` names.
pub proof fn law_read_failures(data: Seq<u8>)
    ensures
        data.len() == 0 ==> read_outcome(data) == Err::<(Seq<char>, nat), ReadFault>(ReadFault::Ended),
        data.len() > 0 ==> match header_meaning(data.subrange(0, line_end(data, 0))) {
            HeaderMeaning::NotUtf8 => read_outcome(data) == Err::<(Seq<char>, nat), ReadFault>(ReadFault::LineNotUtf8),
            HeaderMeaning::BadLength(v) => read_outcome(data) == Err::<(Seq<char>, nat), ReadFault>(
                ReadFault::BadLength(v),
            ),
            HeaderMeaning::End => read_outcome(data) == Err::<(Seq<char>, nat), ReadFault>(ReadFault::NoLength),
            _ => true,
        },
        match read_headers(data, 0, None) {
            Ok((n, start)) => if n > MAX_CONTENT_LENGTH {
                read_outcome(data) == Err::<(Seq<char>, nat), ReadFault>(ReadFault::TooLarge(n))
            } else if start + n > data.len() {
                read_outcome(data) == Err::<(Seq<char>, nat), ReadFault>(ReadFault::Ended)
            } else if !valid_utf8(data.subrange(start, start + n)) {
                read_outcome(data) == Err::<(Seq<char>, nat), ReadFault>(
                    ReadFault::BodyNotUtf8(data.subrange(start, start + n)),
                )
            } else {
                read_outcome(data) is Ok
            },
            Err(f) => read_outcome(data) == Err::<(Seq<char>, nat), ReadFault>(f),
        },
{
    if data.len() > 0 {
        lemma_line_end(data, 0);
    }
}

/// A stream that ends right after the length header line, or inside the
/// blank line that should follow it, reads as the adapter gone.
pub proof fn law_read_cut_headers(n: nat, k: int)
    requires
        n <= usize::MAX,
        encode_utf8(header_chars(n)).len() - 2 <= k < encode_utf8(header_chars(n)).len(),
    ensures
        read_outcome(encode_utf8(header_chars(n)).take(k)) == Err::<(Seq<char>, nat), ReadFault>(ReadFault::Ended),
{
    let d = crate::number::decimal_of(n);
    let dl = d.len() as int;
    let h = header_chars(n);
    let hb = encode_utf8(h);
    let data = hb.take(k);
    lemma_header_shape(n);
    lemma_first_line(n);
    lemma_ascii_bytes(h);
    let e1 = 16 + dl + 2;
    assert(k == e1 || k == e1 + 1);
    assert forall|j: int| 0 <= j < 16 + dl + 1 implies data[j] != 10u8 by {
        assert(data[j] == hb[j]);
        assert(hb[j] == h[j] as u8);
    }
    assert(data[16 + dl + 1] == hb[16 + dl + 1]);
    lemma_line_end_at(data, 0, 16 + dl + 1);
    let l1 = h.subrange(0, e1);
    lemma_ascii_slice(h, 0, e1);
    assert(data.subrange(0, e1) =~= hb.subrange(0, e1));
    lemma_ascii_bytes(l1);
    assert(header_meaning(data.subrange(0, e1)) == HeaderMeaning::Length(n));
    if k == e1 + 1 {
        assert(data[e1] == hb[e1]);
        assert(hb[e1] == h[e1] as u8);
        assert(line_end(data, e1 + 1) == data.len());
        assert(line_end(data, e1) == data.len());
        let l2 = h.subrange(e1, e1 + 1);
        lemma_ascii_slice(h, e1, e1 + 1);
        assert(data.subrange(e1, e1 + 1) =~= hb.subrange(e1, e1 + 1));
        lemma_ascii_bytes(l2);
        assert(l2 =~= seq!['\r']);
        assert(crate::text::trim_start(l2) =~= seq![]) by {
            assert(crate::text::trim_start(l2.drop_first()) == l2.drop_first());
        }
        assert(crate::text::trimmed(l2).len() == 0);
        reveal_strlit("Content-Length:");
        assert(length_header().len() == 15);
        assert(!is_blank_line(l2));
        assert(length_value(l2) is None);
        assert(header_meaning(data.subrange(e1, e1 + 1)) == HeaderMeaning::Other);
        assert(read_headers(data, e1 + 1, Some(n)) == Err::<(nat, int), ReadFault>(ReadFault::Ended));
    }
    assert(read_headers(data, e1, Some(n)) == Err::<(nat, int), ReadFault>(ReadFault::Ended));
}

} // verus!
