//! Length-prefixed framing of IPC messages: a little-endian `u32` length,
//! then that many bytes.

use crate::common::Error;
use vstd::prelude::*;

verus! {

/// The largest message either side accepts (10 MiB).
pub const MAX_MESSAGE_SIZE: u32 = 10485760;

/// The little-endian bytes of a `u32`.
pub open spec fn le_bytes(n: nat) -> Seq<u8> {
    seq![(n % 256) as u8, ((n / 256) % 256) as u8, ((n / 65536) % 256) as u8, (n / 16777216) as u8]
}

/// The `u32` that four little-endian bytes hold.
pub open spec fn le_value(b: Seq<u8>) -> nat {
    (b[0] + 256 * b[1] + 65536 * b[2] + 16777216 * b[3]) as nat
}

/// The bytes of a framed message.
pub open spec fn framed(data: Seq<u8>) -> Seq<u8> {
    le_bytes(data.len()) + data
}

/// The message text of the error for a message over the size limit.
pub open spec fn too_large_text() -> Seq<char> {
    "Message too large"@
}

/// The text of the error for a stream that ends inside a frame.
pub open spec fn eof_text() -> Seq<char> {
    "failed to fill whole buffer"@
}

/// Frames a message for sending; messages over `MAX_MESSAGE_SIZE` are refused.
pub fn frame_message(data: &[u8]) -> (r: Result<Vec<u8>, Error>)
    ensures
        data@.len() <= MAX_MESSAGE_SIZE ==> (r matches Ok(out) && out@ == framed(data@)),
        data@.len() > MAX_MESSAGE_SIZE ==> (r matches Err(Error::Io(m)) && m@ == too_large_text()),
{
    if data.len() > MAX_MESSAGE_SIZE as usize {
        return Err(Error::Io(String::from_str("Message too large")));
    }
    let n = data.len() as u32;
    let mut out: Vec<u8> = Vec::new();
    out.push((n % 256) as u8);
    out.push(((n / 256) % 256) as u8);
    out.push(((n / 65536) % 256) as u8);
    out.push((n / 16777216) as u8);
    crate::text::append_bytes(&mut out, data);
    proof {
        assert(out@ =~= framed(data@));
    }
    Ok(out)
}

/// The length that a frame's four-byte prefix announces, refused when over
/// `MAX_MESSAGE_SIZE`.
pub fn frame_length(prefix: &[u8]) -> (r: Result<usize, Error>)
    requires
        prefix@.len() == 4,
    ensures
        le_value(prefix@) <= MAX_MESSAGE_SIZE ==> r == Ok::<usize, Error>(le_value(prefix@) as usize),
        le_value(prefix@) > MAX_MESSAGE_SIZE ==> (r matches Err(Error::Io(m)) && m@
            == "Message too large: "@ + crate::number::decimal_of(le_value(prefix@)) + " bytes"@),
{
    let n: u64 = prefix[0] as u64 + 256 * (prefix[1] as u64) + 65536 * (prefix[2] as u64)
        + 16777216 * (prefix[3] as u64);
    if n > MAX_MESSAGE_SIZE as u64 {
        let mut m = crate::text::chars_of("Message too large: ");
        let d = crate::number::decimal_chars(n);
        crate::text::append(&mut m, d.as_slice());
        crate::text::append_str(&mut m, " bytes");
        return Err(Error::Io(crate::text::string_from(m.as_slice())));
    }
    Ok(n as usize)
}

/// Reads one frame from the start of `data`: the message and the number of
/// bytes the frame takes.
pub fn read_frame(data: &[u8]) -> (r: Result<(Vec<u8>, usize), Error>)
    ensures
        data@.len() < 4 ==> (r matches Err(Error::Io(m)) && m@ == eof_text()),
        data@.len() >= 4 && le_value(data@) > MAX_MESSAGE_SIZE ==> (r matches Err(Error::Io(m))
            && m@ == "Message too large: "@ + crate::number::decimal_of(le_value(data@)) + " bytes"@),
        data@.len() >= 4 && le_value(data@) <= MAX_MESSAGE_SIZE && data@.len() < 4 + le_value(data@)
            ==> (r matches Err(Error::Io(m)) && m@ == eof_text()),
        data@.len() >= 4 && le_value(data@) <= MAX_MESSAGE_SIZE && data@.len() >= 4 + le_value(
            data@,
        ) ==> (r matches Ok((msg, k)) && msg@ == data@.subrange(4, 4 + le_value(data@) as int) && k == 4
            + le_value(data@)),
{
    if data.len() < 4 {
        return Err(Error::Io(String::from_str("failed to fill whole buffer")));
    }
    let prefix = crate::text::byte_range(data, 0, 4);
    proof {
        assert(le_value(prefix@) == le_value(data@));
    }
    let n = frame_length(prefix.as_slice())?;
    if data.len() - 4 < n {
        return Err(Error::Io(String::from_str("failed to fill whole buffer")));
    }
    let msg = crate::text::byte_range(data, 4, 4 + n);
    Ok((msg, 4 + n))
}

/// Little-endian bytes hold the number they were made from.
proof fn lemma_le_roundtrip(n: nat)
    requires
        n < 0x1_0000_0000,
    ensures
        le_value(le_bytes(n)) == n,
{
    let b = le_bytes(n);
    assert(b[0] == n % 256);
    assert(b[1] == (n / 256) % 256);
    assert(b[2] == (n / 65536) % 256);
    assert(b[3] == n / 16777216);
    assert(n % 256 + 256 * ((n / 256) % 256) + 65536 * ((n / 65536) % 256) + 16777216 * (n
        / 16777216) == n) by (nonlinear_arith)
        requires
            n < 0x1_0000_0000,
    ;
}

/// Reading a frame gives back the framed message, whatever follows it, and
/// consumes exactly the frame.
pub proof fn law_read_after_frame(data: Seq<u8>, rest: Seq<u8>)
    requires
        data.len() <= MAX_MESSAGE_SIZE,
    ensures
        ({
            let all = framed(data) + rest;
            &&& all.len() >= 4
            &&& le_value(all) == data.len()
            &&& all.subrange(4, 4 + le_value(all) as int) == data
        }),
{
    let all = framed(data) + rest;
    lemma_le_roundtrip(data.len());
    assert(all.subrange(0, 4) =~= le_bytes(data.len()));
    assert(le_value(all) == le_value(le_bytes(data.len())));
    assert(all.subrange(4, 4 + data.len() as int) =~= data);
}

} // verus!
