//! The two framings of an exchange: fixed-size binary frames, and text lines
//! ended by CR LF.
use crate::crc::{calculate_crc, crc_bytes};
use crate::session::SerialError;
use vstd::prelude::*;
use vstd::string::StringSliceAdditionalSpecFns;

verus! {

/// Size of a binary response frame: the largest response the binary
/// protocol expects.
pub const HEX_FRAME_LEN: usize = 32;

/// Capacity of the buffer a text response is read into.
pub const STRING_BUFFER_LEN: usize = 128;

/// Carriage return, the first byte of a line terminator.
pub const CR: u8 = 13;

/// Line feed, the second byte of a line terminator.
pub const LF: u8 = 10;

/// The text that `bytes` decode to, invalid sequences replaced by U+FFFD.
pub uninterp spec fn utf8_lossy(bytes: Seq<u8>) -> Seq<char>;

/// Whether every byte of `bytes` is ASCII.
pub open spec fn all_ascii(bytes: Seq<u8>) -> bool {
    forall|i: int| 0 <= i < bytes.len() ==> bytes[i] < 128
}

/// The characters of ASCII bytes, one for one.
pub open spec fn ascii_chars(bytes: Seq<u8>) -> Seq<char> {
    bytes.map_values(|b: u8| b as char)
}

/// Relies on `String::from_utf8_lossy`: the text depends on the bytes alone,
/// and ASCII bytes, being valid UTF-8, decode to the characters of the same
/// codes.
#[verifier::external_body]
fn decode_lossy(bytes: &[u8]) -> (r: String)
    ensures
        r@ == utf8_lossy(bytes@),
        all_ascii(bytes@) ==> r@ == ascii_chars(bytes@),
{
    String::from_utf8_lossy(bytes).into_owned()
}

/// The bytes written for text command `data`: its UTF-8 bytes, then CR LF.
pub fn frame_string_request(data: &str) -> (r: Vec<u8>)
    ensures
        r@ == data.spec_bytes() + seq![CR, LF],
{
    let mut r = vstd::slice::slice_to_vec(data.as_bytes());
    r.push(CR);
    r.push(LF);
    assert(r@ =~= data.spec_bytes() + seq![CR, LF]);
    r
}

/// The text of a response `received` as it was read: its last two bytes (the
/// terminator) are removed and the rest is decoded as UTF-8, invalid
/// sequences replaced. A response shorter than two bytes is `ShortResponse`.
pub fn parse_string_response(received: &[u8]) -> (r: Result<String, SerialError>)
    ensures
        received@.len() < 2 ==> r == Err::<String, SerialError>(SerialError::ShortResponse),
        received@.len() >= 2 ==> r is Ok && r->Ok_0@ == utf8_lossy(
            received@.subrange(0, received@.len() - 2),
        ),
        received@.len() >= 2 && all_ascii(received@.subrange(0, received@.len() - 2)) ==> r is Ok
            && r->Ok_0@ == ascii_chars(received@.subrange(0, received@.len() - 2)),
{
    if received.len() < 2 {
        return Err(SerialError::ShortResponse);
    }
    let body = &received[0..received.len() - 2];
    Ok(decode_lossy(body))
}

/// The binary frame for response `received`: its first `HEX_FRAME_LEN`
/// bytes, and zeros past its end.
pub fn frame_hex_response(received: &[u8]) -> (r: [u8; 32])
    ensures
        forall|i: int|
            0 <= i < HEX_FRAME_LEN ==> #[trigger] r@[i] == if i < received@.len() {
                received@[i]
            } else {
                0u8
            },
{
    let mut frame: [u8; 32] = [0u8; 32];
    let n: usize = if received.len() < HEX_FRAME_LEN {
        received.len()
    } else {
        HEX_FRAME_LEN
    };
    let mut i: usize = 0;
    while i < n
        invariant
            n <= HEX_FRAME_LEN,
            n <= received@.len(),
            n == HEX_FRAME_LEN || n == received@.len(),
            i <= n,
            frame@.len() == HEX_FRAME_LEN,
            forall|j: int| 0 <= j < i ==> #[trigger] frame@[j] == received@[j],
            forall|j: int| i <= j < HEX_FRAME_LEN ==> #[trigger] frame@[j] == 0u8,
        decreases n - i,
    {
        frame[i] = received[i];
        i = i + 1;
    }
    frame
}

/// Appends the checksum of `command` to it, low byte first.
pub fn append_crc(command: &mut Vec<u8>)
    ensures
        final(command)@ == old(command)@ + crc_bytes(old(command)@),
{
    let crc = calculate_crc(command.as_slice());
    command.push(crc[0]);
    command.push(crc[1]);
    assert(final(command)@ =~= old(command)@ + crc_bytes(old(command)@));
}

/// Whether the first `len` bytes of `frame` end in the checksum of the bytes
/// before it.
pub open spec fn crc_valid(frame: Seq<u8>, len: int) -> bool {
    &&& 2 <= len <= frame.len()
    &&& frame.subrange(len - 2, len) == crc_bytes(frame.subrange(0, len - 2))
}

/// Checks that the first `len` bytes of `frame` end in the checksum of the
/// bytes before it; false when `len` is under two or past the frame's end.
pub fn check_crc(frame: &[u8], len: usize) -> (r: bool)
    ensures
        r == crc_valid(frame@, len as int),
{
    if len < 2 || len > frame.len() {
        return false;
    }
    let crc = calculate_crc(&frame[0..len - 2]);
    let ok = frame[len - 2] == crc[0] && frame[len - 1] == crc[1];
    assert(ok ==> frame@.subrange(len - 2, len as int) =~= crc_bytes(
        frame@.subrange(0, len - 2),
    ));
    assert(frame@.subrange(len - 2, len as int)[0] == frame@[len - 2]);
    assert(frame@.subrange(len - 2, len as int)[1] == frame@[len - 1]);
    ok
}

} // verus!
