//! Framing codec for the wire format.
//!
//! A frame is `magic (6 bytes) | payload length (u32 LE) | kind (u32 LE) |
//! payload (length bytes, verbatim)`. The payload is an opaque byte
//! sequence; callers conventionally pass UTF-8 JSON text, but the codec
//! never inspects it.
//!
//! A mismatched magic tag is deliberately not a decode failure: the peer's
//! legacy behaviour is to proceed with the read anyway, so the decoder
//! reports the anomaly through an explicit `magic_ok` flag and still hands
//! back the frame. A short buffer, by contrast, is always an error; a
//! payload is never silently truncated.

use vstd::prelude::*;
use vstd::bytes::{spec_u32_from_le_bytes, spec_u32_to_le_bytes, lemma_auto_spec_u32_to_from_le_bytes, u32_from_le_bytes, u32_to_le_bytes};
use vstd::slice::{slice_subrange, slice_to_vec};

verus! {

/// Number of bytes in the magic tag.
pub const MAGIC_LEN: usize = 6;

/// Number of bytes in a full frame header: magic tag, length field, kind field.
pub const HEADER_LEN: usize = 14;

/// The six magic bytes (the ASCII text `i3-ipc`) that open every frame.
pub open spec fn magic_bytes() -> Seq<u8> {
    seq![105u8, 51u8, 45u8, 105u8, 112u8, 99u8]
}

/// The exact wire image of a frame carrying `kind` and `payload`.
pub open spec fn frame_bytes(kind: u32, payload: Seq<u8>) -> Seq<u8>
    recommends
        payload.len() <= u32::MAX,
{
    magic_bytes() + spec_u32_to_le_bytes(payload.len() as u32) + spec_u32_to_le_bytes(kind)
        + payload
}

/// The declared payload length read from a frame header.
pub open spec fn spec_header_len(s: Seq<u8>) -> u32
    recommends
        s.len() >= HEADER_LEN,
{
    spec_u32_from_le_bytes(s.subrange(6, 10))
}

/// The kind field read from a frame header.
pub open spec fn spec_header_kind(s: Seq<u8>) -> u32
    recommends
        s.len() >= HEADER_LEN,
{
    spec_u32_from_le_bytes(s.subrange(10, 14))
}

/// Whether a frame header opens with the expected magic tag.
pub open spec fn spec_header_magic_ok(s: Seq<u8>) -> bool
    recommends
        s.len() >= HEADER_LEN,
{
    s.subrange(0, MAGIC_LEN as int) == magic_bytes()
}

/// Decoding a complete frame buffer: defined exactly when the buffer holds a
/// full header and exactly as many payload bytes as the header declares.
/// The result carries the kind, the payload and the magic-tag flag.
pub open spec fn spec_decode_frame(s: Seq<u8>) -> Option<(u32, Seq<u8>, bool)> {
    if s.len() >= HEADER_LEN && s.len() == HEADER_LEN + spec_header_len(s) {
        Some((spec_header_kind(s), s.subrange(HEADER_LEN as int, s.len() as int), spec_header_magic_ok(s)))
    } else {
        None
    }
}

/// The fields of a decoded frame header.
pub struct FrameHeader {
    /// Whether the magic tag matched; a mismatch is an observable anomaly,
    /// not a failure.
    pub magic_ok: bool,
    /// The declared payload length; the reader must fetch exactly this many
    /// payload bytes after the header.
    pub payload_len: u32,
    /// The raw kind (or event) discriminator.
    pub kind: u32,
}

/// A decoded frame.
pub struct Frame {
    /// The raw kind (or event) discriminator.
    pub kind: u32,
    /// The payload bytes, exactly as many as the header declared.
    pub payload: Vec<u8>,
    /// Whether the magic tag matched.
    pub magic_ok: bool,
}

/// Why a buffer failed to decode as a frame.
#[derive(Debug, Clone, Copy, PartialEq, Eq, Structural)]
pub enum FrameError {
    /// The buffer ends before the header or the declared payload does.
    Truncated,
    /// The buffer holds more bytes than the header declares.
    TrailingBytes,
}

/// The magic tag as a fresh byte vector.
pub fn magic() -> (r: Vec<u8>)
    ensures
        r@ == magic_bytes(),
{
    let r: Vec<u8> = vec![105, 51, 45, 105, 112, 99];
    proof {
        assert(r@ =~= magic_bytes());
    }
    r
}

/// Encode a frame: magic tag, then the payload length and the kind as
/// little-endian 32-bit fields, then the payload verbatim.
pub fn encode_frame(kind: u32, payload: &Vec<u8>) -> (r: Vec<u8>)
    requires
        payload@.len() <= u32::MAX,
    ensures
        r@ == frame_bytes(kind, payload@),
        r@.len() == HEADER_LEN + payload@.len(),
{
    let mut out = magic();
    let mut len_field = u32_to_le_bytes(payload.len() as u32);
    out.append(&mut len_field);
    let mut kind_field = u32_to_le_bytes(kind);
    out.append(&mut kind_field);
    out.extend_from_slice(payload.as_slice());
    proof {
        assert(out@ =~= frame_bytes(kind, payload@));
    }
    out
}

/// Parse the fixed-size header at the front of `buf`: the magic-tag check
/// and the two little-endian fields.
pub fn parse_header(buf: &Vec<u8>) -> (r: FrameHeader)
    requires
        buf@.len() >= HEADER_LEN,
    ensures
        r.magic_ok == spec_header_magic_ok(buf@),
        r.payload_len == spec_header_len(buf@),
        r.kind == spec_header_kind(buf@),
{
    let magic_ok = buf[0] == 105 && buf[1] == 51 && buf[2] == 45 && buf[3] == 105
        && buf[4] == 112 && buf[5] == 99;
    proof {
        if magic_ok {
            assert(buf@.subrange(0, MAGIC_LEN as int) =~= magic_bytes());
        } else {
            if buf@.subrange(0, MAGIC_LEN as int) == magic_bytes() {
                assert(forall|i: int|
                    0 <= i < 6 ==> buf@[i] == #[trigger] buf@.subrange(0, MAGIC_LEN as int)[i]);
            }
        }
    }
    let payload_len = u32_from_le_bytes(slice_subrange(buf.as_slice(), 6, 10));
    let kind = u32_from_le_bytes(slice_subrange(buf.as_slice(), 10, 14));
    FrameHeader { magic_ok, payload_len, kind }
}

/// Decode one complete frame from `buf`. Succeeds exactly when the buffer
/// holds a full header followed by exactly the declared number of payload
/// bytes; a mismatched magic tag is reported in `magic_ok`, never an error.
pub fn decode_frame(buf: &Vec<u8>) -> (r: Result<Frame, FrameError>)
    ensures
        match r {
            Ok(f) => spec_decode_frame(buf@) == Some((f.kind, f.payload@, f.magic_ok)),
            Err(_) => spec_decode_frame(buf@) is None,
        },
{
    if buf.len() < HEADER_LEN {
        return Err(FrameError::Truncated);
    }
    let header = parse_header(buf);
    let declared = header.payload_len as usize;
    if buf.len() - HEADER_LEN < declared {
        return Err(FrameError::Truncated);
    }
    if buf.len() - HEADER_LEN > declared {
        return Err(FrameError::TrailingBytes);
    }
    let payload = slice_to_vec(slice_subrange(buf.as_slice(), HEADER_LEN, buf.len()));
    Ok(Frame { kind: header.kind, payload, magic_ok: header.magic_ok })
}

/// Round-trip framing: decoding an encoded frame yields exactly the kind
/// and payload that were encoded, and a clean magic tag.
pub proof fn lemma_frame_round_trip(kind: u32, payload: Seq<u8>)
    requires
        payload.len() <= u32::MAX,
    ensures
        spec_decode_frame(frame_bytes(kind, payload)) == Some((kind, payload, true)),
{
    lemma_auto_spec_u32_to_from_le_bytes();
    let s = frame_bytes(kind, payload);
    assert(s.subrange(0, MAGIC_LEN as int) =~= magic_bytes());
    assert(s.subrange(6, 10) =~= spec_u32_to_le_bytes(payload.len() as u32));
    assert(s.subrange(10, 14) =~= spec_u32_to_le_bytes(kind));
    assert(s.subrange(HEADER_LEN as int, s.len() as int) =~= payload);
}

/// Length fidelity, encoding side: the declared length field of an encoded
/// frame always equals the actual payload byte length, whatever bytes the
/// payload holds.
pub proof fn lemma_length_field(kind: u32, payload: Seq<u8>)
    requires
        payload.len() <= u32::MAX,
    ensures
        spec_header_len(frame_bytes(kind, payload)) == payload.len(),
        frame_bytes(kind, payload).len() == HEADER_LEN + payload.len(),
{
    lemma_auto_spec_u32_to_from_le_bytes();
    let s = frame_bytes(kind, payload);
    assert(s.subrange(6, 10) =~= spec_u32_to_le_bytes(payload.len() as u32));
}

/// Length fidelity, decoding side: whenever a buffer decodes as a frame,
/// the payload handed back holds exactly as many bytes as the header
/// declared, regardless of their values.
pub proof fn lemma_decode_reads_declared_length(s: Seq<u8>, kind: u32, payload: Seq<u8>, magic_ok: bool)
    requires
        spec_decode_frame(s) == Some((kind, payload, magic_ok)),
    ensures
        payload.len() == spec_header_len(s),
{
}

} // verus!
