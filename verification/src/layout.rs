//! The byte layout of a DCA1 container, as functions on sequences of bytes.
//!
//! ```text
//! offset 0      4 bytes   "DCA1"
//! offset 4      4 bytes   header length H, little endian, signed
//! offset 8      H bytes   header block
//! offset 8 + H  frames, each a length L (2 bytes, little endian, signed)
//!               followed by L bytes of payload
//! ```

use vstd::prelude::*;

verus! {

/// Number of bytes in front of the header block: the magic tag and the header length.
pub const PREAMBLE_LEN: usize = 8;

/// Longest payload that the two-byte signed length of a frame can announce.
pub const MAX_FRAME_LEN: usize = 32767;

/// Longest header block that the four-byte signed header length can announce.
pub const MAX_HEADER_LEN: usize = 2147483647;

/// The magic tag, the ASCII letters `DCA1`.
pub open spec fn magic() -> Seq<u8> {
    seq![0x44u8, 0x43u8, 0x41u8, 0x31u8]
}

/// The two bytes of `n`, least significant first.
pub open spec fn le16(n: int) -> Seq<u8> {
    seq![(n % 256) as u8, (n / 256 % 256) as u8]
}

/// The four bytes of `n`, least significant first.
pub open spec fn le32(n: int) -> Seq<u8> {
    seq![
        (n % 256) as u8,
        (n / 256 % 256) as u8,
        (n / 65536 % 256) as u8,
        (n / 16777216 % 256) as u8,
    ]
}

/// The unsigned number that the first two bytes of `bytes` spell, least significant first.
pub open spec fn le16_value(bytes: Seq<u8>) -> int {
    bytes[0] as int + 256 * (bytes[1] as int)
}

/// The unsigned number that the first four bytes of `bytes` spell, least significant first.
pub open spec fn le32_value(bytes: Seq<u8>) -> int {
    bytes[0] as int + 256 * (bytes[1] as int) + 65536 * (bytes[2] as int) + 16777216 * (
    bytes[3] as int)
}

/// A payload that fits the length field of a frame.
pub open spec fn valid_frame(frame: Seq<u8>) -> bool {
    frame.len() <= MAX_FRAME_LEN
}

/// Every payload fits the length field of its frame.
pub open spec fn valid_frames(frames: Seq<Seq<u8>>) -> bool {
    forall|i: int| 0 <= i < frames.len() ==> valid_frame(#[trigger] frames[i])
}

/// A header block that fits the header length field.
pub open spec fn valid_header(header: Seq<u8>) -> bool {
    header.len() <= MAX_HEADER_LEN
}

/// One frame on the wire: its length, then its payload.
pub open spec fn frame_bytes(frame: Seq<u8>) -> Seq<u8> {
    le16(frame.len() as int) + frame
}

/// The frames on the wire, one after the other.
pub open spec fn frames_bytes(frames: Seq<Seq<u8>>) -> Seq<u8>
    decreases frames.len(),
{
    if frames.len() == 0 {
        Seq::empty()
    } else {
        frame_bytes(frames.first()) + frames_bytes(frames.drop_first())
    }
}

/// The bytes that the frames take on the wire: two for each length, and the payloads.
pub open spec fn frames_size(frames: Seq<Seq<u8>>) -> nat
    decreases frames.len(),
{
    if frames.len() == 0 {
        0
    } else {
        2 + frames.first().len() + frames_size(frames.drop_first())
    }
}

/// A whole container: magic tag, header length, header block, frames.
pub open spec fn container_bytes(header: Seq<u8>, frames: Seq<Seq<u8>>) -> Seq<u8> {
    magic() + le32(header.len() as int) + header + frames_bytes(frames)
}

/// Reads frames until the bytes are used up. `None` where a length is cut short,
/// is negative as a signed number, or announces more bytes than are left.
pub open spec fn parse_frames(bytes: Seq<u8>) -> Option<Seq<Seq<u8>>>
    decreases bytes.len(),
{
    if bytes.len() == 0 {
        Some(Seq::empty())
    } else if bytes.len() < 2 {
        None
    } else {
        let n = le16_value(bytes);
        if n > MAX_FRAME_LEN || bytes.len() < 2 + n {
            None
        } else {
            match parse_frames(bytes.skip(2 + n)) {
                Some(rest) => Some(seq![bytes.subrange(2, 2 + n)] + rest),
                None => None,
            }
        }
    }
}

/// Reads a whole container: the header block and the frames. `None` where the
/// magic tag is missing, the header length is negative as a signed number or
/// announces more bytes than are left, or the frames do not parse.
pub open spec fn parse_container(bytes: Seq<u8>) -> Option<(Seq<u8>, Seq<Seq<u8>>)> {
    if bytes.len() < PREAMBLE_LEN || bytes.subrange(0, 4) != magic() {
        None
    } else {
        let h = le32_value(bytes.subrange(4, 8));
        if h > MAX_HEADER_LEN || bytes.len() < PREAMBLE_LEN + h {
            None
        } else {
            match parse_frames(bytes.skip(PREAMBLE_LEN + h)) {
                Some(frames) => Some((bytes.subrange(PREAMBLE_LEN as int, PREAMBLE_LEN + h), frames)),
                None => None,
            }
        }
    }
}

/// A two-byte length reads back as the number that was written.
pub proof fn le16_round_trip(n: int)
    requires
        0 <= n < 65536,
    ensures
        le16(n).len() == 2,
        le16_value(le16(n)) == n,
{
}

/// A four-byte length reads back as the number that was written.
pub proof fn le32_round_trip(n: int)
    requires
        0 <= n < 4294967296,
    ensures
        le32(n).len() == 4,
        le32_value(le32(n)) == n,
{
}

/// Two bytes are the length that they spell, written out again.
pub proof fn le16_of_value(bytes: Seq<u8>)
    requires
        bytes.len() >= 2,
    ensures
        le16(le16_value(bytes)) == bytes.subrange(0, 2),
        0 <= le16_value(bytes) < 65536,
{
    assert(le16(le16_value(bytes)) =~= bytes.subrange(0, 2));
}

/// Four bytes are the length that they spell, written out again.
pub proof fn le32_of_value(bytes: Seq<u8>)
    requires
        bytes.len() >= 4,
    ensures
        le32(le32_value(bytes)) == bytes.subrange(0, 4),
        0 <= le32_value(bytes) < 4294967296,
{
    assert(le32(le32_value(bytes)) =~= bytes.subrange(0, 4));
}

/// Appending one frame to a list appends its bytes to the list's bytes.
pub proof fn frames_bytes_push(frames: Seq<Seq<u8>>, frame: Seq<u8>)
    ensures
        frames_bytes(frames.push(frame)) == frames_bytes(frames) + frame_bytes(frame),
        frames_size(frames.push(frame)) == frames_size(frames) + 2 + frame.len(),
    decreases frames.len(),
{
    let longer = frames.push(frame);
    if frames.len() == 0 {
        assert(longer.first() == frame);
        assert(longer.drop_first() =~= Seq::<Seq<u8>>::empty());
        assert(frames_size(longer.drop_first()) == 0);
        assert(frames_bytes(longer.drop_first()) =~= Seq::<u8>::empty());
        assert(frames_bytes(longer) =~= frames_bytes(frames) + frame_bytes(frame));
    } else {
        frames_bytes_push(frames.drop_first(), frame);
        assert(longer.first() == frames.first());
        assert(longer.drop_first() =~= frames.drop_first().push(frame));
        assert(frames_bytes(longer) =~= frames_bytes(frames) + frame_bytes(frame));
    }
}

/// The frames take on the wire exactly the bytes that `frames_size` counts.
pub proof fn frames_bytes_len(frames: Seq<Seq<u8>>)
    ensures
        frames_bytes(frames).len() == frames_size(frames),
    decreases frames.len(),
{
    if frames.len() > 0 {
        frames_bytes_len(frames.drop_first());
    }
}

/// A produced buffer starts with the magic tag; the four bytes after it spell
/// the length of the header block; the header block follows them unchanged.
pub proof fn container_preamble(header: Seq<u8>, frames: Seq<Seq<u8>>)
    requires
        valid_header(header),
    ensures
        container_bytes(header, frames).len() >= PREAMBLE_LEN + header.len(),
        container_bytes(header, frames).subrange(0, 4) == magic(),
        le32_value(container_bytes(header, frames).subrange(4, 8)) == header.len(),
        container_bytes(header, frames).subrange(PREAMBLE_LEN as int, PREAMBLE_LEN + header.len())
            == header,
        container_bytes(header, frames).skip(PREAMBLE_LEN + header.len()) == frames_bytes(frames),
{
    let bytes = container_bytes(header, frames);
    le32_round_trip(header.len() as int);
    assert(bytes.subrange(0, 4) =~= magic());
    assert(bytes.subrange(4, 8) =~= le32(header.len() as int));
    assert(bytes.subrange(PREAMBLE_LEN as int, PREAMBLE_LEN + header.len()) =~= header);
    assert(bytes.skip(PREAMBLE_LEN + header.len()) =~= frames_bytes(frames));
}

/// Behind the preamble and the header block, a produced buffer holds for each
/// frame two bytes and its payload, and nothing else.
pub proof fn container_frame_boundary(header: Seq<u8>, frames: Seq<Seq<u8>>)
    ensures
        frames_size(frames) == container_bytes(header, frames).len() - PREAMBLE_LEN - header.len(),
{
    frames_bytes_len(frames);
}

/// Frames that were written are read back as they were.
pub proof fn parse_frames_of_frames_bytes(frames: Seq<Seq<u8>>)
    requires
        valid_frames(frames),
    ensures
        parse_frames(frames_bytes(frames)) == Some(frames),
    decreases frames.len(),
{
    if frames.len() > 0 {
        let first = frames.first();
        let rest = frames.drop_first();
        let bytes = frames_bytes(frames);
        assert(valid_frame(first));
        assert(valid_frames(rest)) by {
            assert forall|i: int| 0 <= i < rest.len() implies valid_frame(#[trigger] rest[i]) by {
                assert(rest[i] == frames[i + 1]);
            }
        }
        parse_frames_of_frames_bytes(rest);
        le16_round_trip(first.len() as int);
        assert(bytes[0] == le16(first.len() as int)[0]);
        assert(bytes[1] == le16(first.len() as int)[1]);
        assert(le16_value(bytes) == first.len());
        assert(bytes.skip(2 + first.len() as int) =~= frames_bytes(rest));
        assert(bytes.subrange(2, 2 + first.len() as int) =~= first);
        assert(seq![first] + rest =~= frames);
    }
}

/// Bytes that read as frames are those frames written out, and each fits its length field.
pub proof fn frames_bytes_of_parse_frames(bytes: Seq<u8>)
    requires
        parse_frames(bytes) is Some,
    ensures
        frames_bytes(parse_frames(bytes).unwrap()) == bytes,
        valid_frames(parse_frames(bytes).unwrap()),
    decreases bytes.len(),
{
    if bytes.len() > 0 {
        let n = le16_value(bytes);
        let first = bytes.subrange(2, 2 + n);
        let rest = parse_frames(bytes.skip(2 + n)).unwrap();
        let frames = seq![first] + rest;
        frames_bytes_of_parse_frames(bytes.skip(2 + n));
        le16_of_value(bytes);
        assert(frames.first() == first);
        assert(frames.drop_first() =~= rest);
        assert(frames_bytes(frames) =~= bytes);
        assert forall|i: int| 0 <= i < frames.len() implies valid_frame(#[trigger] frames[i]) by {
            if i > 0 {
                assert(frames[i] == rest[i - 1]);
            }
        }
    } else {
        assert(frames_bytes(parse_frames(bytes).unwrap()) =~= bytes);
    }
}

/// Reading undoes writing: a container built from a header block and frames
/// that fit their length fields reads back as that header block and those frames.
pub proof fn parse_inverts_build(header: Seq<u8>, frames: Seq<Seq<u8>>)
    requires
        valid_header(header),
        valid_frames(frames),
    ensures
        parse_container(container_bytes(header, frames)) == Some((header, frames)),
{
    container_preamble(header, frames);
    parse_frames_of_frames_bytes(frames);
}

/// Writing undoes reading: bytes that read as a container are exactly the
/// container built from what was read, so no two byte strings read alike.
pub proof fn build_inverts_parse(bytes: Seq<u8>)
    requires
        parse_container(bytes) is Some,
    ensures
        container_bytes(parse_container(bytes).unwrap().0, parse_container(bytes).unwrap().1)
            == bytes,
        valid_header(parse_container(bytes).unwrap().0),
        valid_frames(parse_container(bytes).unwrap().1),
{
    let h = le32_value(bytes.subrange(4, 8));
    let header = parse_container(bytes).unwrap().0;
    let frames = parse_container(bytes).unwrap().1;
    frames_bytes_of_parse_frames(bytes.skip(PREAMBLE_LEN + h));
    le32_of_value(bytes.subrange(4, 8));
    assert(bytes.subrange(4, 8).subrange(0, 4) =~= bytes.subrange(4, 8));
    assert(container_bytes(header, frames) =~= bytes.subrange(0, 4) + bytes.subrange(4, 8)
        + header + bytes.skip(PREAMBLE_LEN + h));
    assert(container_bytes(header, frames) =~= bytes);
}

} // verus!
