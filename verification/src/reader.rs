//! Reading a DCA1 container back into its header block and its frames.

use crate::layout::{
    le16_value, le32_value, magic, parse_container, parse_frames, MAX_FRAME_LEN, MAX_HEADER_LEN,
    PREAMBLE_LEN,
};
use vstd::prelude::*;
use vstd::slice::{slice_subrange, slice_to_vec};

verus! {

/// A container taken apart: the header block as it was written, and the
/// payloads of the frames in their order.
#[derive(Clone, Debug, PartialEq, Eq)]
pub struct DcaContainer {
    pub header: Vec<u8>,
    pub frames: Vec<Vec<u8>>,
}

/// The payloads of a list of frames as sequences of bytes.
pub open spec fn payloads(frames: Seq<Vec<u8>>) -> Seq<Seq<u8>> {
    frames.map_values(|frame: Vec<u8>| frame@)
}

impl View for DcaContainer {
    type V = (Seq<u8>, Seq<Seq<u8>>);

    open spec fn view(&self) -> (Seq<u8>, Seq<Seq<u8>>) {
        (self.header@, payloads(self.frames@))
    }
}

/// The frames that were read, followed by those that the rest of the bytes
/// holds; nothing where the rest does not parse.
pub open spec fn followed_by(done: Seq<Seq<u8>>, rest: Option<Seq<Seq<u8>>>) -> Option<
    Seq<Seq<u8>>,
> {
    match rest {
        Some(more) => Some(done + more),
        None => None,
    }
}

/// Reads frames until the bytes are used up, as `parse_frames` says.
pub fn read_frames(bytes: &[u8]) -> (read: Option<Vec<Vec<u8>>>)
    ensures
        match read {
            Some(frames) => parse_frames(bytes@) == Some(payloads(frames@)),
            None => parse_frames(bytes@) is None,
        },
{
    let total = bytes.len();
    let mut frames: Vec<Vec<u8>> = Vec::new();
    let mut pos: usize = 0;
    proof {
        assert(bytes@.skip(0) =~= bytes@);
        assert(payloads(frames@) =~= Seq::<Seq<u8>>::empty());
        assert(followed_by(payloads(frames@), parse_frames(bytes@)) =~= parse_frames(bytes@));
    }
    while pos < total
        invariant
            total == bytes@.len(),
            pos <= total,
            parse_frames(bytes@) == followed_by(
                payloads(frames@),
                parse_frames(bytes@.skip(pos as int)),
            ),
        decreases total - pos,
    {
        let ghost rest = bytes@.skip(pos as int);
        let ghost done = payloads(frames@);
        if total - pos < 2 {
            return None;
        }
        let n: usize = bytes[pos] as usize + 256 * (bytes[pos + 1] as usize);
        assert(n == le16_value(rest));
        if n > MAX_FRAME_LEN || total - pos - 2 < n {
            return None;
        }
        let frame = slice_to_vec(slice_subrange(bytes, pos + 2, pos + 2 + n));
        proof {
            assert(frame@ =~= rest.subrange(2, 2 + n));
            assert(rest.skip(2 + n) =~= bytes@.skip(pos + 2 + n));
            assert(payloads(frames@.push(frame)) =~= done.push(frame@));
            let tail = parse_frames(rest.skip(2 + n));
            if tail is Some {
                assert(done + (seq![frame@] + tail.unwrap()) =~= done.push(frame@) + tail.unwrap());
            }
        }
        frames.push(frame);
        pos = pos + 2 + n;
    }
    proof {
        assert(payloads(frames@) + Seq::<Seq<u8>>::empty() =~= payloads(frames@));
    }
    Some(frames)
}

/// Reads a whole container, as `parse_container` says: the header block and
/// the frames of bytes that are a container, and nothing of any other bytes.
pub fn read_container(bytes: &[u8]) -> (read: Option<DcaContainer>)
    ensures
        match read {
            Some(container) => parse_container(bytes@) == Some(container@),
            None => parse_container(bytes@) is None,
        },
{
    let total = bytes.len();
    if total < PREAMBLE_LEN {
        return None;
    }
    if bytes[0] != 0x44 || bytes[1] != 0x43 || bytes[2] != 0x41 || bytes[3] != 0x31 {
        proof {
            let tag = bytes@.subrange(0, 4);
            assert(tag[0] == bytes@[0] && tag[1] == bytes@[1] && tag[2] == bytes@[2] && tag[3]
                == bytes@[3]);
        }
        return None;
    }
    assert(bytes@.subrange(0, 4) =~= magic());
    let h: u64 = bytes[4] as u64 + 256 * (bytes[5] as u64) + 65536 * (bytes[6] as u64) + 16777216
        * (bytes[7] as u64);
    proof {
        let field = bytes@.subrange(4, 8);
        assert(field[0] == bytes@[4] && field[1] == bytes@[5] && field[2] == bytes@[6] && field[3]
            == bytes@[7]);
        assert(h == le32_value(field));
    }
    if h > MAX_HEADER_LEN as u64 || ((total - PREAMBLE_LEN) as u64) < h {
        return None;
    }
    let body = PREAMBLE_LEN + h as usize;
    let header = slice_to_vec(slice_subrange(bytes, PREAMBLE_LEN, body));
    proof {
        assert(bytes@.subrange(body as int, total as int) =~= bytes@.skip(body as int));
    }
    match read_frames(slice_subrange(bytes, body, total)) {
        Some(frames) => Some(DcaContainer { header, frames }),
        None => None,
    }
}

} // verus!
