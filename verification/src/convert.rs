//! From an Ogg stream and the metadata of its track to a DCA1 container.

use crate::dca::{has_required_fields, has_short_text, header_of, ContainerState, DcaWrapper};
use crate::error::DcaError;
use crate::extractor::{audio_packets, malformed, OggExtractor};
use crate::header::header_json;
use crate::layout::{container_bytes, valid_frame, valid_frames, valid_header};
use crate::metadata::Metadata;
use vstd::prelude::*;

verus! {

/// How many frames at the head of the list fit their length field.
pub open spec fn leading_valid(frames: Seq<Seq<u8>>) -> nat
    decreases frames.len(),
{
    if frames.len() == 0 || !valid_frame(frames.first()) {
        0
    } else {
        1 + leading_valid(frames.drop_first())
    }
}

/// How the writing of a stream's packets ends: over the first packet that is
/// too long for a frame, else over the error in a malformed stream, else well.
pub open spec fn outcome(packets: Seq<Seq<u8>>, fails: bool) -> Result<(), DcaError> {
    if leading_valid(packets) < packets.len() {
        Err(DcaError::FrameTooLarge)
    } else if fails {
        Err(DcaError::MalformedSource)
    } else {
        Ok(())
    }
}

/// `leading_valid` counts up to the first frame that is too long, or up to
/// the end where there is none.
pub proof fn leading_valid_counts(frames: Seq<Seq<u8>>, k: int)
    requires
        0 <= k <= frames.len(),
        valid_frames(frames.take(k)),
        k < frames.len() ==> !valid_frame(frames[k]),
    ensures
        leading_valid(frames) == k,
    decreases frames.len(),
{
    if k > 0 {
        let rest = frames.drop_first();
        assert(frames.first() == frames.take(k)[0]);
        assert(rest.take(k - 1) =~= frames.take(k).drop_first());
        assert forall|i: int| 0 <= i < rest.take(k - 1).len() implies valid_frame(
            #[trigger] rest.take(k - 1)[i],
        ) by {
            assert(rest.take(k - 1)[i] == frames.take(k)[i + 1]);
        }
        leading_valid_counts(rest, k - 1);
    }
}

/// Writes the audio packets of a stream as frames, in order, until the
/// stream ends or a packet is too long for a frame. The header must have been
/// written.
pub fn write_packets(container: &mut DcaWrapper, extractor: &mut OggExtractor) -> (done: Result<
    (),
    DcaError,
>)
    requires
        old(container).wf(),
        old(container)@.header is Some,
        old(extractor).wf(),
    ensures
        final(container).wf(),
        final(extractor).wf(),
        final(container).metadata() == old(container).metadata(),
        final(container)@ == (ContainerState {
            header: old(container)@.header,
            frames: old(container)@.frames + old(extractor).remaining().take(
                leading_valid(old(extractor).remaining()) as int,
            ),
        }),
        done == outcome(old(extractor).remaining(), old(extractor).fails()),
{
    let ghost packets = extractor.remaining();
    let ghost fails = extractor.fails();
    let ghost written = container@.frames;
    let ghost mut k: int = 0;
    proof {
        assert(packets.skip(0) =~= packets);
        assert(written + packets.take(0) =~= written);
    }
    loop
        invariant
            container.wf(),
            extractor.wf(),
            container.metadata() == old(container).metadata(),
            0 <= k <= packets.len(),
            valid_frames(packets.take(k)),
            extractor.remaining() == packets.skip(k),
            extractor.fails() == fails,
            container@ == (ContainerState {
                header: old(container)@.header,
                frames: written + packets.take(k),
            }),
            old(container)@.header is Some,
            packets == old(extractor).remaining(),
            fails == old(extractor).fails(),
            written == old(container)@.frames,
        decreases packets.len() - k,
    {
        match extractor.next_packet() {
            Some(Ok(data)) => {
                assert(data@ == packets[k]);
                match container.write_audio_data(data.as_slice()) {
                    Ok(()) => {
                        proof {
                            assert(packets.take(k + 1) =~= packets.take(k).push(packets[k]));
                            assert(written + packets.take(k + 1) =~= (written + packets.take(
                                k,
                            )).push(packets[k]));
                            assert(packets.skip(k).drop_first() =~= packets.skip(k + 1));
                            assert forall|i: int| 0 <= i < packets.take(k + 1).len() implies valid_frame(
                            #[trigger] packets.take(k + 1)[i]) by {
                                if i < k {
                                    assert(packets.take(k + 1)[i] == packets.take(k)[i]);
                                }
                            }
                            k = k + 1;
                        }
                    },
                    Err(e) => {
                        proof {
                            leading_valid_counts(packets, k);
                        }
                        return Err(e);
                    },
                }
            },
            Some(Err(e)) => {
                proof {
                    assert(packets.take(k) =~= packets);
                    leading_valid_counts(packets, k);
                }
                return Err(e);
            },
            None => {
                proof {
                    assert(packets.take(k) =~= packets);
                    leading_valid_counts(packets, k);
                }
                return Ok(());
            },
        }
    }
}

/// The container of a track: the header of its metadata, then one frame for
/// each audio packet of its Ogg stream.
///
/// Without a title or an artist nothing is built, nor where the header is too
/// long to be announced. A packet that is too long for a frame and a
/// malformed stream end the conversion with their error, whichever comes
/// first in the stream.
pub fn convert(metadata: Metadata, ogg: Vec<u8>) -> (converted: Result<Vec<u8>, DcaError>)
    ensures
        if !has_required_fields(metadata) {
            converted == Err::<Vec<u8>, DcaError>(DcaError::MissingRequiredField)
        } else if !valid_header(header_json(header_of(metadata))) {
            converted == Err::<Vec<u8>, DcaError>(DcaError::SerializationFailure)
        } else {
            match outcome(audio_packets(ogg@), malformed(ogg@)) {
                Ok(()) => {
                    &&& valid_frames(audio_packets(ogg@))
                    &&& !malformed(ogg@)
                    &&& converted matches Ok(bytes) && bytes@ == container_bytes(
                        header_json(header_of(metadata)),
                        audio_packets(ogg@),
                    )
                },
                Err(e) => converted == Err::<Vec<u8>, DcaError>(e),
            }
        },
        has_short_text(metadata) ==> valid_header(header_json(header_of(metadata))),
{
    let mut container = DcaWrapper::new(metadata);
    match container.write_dca_header() {
        Ok(()) => {},
        Err(e) => {
            return Err(e);
        },
    }
    let mut extractor = OggExtractor::new(ogg);
    match write_packets(&mut container, &mut extractor) {
        Ok(()) => {
            proof {
                all_written(audio_packets(ogg@), malformed(ogg@));
            }
            Ok(container.raw())
        },
        Err(e) => Err(e),
    }
}

/// Where the writing ends well, every packet fits a frame and all are written.
pub proof fn all_written(packets: Seq<Seq<u8>>, fails: bool)
    requires
        outcome(packets, fails) is Ok,
    ensures
        valid_frames(packets),
        !fails,
        Seq::<Seq<u8>>::empty() + packets.take(leading_valid(packets) as int) == packets,
{
    leading_valid_fits(packets);
    assert(packets.take(packets.len() as int) =~= packets);
    assert(Seq::<Seq<u8>>::empty() + packets =~= packets);
    if !valid_frames(packets) {
        let i = choose|i: int| 0 <= i < packets.len() && !valid_frame(packets[i]);
        leading_valid_bound(packets, i);
    }
}

/// `leading_valid` counts no more frames than there are.
pub proof fn leading_valid_fits(frames: Seq<Seq<u8>>)
    ensures
        leading_valid(frames) <= frames.len(),
    decreases frames.len(),
{
    if frames.len() > 0 {
        leading_valid_fits(frames.drop_first());
    }
}

/// `leading_valid` stops at or before any frame that is too long.
pub proof fn leading_valid_bound(frames: Seq<Seq<u8>>, i: int)
    requires
        0 <= i < frames.len(),
        !valid_frame(frames[i]),
    ensures
        leading_valid(frames) <= i,
    decreases frames.len(),
{
    if i > 0 && valid_frame(frames.first()) {
        leading_valid_bound(frames.drop_first(), i - 1);
    }
}

} // verus!
