//! The audio packets of an Opus stream in an Ogg container.
//!
//! An Opus stream opens with two packets that hold no audio, the
//! identification header and the comment header. The extractor drops the
//! first two packets of the stream, whatever they hold, and hands on every
//! packet after them.

use crate::error::DcaError;
use ogg::OggReadError;
use ogg::PacketReader;
use std::io::Cursor;
use vstd::prelude::*;

verus! {

/// How many packets at the head of a stream hold no audio.
pub const LEADING_PACKETS: u8 = 2;

/// `ogg::OggReadError`, why a stream could not be read, taken as it is.
#[verifier::external_type_specification]
#[verifier::external_body]
pub struct ExOggReadError(OggReadError);

/// An `ogg::PacketReader` over a buffer in memory.
#[verifier::external_body]
pub struct PacketSource {
    reader: PacketReader<Cursor<Vec<u8>>>,
}

/// What an Ogg reader makes of a buffer: the payloads of the packets that it
/// yields before it stops, and whether it stops over an error (`true`) or at
/// the end of the stream (`false`).
pub uninterp spec fn demux(bytes: Seq<u8>) -> (Seq<Seq<u8>>, bool);

/// What a source still holds: the payloads of the packets that it yields
/// from now on before it stops, and whether it stops over an error (`true`)
/// or at the end of the stream (`false`).
pub uninterp spec fn pending(source: PacketSource) -> (Seq<Seq<u8>>, bool);

/// `ogg::PacketReader::new` on a cursor at the start of the buffer. The new
/// reader has read nothing, so it holds what an Ogg reader makes of the
/// buffer.
#[verifier::external_body]
fn open_source(bytes: Vec<u8>) -> (source: PacketSource)
    ensures
        pending(source) == demux(bytes@),
{
    PacketSource { reader: PacketReader::new(Cursor::new(bytes)) }
}

/// `ogg::PacketReader::read_packet`. A packet that it returns is the first
/// of those that the source held, and the source holds the rest afterwards.
/// It returns no packet where the source held none: `Ok(None)` at the end of
/// the stream, an error where the stream is malformed.
#[verifier::external_body]
fn read_packet(source: &mut PacketSource) -> (read: Result<Option<Vec<u8>>, OggReadError>)
    ensures
        match read {
            Ok(Some(data)) => {
                &&& pending(*old(source)).0 == seq![data@] + pending(*final(source)).0
                &&& pending(*old(source)).1 == pending(*final(source)).1
            },
            Ok(None) => pending(*old(source)).0.len() == 0 && !pending(*old(source)).1,
            Err(_) => pending(*old(source)).0.len() == 0 && pending(*old(source)).1,
        },
{
    source.reader.read_packet().map(|found| found.map(|packet| packet.data))
}

/// The packets that are left when the first `n` are dropped; none where
/// there are fewer than `n`.
pub open spec fn after_skipping(packets: Seq<Seq<u8>>, n: nat) -> Seq<Seq<u8>> {
    if n <= packets.len() {
        packets.skip(n as int)
    } else {
        Seq::empty()
    }
}

/// The audio packets of a stream: all but the leading two.
pub open spec fn audio_packets(bytes: Seq<u8>) -> Seq<Seq<u8>> {
    after_skipping(demux(bytes).0, LEADING_PACKETS as nat)
}

/// Whether the stream is malformed behind the packets that can be read.
pub open spec fn malformed(bytes: Seq<u8>) -> bool {
    demux(bytes).1
}

/// What the extractor does with one answer of the reader.
pub enum Step {
    /// A leading packet: drop it and read on.
    Skip,
    /// An audio packet: hand it on.
    Yield(Vec<u8>),
    /// The stream has ended.
    End,
    /// The stream is malformed.
    Fail,
}

/// Decides what to do with one answer of the reader while `skip` leading
/// packets are still to be dropped.
pub fn skip_step(skip: u8, read: Result<Option<Vec<u8>>, OggReadError>) -> (step: Step)
    ensures
        match read {
            Ok(Some(data)) => if skip > 0 {
                step is Skip
            } else {
                step == Step::Yield(data)
            },
            Ok(None) => step is End,
            Err(_) => step is Fail,
        },
{
    match read {
        Ok(Some(data)) => if skip > 0 {
            Step::Skip
        } else {
            Step::Yield(data)
        },
        Ok(None) => Step::End,
        Err(_) => Step::Fail,
    }
}

/// Hands out the audio packets of an Ogg stream, one at a time.
pub struct OggExtractor {
    source: PacketSource,
    skip: u8,
    finished: bool,
}

impl OggExtractor {
    /// No more than the two leading packets are left to drop.
    pub closed spec fn wf(&self) -> bool {
        self.skip <= LEADING_PACKETS
    }

    /// The payloads that are still to be handed out, in order.
    pub closed spec fn remaining(&self) -> Seq<Seq<u8>> {
        if self.finished {
            Seq::empty()
        } else {
            after_skipping(pending(self.source).0, self.skip as nat)
        }
    }

    /// Whether an error is reported once `remaining` is handed out.
    pub closed spec fn fails(&self) -> bool {
        !self.finished && pending(self.source).1
    }

    /// An extractor at the start of a stream that lies in memory.
    pub fn new(bytes: Vec<u8>) -> (extractor: Self)
        ensures
            extractor.wf(),
            extractor.remaining() == audio_packets(bytes@),
            extractor.fails() == malformed(bytes@),
    {
        OggExtractor { source: open_source(bytes), skip: LEADING_PACKETS, finished: false }
    }

    /// The next audio packet. `None` once the stream has ended; an error,
    /// once, where the stream is malformed, and `None` from then on.
    pub fn next_packet(&mut self) -> (next: Option<Result<Vec<u8>, DcaError>>)
        requires
            old(self).wf(),
        ensures
            final(self).wf(),
            match next {
                Some(Ok(data)) => {
                    &&& old(self).remaining().len() > 0
                    &&& data@ == old(self).remaining().first()
                    &&& final(self).remaining() == old(self).remaining().drop_first()
                    &&& final(self).fails() == old(self).fails()
                },
                Some(Err(e)) => {
                    &&& e == DcaError::MalformedSource
                    &&& old(self).remaining().len() == 0
                    &&& old(self).fails()
                    &&& final(self).remaining().len() == 0
                    &&& !final(self).fails()
                },
                None => {
                    &&& old(self).remaining().len() == 0
                    &&& !old(self).fails()
                    &&& final(self).remaining().len() == 0
                    &&& !final(self).fails()
                },
            },
    {
        if self.finished {
            return None;
        }
        loop
            invariant
                self.wf(),
                !self.finished,
                self.remaining() == old(self).remaining(),
                self.fails() == old(self).fails(),
            decreases self.skip,
        {
            let ghost before = pending(self.source).0;
            let read = read_packet(&mut self.source);
            match skip_step(self.skip, read) {
                Step::Skip => {
                    proof {
                        let after = pending(self.source).0;
                        assert(after_skipping(before, self.skip as nat) =~= after_skipping(
                            after,
                            (self.skip - 1) as nat,
                        ));
                    }
                    self.skip = self.skip - 1;
                },
                Step::Yield(data) => {
                    proof {
                        let after = pending(self.source).0;
                        assert(before.first() == data@);
                        assert(before.drop_first() =~= after);
                        assert(before.skip(0) =~= before);
                        assert(after.skip(0) =~= after);
                    }
                    return Some(Ok(data));
                },
                Step::End => {
                    self.finished = true;
                    return None;
                },
                Step::Fail => {
                    self.finished = true;
                    return Some(Err(DcaError::MalformedSource));
                },
            }
        }
    }
}

} // verus!
