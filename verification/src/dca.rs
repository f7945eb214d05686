//! The builder of a DCA1 container: the header first, then the frames.

use crate::error::DcaError;
use crate::header::{
    dca_json_len, encode_header, header_json, header_json_len, info_json_len, opt_string_len,
    opus_json_len, origin_json_len, text_of, tool_json_len, Dca, DcaMetadata, DcaView, Extra,
    HeaderView, Info, InfoView, Opus, OpusView, Origin, OriginView, Tool, ToolView,
};
use crate::json::{json_string, json_string_len, utf8_len};
use crate::layout::{
    container_bytes, container_frame_boundary, container_preamble, frame_bytes, frames_bytes,
    frames_bytes_push, frames_size, le32_value, magic, parse_container, parse_inverts_build,
    valid_frame, valid_frames, valid_header, MAX_FRAME_LEN, MAX_HEADER_LEN, PREAMBLE_LEN,
};
use crate::metadata::Metadata;
use vstd::prelude::*;
use vstd::slice::{slice_subrange, slice_to_vec};
use vstd::utf8::encode_utf8;

verus! {

/// What a builder has written: the header block, once it is there, and the
/// payloads of the frames in the order in which they came.
pub struct ContainerState {
    pub header: Option<Seq<u8>>,
    pub frames: Seq<Seq<u8>>,
}

/// The bytes of a buffer in a given state: nothing before the header is
/// written, the container of the header block and the frames after it.
pub open spec fn image(state: ContainerState) -> Seq<u8> {
    match state.header {
        Some(header) => container_bytes(header, state.frames),
        None => Seq::empty(),
    }
}

/// The tool that writes the containers.
pub open spec fn standard_tool() -> ToolView {
    ToolView {
        name: "dca-rs"@,
        version: "1.0.0"@,
        url: "https://github.com/Forte-NaoP/dca-rs"@,
        author: "Forte-NaoP"@,
    }
}

/// Version 1 of the format, written by `standard_tool`.
pub open spec fn standard_dca() -> DcaView {
    DcaView { version: 1, tool: standard_tool() }
}

/// The one encoder profile: 48 kHz, frames of 960 samples, 64 kbit/s, variable
/// bit rate, two channels.
pub open spec fn standard_opus() -> OpusView {
    OpusView {
        mode: "voip"@,
        sample_rate: 48000,
        frame_size: 960,
        abr: 64000,
        vbr: true,
        channels: 2,
    }
}

/// Title and artist of the track; album, genre and cover are not known.
pub open spec fn track_info(metadata: Metadata) -> InfoView {
    InfoView {
        title: text_of(metadata.title),
        artist: text_of(metadata.artist),
        album: None,
        genre: None,
        cover: None,
    }
}

/// The audio came from an Ogg file at 64 kbit/s in two channels, found at the
/// source url of the track where that is known.
pub open spec fn track_origin(metadata: Metadata) -> OriginView {
    OriginView {
        source: Some("file"@),
        abr: Some(64000u64),
        channels: Some(2u8),
        encoding: Some("Ogg"@),
        url: text_of(metadata.source_url),
    }
}

/// The header record of a track.
pub open spec fn header_of(metadata: Metadata) -> HeaderView {
    HeaderView {
        dca: standard_dca(),
        opus: standard_opus(),
        info: Some(track_info(metadata)),
        origin: Some(track_origin(metadata)),
        extra: Some(Extra {  }),
    }
}

/// A header needs the title and the artist of the track.
pub open spec fn has_required_fields(metadata: Metadata) -> bool {
    metadata.title is Some && metadata.artist is Some
}

/// The bytes that an optional string takes in UTF-8, none where it is absent.
pub open spec fn utf8_size(field: Option<String>) -> nat {
    match field {
        Some(s) => encode_utf8(s@).len(),
        None => 0,
    }
}

/// The characters of an optional string, none where it is absent.
pub open spec fn text_len(field: Option<String>) -> nat {
    match field {
        Some(s) => s@.len(),
        None => 0,
    }
}

/// Title, artist and source url of no more than this many characters
/// together give a header that can be announced.
pub const MAX_TEXT_LEN: usize = 75000000;

/// Title, artist and source url are short enough for a header that can be
/// announced, however they are escaped.
pub open spec fn has_short_text(metadata: Metadata) -> bool {
    text_len(metadata.title) + text_len(metadata.artist) + text_len(metadata.source_url)
        <= MAX_TEXT_LEN
}

proof fn fixed_string_len(text: &str)
    ensures
        json_string(text@).len() <= 24 * text@.len() + 2,
{
    utf8_len(text@);
    json_string_len(text@);
}

proof fn track_string_len(field: Option<String>)
    ensures
        opt_string_len(text_of(field)) <= 6 * utf8_size(field) + 2,
        utf8_size(field) <= 4 * text_len(field),
{
    if let Some(s) = field {
        json_string_len(s@);
        utf8_len(s@);
    }
}

/// The header of a track is little longer than its title, its artist and
/// its source url, and can be announced where these are not overlong.
pub proof fn header_of_short_text_fits(metadata: Metadata)
    ensures
        header_json(header_of(metadata)).len() <= 4000 + 6 * (utf8_size(metadata.title)
            + utf8_size(metadata.artist) + utf8_size(metadata.source_url)),
        has_short_text(metadata) ==> valid_header(header_json(header_of(metadata))),
{
    let header = header_of(metadata);
    header_json_len(header);
    dca_json_len(header.dca);
    tool_json_len(header.dca.tool);
    opus_json_len(header.opus);
    info_json_len(track_info(metadata));
    origin_json_len(track_origin(metadata));
    reveal_strlit("dca-rs");
    reveal_strlit("1.0.0");
    reveal_strlit("https://github.com/Forte-NaoP/dca-rs");
    reveal_strlit("Forte-NaoP");
    reveal_strlit("voip");
    reveal_strlit("file");
    reveal_strlit("Ogg");
    fixed_string_len("dca-rs");
    fixed_string_len("1.0.0");
    fixed_string_len("https://github.com/Forte-NaoP/dca-rs");
    fixed_string_len("Forte-NaoP");
    fixed_string_len("voip");
    fixed_string_len("file");
    fixed_string_len("Ogg");
    track_string_len(metadata.title);
    track_string_len(metadata.artist);
    track_string_len(metadata.source_url);
}

/// Builds a container in memory.
pub struct DcaWrapper {
    metadata: Metadata,
    raw: Vec<u8>,
    header_size: i32,
    offset: usize,
    header_written: bool,
    audio_data_written: bool,
    frames: Ghost<Seq<Seq<u8>>>,
}

impl View for DcaWrapper {
    type V = ContainerState;

    closed spec fn view(&self) -> ContainerState {
        ContainerState {
            header: if self.header_written {
                Some(self.raw@.subrange(self.offset as int, self.offset + self.header_size))
            } else {
                None
            },
            frames: self.frames@,
        }
    }
}

impl DcaWrapper {
    /// The track that the container is built for.
    pub closed spec fn metadata(&self) -> Metadata {
        self.metadata
    }

    /// The buffer holds exactly the image of what was written, the header
    /// came before any frame, and every length fits its field.
    pub closed spec fn wf(&self) -> bool {
        &&& self.offset == PREAMBLE_LEN
        &&& 0 <= self.header_size
        &&& self.header_written ==> self.offset + self.header_size <= self.raw@.len()
        &&& self.audio_data_written <==> self.frames@.len() > 0
        &&& self.audio_data_written ==> self.header_written
        &&& valid_frames(self.frames@)
        &&& self.raw@ == image(self@)
    }

    /// A well-formed builder has no frame without a header, and no length
    /// that its field cannot hold.
    pub proof fn state_is_valid(&self)
        requires
            self.wf(),
        ensures
            self@.header is None ==> self@.frames.len() == 0,
            self@.header matches Some(header) ==> valid_header(header),
            valid_frames(self@.frames),
    {
    }

    /// A buffer with a header opens with the magic tag; the four bytes after
    /// it spell the length of the header block; the header block follows.
    pub proof fn buffer_opens_with_preamble(&self)
        requires
            self.wf(),
            self@.header is Some,
        ensures
            image(self@).len() >= PREAMBLE_LEN + self@.header.unwrap().len(),
            image(self@).subrange(0, 4) == magic(),
            le32_value(image(self@).subrange(4, 8)) == self@.header.unwrap().len(),
            image(self@).subrange(
                PREAMBLE_LEN as int,
                PREAMBLE_LEN + self@.header.unwrap().len(),
            ) == self@.header.unwrap(),
    {
        container_preamble(self@.header.unwrap(), self@.frames);
    }

    /// Behind the preamble and the header block, a buffer holds for each frame
    /// that was written two bytes and its payload, and nothing else.
    pub proof fn buffer_frame_boundary(&self)
        requires
            self.wf(),
            self@.header is Some,
        ensures
            frames_size(self@.frames) == image(self@).len() - PREAMBLE_LEN
                - self@.header.unwrap().len(),
    {
        container_frame_boundary(self@.header.unwrap(), self@.frames);
    }

    /// A buffer with a header reads back as the header block and the frames
    /// that were written.
    pub proof fn buffer_reads_back(&self)
        requires
            self.wf(),
            self@.header is Some,
        ensures
            parse_container(image(self@)) == Some((self@.header.unwrap(), self@.frames)),
    {
        parse_inverts_build(self@.header.unwrap(), self@.frames);
    }

    /// Whether the header is written.
    pub fn is_header_written(&self) -> (written: bool)
        ensures
            written == (self@.header is Some),
    {
        self.header_written
    }

    /// Whether a frame is written.
    pub fn has_audio_data(&self) -> (written: bool)
        requires
            self.wf(),
        ensures
            written == (self@.frames.len() > 0),
    {
        self.audio_data_written
    }

    /// A builder for the container of a track. Nothing is written yet.
    pub fn new(metadata: Metadata) -> (wrapper: Self)
        ensures
            wrapper.wf(),
            wrapper.metadata() == metadata,
            wrapper@ == (ContainerState { header: None, frames: Seq::empty() }),
    {
        DcaWrapper {
            metadata,
            raw: Vec::new(),
            header_size: 0,
            offset: PREAMBLE_LEN,
            header_written: false,
            audio_data_written: false,
            frames: Ghost(Seq::empty()),
        }
    }

    /// The whole buffer as it stands: nothing before the header is written;
    /// after it the magic tag, the length of the header block, the header
    /// block and the frames.
    pub fn raw(&self) -> (bytes: Vec<u8>)
        requires
            self.wf(),
        ensures
            bytes@ == image(self@),
            self@.header is None ==> bytes@.len() == 0,
            self@.header matches Some(header) ==> {
                &&& bytes@.len() == PREAMBLE_LEN + header.len() + frames_size(self@.frames)
                &&& bytes@.subrange(0, 4) == magic()
                &&& le32_value(bytes@.subrange(4, 8)) == header.len()
                &&& bytes@.subrange(PREAMBLE_LEN as int, PREAMBLE_LEN + header.len()) == header
                &&& bytes@.skip(PREAMBLE_LEN + header.len()) == frames_bytes(self@.frames)
            },
    {
        proof {
            if self@.header is Some {
                container_preamble(self@.header.unwrap(), self@.frames);
                container_frame_boundary(self@.header.unwrap(), self@.frames);
            }
        }
        self.raw.clone()
    }

    /// The header block, once it is written.
    pub fn dca_header(&self) -> (block: Option<Vec<u8>>)
        requires
            self.wf(),
        ensures
            match self@.header {
                Some(header) => block matches Some(bytes) && bytes@ == header,
                None => block is None,
            },
    {
        if self.header_written {
            let end = self.offset + self.header_size as usize;
            Some(slice_to_vec(slice_subrange(self.raw.as_slice(), self.offset, end)))
        } else {
            None
        }
    }

    /// Everything behind the header block, once a frame is written: the
    /// frames as they stand in the buffer, lengths included.
    pub fn dca_data(&self) -> (data: Option<Vec<u8>>)
        requires
            self.wf(),
        ensures
            if self@.frames.len() > 0 {
                data matches Some(bytes) && bytes@ == frames_bytes(self@.frames)
            } else {
                data is None
            },
    {
        if self.audio_data_written {
            let start = self.offset + self.header_size as usize;
            proof {
                container_preamble(self@.header.unwrap(), self@.frames);
                assert(self.raw@.subrange(start as int, self.raw@.len() as int) =~= self.raw@.skip(
                    start as int,
                ));
            }
            Some(slice_to_vec(slice_subrange(self.raw.as_slice(), start, self.raw.len())))
        } else {
            None
        }
    }

    /// Appends one frame: its length in two bytes, little endian, then the
    /// payload. A payload of more than 32767 bytes is refused and leaves the
    /// buffer as it was. The header must have been written.
    pub fn write_audio_data(&mut self, audio_data: &[u8]) -> (done: Result<(), DcaError>)
        requires
            old(self).wf(),
            old(self)@.header is Some,
        ensures
            final(self).wf(),
            final(self).metadata() == old(self).metadata(),
            if valid_frame(audio_data@) {
                &&& done == Ok::<(), DcaError>(())
                &&& final(self)@ == (ContainerState {
                    header: old(self)@.header,
                    frames: old(self)@.frames.push(audio_data@),
                })
            } else {
                &&& done == Err::<(), DcaError>(DcaError::FrameTooLarge)
                &&& final(self)@ == old(self)@
            },
    {
        let data_len = audio_data.len();
        if data_len > MAX_FRAME_LEN {
            return Err(DcaError::FrameTooLarge);
        }
        self.raw.push((data_len % 256) as u8);
        self.raw.push((data_len / 256) as u8);
        self.raw.extend_from_slice(audio_data);
        self.audio_data_written = true;
        proof {
            let header = old(self)@.header.unwrap();
            let frames = old(self).frames@;
            self.frames@ = frames.push(audio_data@);
            frames_bytes_push(frames, audio_data@);
            container_preamble(header, frames);
            assert(self.raw@ =~= old(self).raw@ + frame_bytes(audio_data@));
            assert(self.raw@ =~= container_bytes(header, frames.push(audio_data@)));
            assert(self.raw@.subrange(self.offset as int, self.offset + self.header_size)
                =~= header);
            assert forall|i: int| 0 <= i < self.frames@.len() implies valid_frame(
                #[trigger] self.frames@[i],
            ) by {
                if i < frames.len() {
                    assert(self.frames@[i] == frames[i]);
                }
            }
        }
        Ok(())
    }

    /// Opens the container with a header block that is already encoded: the
    /// magic tag, the length of the block in four bytes, little endian, then
    /// the block. A block of more than 2147483647 bytes cannot be announced
    /// and is refused. Nothing may have been written before.
    pub fn write_header_bytes(&mut self, header: &[u8]) -> (done: Result<(), DcaError>)
        requires
            old(self).wf(),
            old(self)@.header is None,
        ensures
            final(self).wf(),
            final(self).metadata() == old(self).metadata(),
            if valid_header(header@) {
                &&& done == Ok::<(), DcaError>(())
                &&& final(self)@ == (ContainerState {
                    header: Some(header@),
                    frames: Seq::empty(),
                })
            } else {
                &&& done == Err::<(), DcaError>(DcaError::SerializationFailure)
                &&& final(self)@ == old(self)@
            },
    {
        let header_len = header.len();
        if header_len > MAX_HEADER_LEN {
            return Err(DcaError::SerializationFailure);
        }
        self.raw.push(0x44);
        self.raw.push(0x43);
        self.raw.push(0x41);
        self.raw.push(0x31);
        self.raw.push((header_len % 256) as u8);
        self.raw.push((header_len / 256 % 256) as u8);
        self.raw.push((header_len / 65536 % 256) as u8);
        self.raw.push((header_len / 16777216 % 256) as u8);
        self.raw.extend_from_slice(header);
        self.header_written = true;
        self.header_size = header_len as i32;
        proof {
            assert(self.frames@ =~= Seq::<Seq<u8>>::empty());
            assert(frames_bytes(Seq::<Seq<u8>>::empty()) =~= Seq::<u8>::empty());
            assert(self.raw@ =~= container_bytes(header@, Seq::empty()));
            assert(self.raw@.subrange(self.offset as int, self.offset + self.header_size)
                =~= header@);
        }
        Ok(())
    }

    /// Opens the container with the header of the track: the record
    /// `header_of` the metadata, as JSON text. Without a title or without an
    /// artist nothing is written, nor where the text is too long to be
    /// announced. Nothing may have been written before.
    pub fn write_dca_header(&mut self) -> (done: Result<(), DcaError>)
        requires
            old(self).wf(),
            old(self)@.header is None,
        ensures
            final(self).wf(),
            final(self).metadata() == old(self).metadata(),
            if !has_required_fields(old(self).metadata()) {
                &&& done == Err::<(), DcaError>(DcaError::MissingRequiredField)
                &&& final(self)@ == old(self)@
            } else if !valid_header(header_json(header_of(old(self).metadata()))) {
                &&& done == Err::<(), DcaError>(DcaError::SerializationFailure)
                &&& final(self)@ == old(self)@
            } else {
                &&& done == Ok::<(), DcaError>(())
                &&& final(self)@ == (ContainerState {
                    header: Some(header_json(header_of(old(self).metadata()))),
                    frames: Seq::empty(),
                })
            },
            has_short_text(old(self).metadata()) ==> valid_header(
                header_json(header_of(old(self).metadata())),
            ),
    {
        proof {
            header_of_short_text_fits(self.metadata);
        }
        let info = match self.info() {
            Ok(info) => info,
            Err(e) => {
                return Err(e);
            },
        };
        let dca_header = DcaMetadata {
            dca: DcaWrapper::dca(),
            opus: DcaWrapper::opus(),
            info,
            origin: self.origin(),
            extra: DcaWrapper::extra(),
        };
        match encode_header(&dca_header) {
            Ok(encoded) => self.write_header_bytes(encoded.as_slice()),
            Err(e) => Err(e),
        }
    }

    /// Version and tool of every container that is written here.
    pub fn dca() -> (dca: Dca)
        ensures
            dca@ == standard_dca(),
    {
        Dca {
            version: 1,
            tool: Tool {
                name: "dca-rs".to_owned(),
                version: "1.0.0".to_owned(),
                url: "https://github.com/Forte-NaoP/dca-rs".to_owned(),
                author: "Forte-NaoP".to_owned(),
            },
        }
    }

    /// The encoder profile of every container that is written here.
    pub fn opus() -> (opus: Opus)
        ensures
            opus@ == standard_opus(),
    {
        Opus {
            mode: "voip".to_owned(),
            sample_rate: 48000,
            frame_size: 960,
            abr: 64000,
            vbr: true,
            channels: 2,
        }
    }

    /// Title and artist of the track. Both are required.
    pub fn info(&self) -> (info: Result<Option<Info>, DcaError>)
        ensures
            match info {
                Ok(found) => {
                    &&& has_required_fields(self.metadata())
                    &&& found matches Some(i) && i@ == track_info(self.metadata())
                },
                Err(e) => !has_required_fields(self.metadata()) && e
                    == DcaError::MissingRequiredField,
            },
    {
        match (&self.metadata.title, &self.metadata.artist) {
            (Some(title), Some(artist)) => Ok(
                Some(
                    Info {
                        title: Some(title.clone()),
                        artist: Some(artist.clone()),
                        album: None,
                        genre: None,
                        cover: None,
                    },
                ),
            ),
            _ => Err(DcaError::MissingRequiredField),
        }
    }

    /// Where the audio of the track came from.
    pub fn origin(&self) -> (origin: Option<Origin>)
        ensures
            origin matches Some(o) && o@ == track_origin(self.metadata()),
    {
        let url = match &self.metadata.source_url {
            Some(u) => Some(u.clone()),
            None => None,
        };
        Some(
            Origin {
                source: Some("file".to_owned()),
                abr: Some(64000),
                channels: Some(2),
                encoding: Some("Ogg".to_owned()),
                url,
            },
        )
    }

    /// The reserved member of the header, empty.
    pub fn extra() -> (extra: Option<Extra>)
        ensures
            extra == Some(Extra {  }),
    {
        Some(Extra {  })
    }
}

} // verus!
