//! What is known about a track, and how it is read from the JSON that
//! `youtube-dl` prints.

use crate::header::text_of;
use serde_json::Value;
use std::time::Duration;
use vstd::prelude::*;

verus! {

/// The sample rate of every stream that is handled here, in Hz.
pub const SAMPLE_RATE: u32 = 48000;

/// Information about an audio source.
#[derive(Clone, Debug, Default, PartialEq, Eq)]
pub struct Metadata {
    /// The track of this stream.
    pub track: Option<String>,
    /// The main artist of this stream.
    pub artist: Option<String>,
    /// The date of creation of this stream.
    pub date: Option<String>,
    /// The number of audio channels in this stream.
    ///
    /// Any number `>= 2` is treated as stereo.
    pub channels: Option<u8>,
    /// The YouTube channel of this stream.
    pub channel: Option<String>,
    /// The time at which the first true sample is played back.
    ///
    /// This occurs as an artefact of coder delay.
    pub start_time: Option<Duration>,
    /// The reported duration of this stream.
    pub duration: Option<Duration>,
    /// The sample rate of this stream.
    pub sample_rate: Option<u32>,
    /// The source url of this stream.
    pub source_url: Option<String>,
    /// The YouTube title of this stream.
    pub title: Option<String>,
    /// The thumbnail url of this stream.
    pub thumbnail: Option<String>,
}

/// `serde_json::Value`, a JSON value, taken as it is.
#[verifier::external_type_specification]
#[verifier::external_body]
pub struct ExValue(Value);

/// The members of a JSON object that hold a string, each name with its text.
/// Empty for a value that is no object.
pub uninterp spec fn string_members(value: Value) -> Map<Seq<char>, Seq<char>>;

/// Looks up a member of a JSON object with `serde_json::Value::get` and takes
/// its text with `serde_json::Value::as_str`. The first gives nothing unless
/// the value is an object that has the key, the second nothing unless the
/// member is a string: so the result is the entry of `string_members` under
/// the key, where there is one.
#[verifier::external_body]
fn member_text(value: &Value, key: &str) -> (found: Option<String>)
    ensures
        text_of(found) == lookup(string_members(*value), key@),
{
    value.get(key).and_then(Value::as_str).map(str::to_owned)
}

/// The text under `key`, where the object has a string there.
pub open spec fn lookup(members: Map<Seq<char>, Seq<char>>, key: Seq<char>) -> Option<Seq<char>> {
    if members.contains_key(key) {
        Some(members[key])
    } else {
        None
    }
}

/// The first value where there is one, else the second.
pub open spec fn first_of(first: Option<Seq<char>>, second: Option<Seq<char>>) -> Option<
    Seq<char>,
> {
    if first is Some {
        first
    } else {
        second
    }
}

/// The first value where there is one, else the second.
pub open spec fn either(first: Option<String>, second: Option<String>) -> Option<String> {
    if first is Some {
        first
    } else {
        second
    }
}

/// What of `youtube-dl`'s output goes into a `Metadata`, each member as it
/// was found.
#[derive(Clone, Debug, Default, PartialEq, Eq)]
pub struct YtdlFields {
    pub track: Option<String>,
    pub artist: Option<String>,
    pub uploader: Option<String>,
    pub release_date: Option<String>,
    pub upload_date: Option<String>,
    pub channel: Option<String>,
    pub duration: Option<Duration>,
    pub webpage_url: Option<String>,
    pub title: Option<String>,
    pub thumbnail: Option<String>,
}

impl Metadata {
    /// The metadata that the members of `youtube-dl`'s output stand for.
    ///
    /// Where the output names no artist the uploader stands in, and where it
    /// names no release date the upload date does. The stream is taken to be
    /// stereo at `SAMPLE_RATE`, and nothing is known of its start time.
    pub fn from_ytdl_fields(fields: YtdlFields) -> (metadata: Self)
        ensures
            metadata == (Metadata {
                track: fields.track,
                artist: either(fields.artist, fields.uploader),
                date: either(fields.release_date, fields.upload_date),
                channels: Some(2u8),
                channel: fields.channel,
                start_time: None,
                duration: fields.duration,
                sample_rate: Some(SAMPLE_RATE),
                source_url: fields.webpage_url,
                title: fields.title,
                thumbnail: fields.thumbnail,
            }),
    {
        let artist = match fields.artist {
            Some(artist) => Some(artist),
            None => fields.uploader,
        };
        let date = match fields.release_date {
            Some(date) => Some(date),
            None => fields.upload_date,
        };
        Metadata {
            track: fields.track,
            artist,
            date,
            channels: Some(2),
            channel: fields.channel,
            start_time: None,
            duration: fields.duration,
            sample_rate: Some(SAMPLE_RATE),
            source_url: fields.webpage_url,
            title: fields.title,
            thumbnail: fields.thumbnail,
        }
    }

    /// Use `youtube-dl`'s JSON output for metadata for an online resource.
    ///
    /// Every textual field is the string member of the same purpose, as
    /// `from_ytdl_fields` orders them. A member that is absent or holds
    /// anything but a string leaves its field empty. The duration is handed in
    /// by the caller, who reads it from the member `duration`, a number of
    /// seconds.
    pub fn from_ytdl_output(value: Value, duration: Option<Duration>) -> (metadata: Self)
        ensures
            text_of(metadata.track) == lookup(string_members(value), "track"@),
            text_of(metadata.artist) == first_of(
                lookup(string_members(value), "artist"@),
                lookup(string_members(value), "uploader"@),
            ),
            text_of(metadata.date) == first_of(
                lookup(string_members(value), "release_date"@),
                lookup(string_members(value), "upload_date"@),
            ),
            metadata.channels == Some(2u8),
            text_of(metadata.channel) == lookup(string_members(value), "channel"@),
            metadata.start_time is None,
            metadata.duration == duration,
            metadata.sample_rate == Some(SAMPLE_RATE),
            text_of(metadata.source_url) == lookup(string_members(value), "webpage_url"@),
            text_of(metadata.title) == lookup(string_members(value), "title"@),
            text_of(metadata.thumbnail) == lookup(string_members(value), "thumbnail"@),
    {
        Metadata::from_ytdl_fields(
            YtdlFields {
                track: member_text(&value, "track"),
                artist: member_text(&value, "artist"),
                uploader: member_text(&value, "uploader"),
                release_date: member_text(&value, "release_date"),
                upload_date: member_text(&value, "upload_date"),
                channel: member_text(&value, "channel"),
                duration,
                webpage_url: member_text(&value, "webpage_url"),
                title: member_text(&value, "title"),
                thumbnail: member_text(&value, "thumbnail"),
            },
        )
    }
}

} // verus!
