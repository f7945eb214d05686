use dca_rs::metadata::{Metadata, YtdlFields, SAMPLE_RATE};
use serde_json::Value;
use std::time::Duration;

fn json(text: &str) -> Value {
    serde_json::from_str(text).unwrap()
}

fn s(text: &str) -> Option<String> {
    Some(text.to_string())
}

#[test]
fn every_member_goes_to_its_field() {
    let value = json(
        "{\"track\":\"T\",\"artist\":\"A\",\"uploader\":\"U\",\"release_date\":\"20200102\",\
         \"upload_date\":\"20210304\",\"channel\":\"C\",\"duration\":12.5,\
         \"webpage_url\":\"http://w\",\"title\":\"Ti\",\"thumbnail\":\"http://t\"}",
    );
    let metadata = Metadata::from_ytdl_output(value, Some(Duration::from_millis(12500)));
    assert_eq!(
        metadata,
        Metadata {
            track: s("T"),
            artist: s("A"),
            date: s("20200102"),
            channels: Some(2),
            channel: s("C"),
            start_time: None,
            duration: Some(Duration::from_millis(12500)),
            sample_rate: Some(48000),
            source_url: s("http://w"),
            title: s("Ti"),
            thumbnail: s("http://t"),
        }
    );
    assert_eq!(SAMPLE_RATE, 48000);
}

#[test]
fn uploader_and_upload_date_stand_in() {
    let value = json("{\"uploader\":\"U\",\"upload_date\":\"20210304\"}");
    let metadata = Metadata::from_ytdl_output(value, None);
    assert_eq!(metadata.artist, s("U"));
    assert_eq!(metadata.date, s("20210304"));
    assert_eq!(metadata.track, None);
    assert_eq!(metadata.channel, None);
    assert_eq!(metadata.duration, None);
    assert_eq!(metadata.source_url, None);
    assert_eq!(metadata.title, None);
    assert_eq!(metadata.thumbnail, None);
    assert_eq!(metadata.channels, Some(2));
    assert_eq!(metadata.sample_rate, Some(SAMPLE_RATE));
}

#[test]
fn member_that_is_no_string_counts_as_absent() {
    let value = json(
        "{\"track\":5,\"artist\":null,\"uploader\":\"U\",\"release_date\":[\"x\"],\
         \"upload_date\":\"d\",\"title\":{\"a\":\"b\"},\"channel\":true,\"thumbnail\":1.5}",
    );
    let metadata = Metadata::from_ytdl_output(value, None);
    assert_eq!(metadata.track, None);
    assert_eq!(metadata.artist, s("U"));
    assert_eq!(metadata.date, s("d"));
    assert_eq!(metadata.title, None);
    assert_eq!(metadata.channel, None);
    assert_eq!(metadata.thumbnail, None);
}

#[test]
fn value_that_is_no_object_has_no_members() {
    for text in ["null", "[\"title\"]", "\"title\"", "3", "{}"] {
        let metadata = Metadata::from_ytdl_output(json(text), None);
        assert_eq!(
            metadata,
            Metadata {
                channels: Some(2),
                sample_rate: Some(48000),
                ..Metadata::default()
            }
        );
    }
}

#[test]
fn member_text_is_taken_unescaped() {
    let value = json("{\"title\":\"a \\\"b\\\" \\u00e9\",\"track\":\"\"}");
    let metadata = Metadata::from_ytdl_output(value, None);
    assert_eq!(metadata.title, s("a \"b\" é"));
    assert_eq!(metadata.track, s(""));
}

#[test]
fn fields_are_ordered_into_metadata() {
    let fields = YtdlFields {
        track: s("T"),
        artist: None,
        uploader: s("U"),
        release_date: s("R"),
        upload_date: s("D"),
        channel: s("C"),
        duration: Some(Duration::from_secs(3)),
        webpage_url: s("W"),
        title: s("Ti"),
        thumbnail: s("Th"),
    };
    assert_eq!(
        Metadata::from_ytdl_fields(fields),
        Metadata {
            track: s("T"),
            artist: s("U"),
            date: s("R"),
            channels: Some(2),
            channel: s("C"),
            start_time: None,
            duration: Some(Duration::from_secs(3)),
            sample_rate: Some(48000),
            source_url: s("W"),
            title: s("Ti"),
            thumbnail: s("Th"),
        }
    );
    let named = YtdlFields {
        artist: s("A"),
        uploader: s("U"),
        ..YtdlFields::default()
    };
    assert_eq!(Metadata::from_ytdl_fields(named).artist, s("A"));
    assert_eq!(
        Metadata::from_ytdl_fields(YtdlFields::default()),
        Metadata {
            channels: Some(2),
            sample_rate: Some(48000),
            ..Metadata::default()
        }
    );
}
