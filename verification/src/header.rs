//! The header record of a container and its JSON text.

use crate::error::DcaError;
use crate::json::{
    decimal, json_bool, json_opt_number, json_opt_string, json_string, number_of, push_bool,
    push_bytes, push_number, push_opt_number, push_opt_string, push_string, push_text, text_bytes,
    decimal_len_u64, utf8_len,
};
use vstd::prelude::*;
use vstd::string::StringSliceAdditionalSpecFns;

verus! {

/// The tool that wrote a container.
#[derive(Debug)]
pub struct Tool {
    pub name: String,
    pub version: String,
    pub url: String,
    pub author: String,
}

/// The format version and the tool that wrote the container.
#[derive(Debug)]
pub struct Dca {
    pub version: u64,
    pub tool: Tool,
}

/// The parameters of the Opus encoder.
#[derive(Debug)]
pub struct Opus {
    pub mode: String,
    pub sample_rate: u32,
    pub frame_size: u64,
    pub abr: u64,
    pub vbr: bool,
    pub channels: u8,
}

/// What the track is.
#[derive(Debug)]
pub struct Info {
    pub title: Option<String>,
    pub artist: Option<String>,
    pub album: Option<String>,
    pub genre: Option<String>,
    pub cover: Option<String>,
}

/// Where the audio came from.
#[derive(Debug)]
pub struct Origin {
    pub source: Option<String>,
    pub abr: Option<u64>,
    pub channels: Option<u8>,
    pub encoding: Option<String>,
    pub url: Option<String>,
}

/// Reserved for later fields; empty.
#[derive(Debug)]
pub struct Extra {}

/// The header record of a container.
#[derive(Debug)]
pub struct DcaMetadata {
    pub dca: Dca,
    pub opus: Opus,
    pub info: Option<Info>,
    pub origin: Option<Origin>,
    pub extra: Option<Extra>,
}

/// A `Tool` with its strings as sequences of characters.
pub struct ToolView {
    pub name: Seq<char>,
    pub version: Seq<char>,
    pub url: Seq<char>,
    pub author: Seq<char>,
}

/// A `Dca` with its strings as sequences of characters.
pub struct DcaView {
    pub version: u64,
    pub tool: ToolView,
}

/// An `Opus` with its strings as sequences of characters.
pub struct OpusView {
    pub mode: Seq<char>,
    pub sample_rate: u32,
    pub frame_size: u64,
    pub abr: u64,
    pub vbr: bool,
    pub channels: u8,
}

/// An `Info` with its strings as sequences of characters.
pub struct InfoView {
    pub title: Option<Seq<char>>,
    pub artist: Option<Seq<char>>,
    pub album: Option<Seq<char>>,
    pub genre: Option<Seq<char>>,
    pub cover: Option<Seq<char>>,
}

/// An `Origin` with its strings as sequences of characters.
pub struct OriginView {
    pub source: Option<Seq<char>>,
    pub abr: Option<u64>,
    pub channels: Option<u8>,
    pub encoding: Option<Seq<char>>,
    pub url: Option<Seq<char>>,
}

/// A `DcaMetadata` with its strings as sequences of characters.
pub struct HeaderView {
    pub dca: DcaView,
    pub opus: OpusView,
    pub info: Option<InfoView>,
    pub origin: Option<OriginView>,
    pub extra: Option<Extra>,
}

/// The characters of an optional string.
pub open spec fn text_of(field: Option<String>) -> Option<Seq<char>> {
    match field {
        Some(s) => Some(s@),
        None => None,
    }
}

impl View for Tool {
    type V = ToolView;

    open spec fn view(&self) -> ToolView {
        ToolView {
            name: self.name@,
            version: self.version@,
            url: self.url@,
            author: self.author@,
        }
    }
}

impl View for Dca {
    type V = DcaView;

    open spec fn view(&self) -> DcaView {
        DcaView { version: self.version, tool: self.tool@ }
    }
}

impl View for Opus {
    type V = OpusView;

    open spec fn view(&self) -> OpusView {
        OpusView {
            mode: self.mode@,
            sample_rate: self.sample_rate,
            frame_size: self.frame_size,
            abr: self.abr,
            vbr: self.vbr,
            channels: self.channels,
        }
    }
}

impl View for Info {
    type V = InfoView;

    open spec fn view(&self) -> InfoView {
        InfoView {
            title: text_of(self.title),
            artist: text_of(self.artist),
            album: text_of(self.album),
            genre: text_of(self.genre),
            cover: text_of(self.cover),
        }
    }
}

impl View for Origin {
    type V = OriginView;

    open spec fn view(&self) -> OriginView {
        OriginView {
            source: text_of(self.source),
            abr: self.abr,
            channels: self.channels,
            encoding: text_of(self.encoding),
            url: text_of(self.url),
        }
    }
}

impl View for DcaMetadata {
    type V = HeaderView;

    open spec fn view(&self) -> HeaderView {
        HeaderView {
            dca: self.dca@,
            opus: self.opus@,
            info: match self.info {
                Some(info) => Some(info@),
                None => None,
            },
            origin: match self.origin {
                Some(origin) => Some(origin@),
                None => None,
            },
            extra: self.extra,
        }
    }
}

/// The JSON text of a `Tool`.
pub open spec fn tool_json(tool: ToolView) -> Seq<u8> {
    "{\"name\":".spec_bytes() + json_string(tool.name) + ",\"version\":".spec_bytes()
        + json_string(tool.version) + ",\"url\":".spec_bytes() + json_string(tool.url)
        + ",\"author\":".spec_bytes() + json_string(tool.author) + "}".spec_bytes()
}

/// The JSON text of a `Dca`.
pub open spec fn dca_json(dca: DcaView) -> Seq<u8> {
    "{\"version\":".spec_bytes() + decimal(dca.version as nat) + ",\"tool\":".spec_bytes()
        + tool_json(dca.tool) + "}".spec_bytes()
}

/// The JSON text of an `Opus`.
pub open spec fn opus_json(opus: OpusView) -> Seq<u8> {
    "{\"mode\":".spec_bytes() + json_string(opus.mode) + ",\"sample_rate\":".spec_bytes()
        + decimal(opus.sample_rate as nat) + ",\"frame_size\":".spec_bytes() + decimal(
        opus.frame_size as nat,
    ) + ",\"abr\":".spec_bytes() + decimal(opus.abr as nat) + ",\"vbr\":".spec_bytes()
        + json_bool(opus.vbr) + ",\"channels\":".spec_bytes() + decimal(opus.channels as nat)
        + "}".spec_bytes()
}

/// The JSON text of an `Info`.
pub open spec fn info_json(info: InfoView) -> Seq<u8> {
    "{\"title\":".spec_bytes() + json_opt_string(info.title) + ",\"artist\":".spec_bytes()
        + json_opt_string(info.artist) + ",\"album\":".spec_bytes() + json_opt_string(info.album)
        + ",\"genre\":".spec_bytes() + json_opt_string(info.genre) + ",\"cover\":".spec_bytes()
        + json_opt_string(info.cover) + "}".spec_bytes()
}

/// The JSON text of an `Origin`.
pub open spec fn origin_json(origin: OriginView) -> Seq<u8> {
    "{\"source\":".spec_bytes() + json_opt_string(origin.source) + ",\"abr\":".spec_bytes()
        + json_opt_number(number_of(origin.abr)) + ",\"channels\":".spec_bytes() + json_opt_number(
        number_of(origin.channels),
    ) + ",\"encoding\":".spec_bytes() + json_opt_string(origin.encoding) + ",\"url\":".spec_bytes()
        + json_opt_string(origin.url) + "}".spec_bytes()
}

/// The JSON text of an optional `Info`: `null` where there is none.
pub open spec fn opt_info_json(info: Option<InfoView>) -> Seq<u8> {
    match info {
        Some(i) => info_json(i),
        None => "null".spec_bytes(),
    }
}

/// The JSON text of an optional `Origin`: `null` where there is none.
pub open spec fn opt_origin_json(origin: Option<OriginView>) -> Seq<u8> {
    match origin {
        Some(o) => origin_json(o),
        None => "null".spec_bytes(),
    }
}

/// The JSON text of an optional `Extra`: an empty object, or `null` where there is none.
pub open spec fn opt_extra_json(extra: Option<Extra>) -> Seq<u8> {
    match extra {
        Some(_) => "{}".spec_bytes(),
        None => "null".spec_bytes(),
    }
}

/// The JSON text of a header record: one object with the members `dca`,
/// `opus`, `info`, `origin` and `extra`, in this order and without white space.
#[verifier::opaque]
pub open spec fn header_json(header: HeaderView) -> Seq<u8> {
    "{\"dca\":".spec_bytes() + dca_json(header.dca) + ",\"opus\":".spec_bytes() + opus_json(
        header.opus,
    ) + ",\"info\":".spec_bytes() + opt_info_json(header.info) + ",\"origin\":".spec_bytes()
        + opt_origin_json(header.origin) + ",\"extra\":".spec_bytes() + opt_extra_json(
        header.extra,
    ) + "}".spec_bytes()
}

fn tool_text(tool: &Tool) -> (encoded: Result<Vec<u8>, DcaError>)
    ensures
        encoded matches Ok(bytes) && bytes@ == tool_json(tool@),
{
    let mut buf = text_bytes("{\"name\":");
    push_string(&mut buf, tool.name.as_str())?;
    push_text(&mut buf, ",\"version\":");
    push_string(&mut buf, tool.version.as_str())?;
    push_text(&mut buf, ",\"url\":");
    push_string(&mut buf, tool.url.as_str())?;
    push_text(&mut buf, ",\"author\":");
    push_string(&mut buf, tool.author.as_str())?;
    push_text(&mut buf, "}");
    Ok(buf)
}

fn dca_text(dca: &Dca) -> (encoded: Result<Vec<u8>, DcaError>)
    ensures
        encoded matches Ok(bytes) && bytes@ == dca_json(dca@),
{
    let tool = tool_text(&dca.tool)?;
    let mut buf = text_bytes("{\"version\":");
    push_number(&mut buf, dca.version);
    push_text(&mut buf, ",\"tool\":");
    push_bytes(&mut buf, &tool);
    push_text(&mut buf, "}");
    Ok(buf)
}

fn opus_text(opus: &Opus) -> (encoded: Result<Vec<u8>, DcaError>)
    ensures
        encoded matches Ok(bytes) && bytes@ == opus_json(opus@),
{
    let mut buf = text_bytes("{\"mode\":");
    push_string(&mut buf, opus.mode.as_str())?;
    push_text(&mut buf, ",\"sample_rate\":");
    push_number(&mut buf, opus.sample_rate as u64);
    push_text(&mut buf, ",\"frame_size\":");
    push_number(&mut buf, opus.frame_size);
    push_text(&mut buf, ",\"abr\":");
    push_number(&mut buf, opus.abr);
    push_text(&mut buf, ",\"vbr\":");
    push_bool(&mut buf, opus.vbr);
    push_text(&mut buf, ",\"channels\":");
    push_number(&mut buf, opus.channels as u64);
    push_text(&mut buf, "}");
    Ok(buf)
}

fn info_text(info: &Info) -> (encoded: Result<Vec<u8>, DcaError>)
    ensures
        encoded matches Ok(bytes) && bytes@ == info_json(info@),
{
    let mut buf = text_bytes("{\"title\":");
    push_opt_string(&mut buf, &info.title)?;
    push_text(&mut buf, ",\"artist\":");
    push_opt_string(&mut buf, &info.artist)?;
    push_text(&mut buf, ",\"album\":");
    push_opt_string(&mut buf, &info.album)?;
    push_text(&mut buf, ",\"genre\":");
    push_opt_string(&mut buf, &info.genre)?;
    push_text(&mut buf, ",\"cover\":");
    push_opt_string(&mut buf, &info.cover)?;
    push_text(&mut buf, "}");
    Ok(buf)
}

fn origin_text(origin: &Origin) -> (encoded: Result<Vec<u8>, DcaError>)
    ensures
        encoded matches Ok(bytes) && bytes@ == origin_json(origin@),
{
    let channels: Option<u64> = match origin.channels {
        Some(c) => Some(c as u64),
        None => None,
    };
    let mut buf = text_bytes("{\"source\":");
    push_opt_string(&mut buf, &origin.source)?;
    push_text(&mut buf, ",\"abr\":");
    push_opt_number(&mut buf, origin.abr);
    push_text(&mut buf, ",\"channels\":");
    push_opt_number(&mut buf, channels);
    push_text(&mut buf, ",\"encoding\":");
    push_opt_string(&mut buf, &origin.encoding)?;
    push_text(&mut buf, ",\"url\":");
    push_opt_string(&mut buf, &origin.url)?;
    push_text(&mut buf, "}");
    Ok(buf)
}

fn opt_info_text(info: &Option<Info>) -> (encoded: Result<Vec<u8>, DcaError>)
    ensures
        encoded matches Ok(bytes) && bytes@ == opt_info_json(
                match *info {
                    Some(i) => Some(i@),
                    None => None,
                },
            ),
{
    match info {
        Some(i) => info_text(i),
        None => Ok(text_bytes("null")),
    }
}

fn opt_origin_text(origin: &Option<Origin>) -> (encoded: Result<Vec<u8>, DcaError>)
    ensures
        encoded matches Ok(bytes) && bytes@ == opt_origin_json(
                match *origin {
                    Some(o) => Some(o@),
                    None => None,
                },
            ),
{
    match origin {
        Some(o) => origin_text(o),
        None => Ok(text_bytes("null")),
    }
}

fn opt_extra_text(extra: &Option<Extra>) -> (encoded: Vec<u8>)
    ensures
        encoded@ == opt_extra_json(*extra),
{
    match extra {
        Some(_) => text_bytes("{}"),
        None => text_bytes("null"),
    }
}

/// The JSON text of a header record, with the strings in it as `serde_json`
/// writes them.
pub fn encode_header(header: &DcaMetadata) -> (encoded: Result<Vec<u8>, DcaError>)
    ensures
        encoded matches Ok(bytes) && bytes@ == header_json(header@),
{
    reveal(header_json);
    let dca = dca_text(&header.dca)?;
    let opus = opus_text(&header.opus)?;
    let info = opt_info_text(&header.info)?;
    let origin = opt_origin_text(&header.origin)?;
    let extra = opt_extra_text(&header.extra);
    let mut buf = text_bytes("{\"dca\":");
    push_bytes(&mut buf, &dca);
    push_text(&mut buf, ",\"opus\":");
    push_bytes(&mut buf, &opus);
    push_text(&mut buf, ",\"info\":");
    push_bytes(&mut buf, &info);
    push_text(&mut buf, ",\"origin\":");
    push_bytes(&mut buf, &origin);
    push_text(&mut buf, ",\"extra\":");
    push_bytes(&mut buf, &extra);
    push_text(&mut buf, "}");
    Ok(buf)
}

proof fn literal_len(text: &str)
    ensures
        text.spec_bytes().len() <= 4 * text@.len(),
{
    utf8_len(text@);
}

/// The JSON text of a `Tool` is little longer than its strings.
pub proof fn tool_json_len(tool: ToolView)
    ensures
        tool_json(tool).len() <= 200 + json_string(tool.name).len() + json_string(
            tool.version,
        ).len() + json_string(tool.url).len() + json_string(tool.author).len(),
{
    reveal_strlit("{\"name\":");
    reveal_strlit(",\"version\":");
    reveal_strlit(",\"url\":");
    reveal_strlit(",\"author\":");
    reveal_strlit("}");
    literal_len("{\"name\":");
    literal_len(",\"version\":");
    literal_len(",\"url\":");
    literal_len(",\"author\":");
    literal_len("}");
}

/// The length of the JSON text of an optional string, nothing where there is none.
pub open spec fn opt_string_len(text: Option<Seq<char>>) -> nat {
    match text {
        Some(t) => json_string(t).len(),
        None => 0,
    }
}

proof fn json_opt_string_len(text: Option<Seq<char>>)
    ensures
        json_opt_string(text).len() <= 16 + opt_string_len(text),
{
    reveal_strlit("null");
    literal_len("null");
}

proof fn json_opt_number_len<T: Integer>(n: Option<T>)
    requires
        n matches Some(k) ==> 0 <= k as int <= u64::MAX,
    ensures
        json_opt_number(number_of(n)).len() <= 20,
{
    reveal_strlit("null");
    literal_len("null");
    if let Some(k) = n {
        decimal_len_u64(k as int as u64);
    }
}

/// The JSON text of a `Dca` is little longer than its strings.
pub proof fn dca_json_len(dca: DcaView)
    ensures
        dca_json(dca).len() <= 120 + tool_json(dca.tool).len(),
{
    reveal_strlit("{\"version\":");
    reveal_strlit(",\"tool\":");
    reveal_strlit("}");
    literal_len("{\"version\":");
    literal_len(",\"tool\":");
    literal_len("}");
    decimal_len_u64(dca.version);
}

/// The JSON text of an `Opus` is little longer than its string.
pub proof fn opus_json_len(opus: OpusView)
    ensures
        opus_json(opus).len() <= 400 + json_string(opus.mode).len(),
{
    reveal_strlit("{\"mode\":");
    reveal_strlit(",\"sample_rate\":");
    reveal_strlit(",\"frame_size\":");
    reveal_strlit(",\"abr\":");
    reveal_strlit(",\"vbr\":");
    reveal_strlit(",\"channels\":");
    reveal_strlit("}");
    reveal_strlit("true");
    reveal_strlit("false");
    literal_len("{\"mode\":");
    literal_len(",\"sample_rate\":");
    literal_len(",\"frame_size\":");
    literal_len(",\"abr\":");
    literal_len(",\"vbr\":");
    literal_len(",\"channels\":");
    literal_len("}");
    literal_len("true");
    literal_len("false");
    decimal_len_u64(opus.sample_rate as u64);
    decimal_len_u64(opus.frame_size);
    decimal_len_u64(opus.abr);
    decimal_len_u64(opus.channels as u64);
}

/// The JSON text of an `Info` is little longer than its strings.
pub proof fn info_json_len(info: InfoView)
    ensures
        info_json(info).len() <= 300 + opt_string_len(info.title) + opt_string_len(info.artist)
            + opt_string_len(info.album) + opt_string_len(info.genre) + opt_string_len(
            info.cover,
        ),
{
    reveal_strlit("{\"title\":");
    reveal_strlit(",\"artist\":");
    reveal_strlit(",\"album\":");
    reveal_strlit(",\"genre\":");
    reveal_strlit(",\"cover\":");
    reveal_strlit("}");
    literal_len("{\"title\":");
    literal_len(",\"artist\":");
    literal_len(",\"album\":");
    literal_len(",\"genre\":");
    literal_len(",\"cover\":");
    literal_len("}");
    json_opt_string_len(info.title);
    json_opt_string_len(info.artist);
    json_opt_string_len(info.album);
    json_opt_string_len(info.genre);
    json_opt_string_len(info.cover);
}

/// The JSON text of an `Origin` is little longer than its strings.
pub proof fn origin_json_len(origin: OriginView)
    ensures
        origin_json(origin).len() <= 300 + opt_string_len(origin.source) + opt_string_len(
            origin.encoding,
        ) + opt_string_len(origin.url),
{
    reveal_strlit("{\"source\":");
    reveal_strlit(",\"abr\":");
    reveal_strlit(",\"channels\":");
    reveal_strlit(",\"encoding\":");
    reveal_strlit(",\"url\":");
    reveal_strlit("}");
    literal_len("{\"source\":");
    literal_len(",\"abr\":");
    literal_len(",\"channels\":");
    literal_len(",\"encoding\":");
    literal_len(",\"url\":");
    literal_len("}");
    json_opt_string_len(origin.source);
    json_opt_string_len(origin.encoding);
    json_opt_string_len(origin.url);
    json_opt_number_len(origin.abr);
    json_opt_number_len(origin.channels);
}

/// The JSON text of a header record is little longer than its members.
pub proof fn header_json_len(header: HeaderView)
    ensures
        header_json(header).len() <= 200 + dca_json(header.dca).len() + opus_json(
            header.opus,
        ).len() + opt_info_json(header.info).len() + opt_origin_json(header.origin).len(),
{
    reveal(header_json);
    reveal_strlit("{\"dca\":");
    reveal_strlit(",\"opus\":");
    reveal_strlit(",\"info\":");
    reveal_strlit(",\"origin\":");
    reveal_strlit(",\"extra\":");
    reveal_strlit("}");
    reveal_strlit("{}");
    reveal_strlit("null");
    literal_len("{\"dca\":");
    literal_len(",\"opus\":");
    literal_len(",\"info\":");
    literal_len(",\"origin\":");
    literal_len(",\"extra\":");
    literal_len("}");
    literal_len("{}");
    literal_len("null");
}

} // verus!
