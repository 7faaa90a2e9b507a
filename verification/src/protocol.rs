//! The message protocol: the two message alphabets and the framing of one
//! message per line.
//!
//! A frame is the JSON text of one message followed by a single line feed.
//! The functions here put text into a frame and take it out again.

use vstd::prelude::*;
use vstd::std_specs::iter::IteratorSpec;

verus! {

/// An instant: seconds since the Unix epoch and the nanoseconds within the
/// second.
#[derive(Debug, Clone, Copy, PartialEq, Eq, Default)]
pub struct Timestamp {
    pub secs: i64,
    pub nanos: u32,
}

/// One record of the radio directory. A record is not changed once received.
///
/// The two coordinates are held as the bit patterns of their double-precision
/// values, so that a record compares field for field.
#[derive(Debug, Clone, PartialEq, Eq, Default)]
pub struct RadioStation {
    pub changeuuid: String,
    pub stationuuid: String,
    pub serveruuid: Option<String>,
    pub name: String,
    pub url: String,
    pub url_resolved: String,
    pub homepage: String,
    pub favicon: String,
    pub tags: String,
    pub country: String,
    pub countrycode: String,
    pub iso_3166_2: Option<String>,
    pub state: String,
    pub language: String,
    pub languagecodes: Option<String>,
    pub votes: i32,
    pub lastchangetime_iso8601: Option<String>,
    pub codec: String,
    pub bitrate: u32,
    pub hls: i8,
    pub lastcheckok: i8,
    pub lastchecktime_iso8601: Option<Timestamp>,
    pub lastcheckoktime_iso8601: Option<Timestamp>,
    pub lastlocalchecktime_iso8601: Option<Timestamp>,
    pub clicktimestamp_iso8601: Option<Timestamp>,
    pub clickcount: u32,
    pub clicktrend: i32,
    pub ssl_error: Option<u8>,
    pub geo_lat: Option<u64>,
    pub geo_long: Option<u64>,
    pub has_extended_info: Option<bool>,
}

/// What a search asks for. An empty field constrains nothing.
#[derive(Debug, Clone, PartialEq, Eq, Default)]
pub struct SearchData {
    pub name: String,
    pub country: String,
    pub language: String,
}

/// A request, as a client sends it.
#[derive(Debug, Clone, PartialEq, Eq)]
pub enum Client {
    Search { search_data: SearchData },
    Play { url: String },
    Stop,
}

/// An answer, as the server sends it. A station list is never empty.
#[derive(Debug, Clone, PartialEq, Eq)]
pub enum Server {
    RadioChList { radio_list: Vec<RadioStation> },
    Error(String),
}

/// Why a frame could not be made or read. Such an error ends the connection.
#[derive(Debug, Clone, PartialEq, Eq)]
pub enum FrameError {
    /// The text to send holds a line feed, so it cannot be one line.
    EmbeddedNewline,
    /// The line is no JSON text, or no message of the alphabet expected.
    Malformed(String),
    /// The socket failed.
    Transport(String),
    /// The connection was told of something it had not asked for.
    OutOfTurn,
}

/// What reading one line gave.
#[derive(Debug, Clone, PartialEq, Eq)]
pub enum Incoming {
    /// Nothing was read: the peer has closed the connection.
    Closed,
    /// The text of one message, without the line feed that ended it.
    Payload(String),
}

/// The line feed that ends every frame.
pub open spec fn line_end() -> Seq<char> {
    seq!['\n']
}

/// The text carried by a line: the line without its final line feed, if it
/// has one.
pub open spec fn payload_of(line: Seq<char>) -> Seq<char> {
    if line.len() > 0 && line.last() == '\n' {
        line.drop_last()
    } else {
        line
    }
}

/// Whether `text` holds a line feed.
pub fn has_newline(text: &str) -> (b: bool)
    ensures
        b == text@.contains('\n'),
{
    broadcast use vstd::string::group_string_axioms;

    let mut rest = text.chars();
    let ghost mut seen: int = 0;
    loop
        invariant
            0 <= seen <= text@.len(),
            rest.remaining() == text@.subrange(seen, text@.len() as int),
            forall|j: int| 0 <= j < seen ==> text@[j] != '\n',
        decreases text@.len() - seen,
    {
        match rest.next() {
            Some(c) => {
                if c == '\n' {
                    assert(text@[seen] == '\n');
                    return true;
                }
                proof {
                    assert(text@.subrange(seen, text@.len() as int).drop_first() =~= text@.subrange(
                        seen + 1,
                        text@.len() as int,
                    ));
                    seen = seen + 1;
                }
            },
            None => {
                return false;
            },
        }
    }
}

/// Ends a text with the line feed that makes it a frame.
pub fn close_line(json: String) -> (line: String)
    ensures
        line@ == json@ + line_end(),
{
    proof {
        reveal_strlit("\n");
        assert("\n"@ =~= line_end());
    }
    json.concat("\n")
}

/// Puts the JSON text of one message into a frame: the text followed by a
/// single line feed. Text that holds a line feed is refused, since the
/// receiver would take it for two messages.
pub fn frame(json: String) -> (r: Result<String, FrameError>)
    ensures
        match r {
            Ok(line) => !json@.contains('\n') && line@ == json@ + line_end(),
            Err(e) => json@.contains('\n') && e == FrameError::EmbeddedNewline,
        },
{
    if has_newline(json.as_str()) {
        Err(FrameError::EmbeddedNewline)
    } else {
        Ok(close_line(json))
    }
}

/// Takes the text of one message out of a line as it was read. An empty line
/// means that nothing was read and the peer is gone.
pub fn unframe(line: &str) -> (r: Incoming)
    ensures
        match r {
            Incoming::Closed => line@.len() == 0,
            Incoming::Payload(text) => line@.len() > 0 && text@ == payload_of(line@),
        },
{
    let n: usize = line.unicode_len();
    if n == 0 {
        Incoming::Closed
    } else if line.get_char(n - 1) == '\n' {
        let body: &str = line.substring_char(0, n - 1);
        assert(body@ =~= payload_of(line@));
        Incoming::Payload(String::from_str(body))
    } else {
        Incoming::Payload(String::from_str(line))
    }
}

/// A framed text comes back unchanged: what `frame` makes of a text without
/// line feed, `unframe` reads as that text.
pub proof fn law_frame_round_trip(json: Seq<char>)
    requires
        !json.contains('\n'),
    ensures
        payload_of(json + line_end()) == json,
        (json + line_end()).len() > 0,
        !payload_of(json + line_end()).contains('\n'),
{
    let line = json + line_end();
    assert(line.last() == '\n');
    assert(line.drop_last() =~= json);
}

} // verus!
