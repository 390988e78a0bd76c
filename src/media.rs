//! The normalised "now playing" snapshot, and how each operating system's
//! observation becomes one.
//!
//! Instants are nanoseconds since the Unix epoch; durations are nanoseconds.

use vstd::prelude::*;
use vstd::utf8::encode_utf8;
use crate::artwork::{artwork_hash, blake3_digest, hex_text};

verus! {

#[verifier::external_type_specification]
#[verifier::external_body]
pub struct ExDecodeError(base64::DecodeError);

/// What the standard base64 alphabet, with padding, decodes `t` to, if `t`
/// is valid base64.
pub uninterp spec fn base64_decoded(t: Seq<u8>) -> Option<Seq<u8>>;

/// Relies on `base64::engine::general_purpose::STANDARD.decode`: the bytes
/// that `t` encodes, or an error where `t` is not valid base64.
#[verifier::external_body]
fn decode_base64(t: &[u8]) -> (r: Result<Vec<u8>, base64::DecodeError>)
    ensures
        match r {
            Ok(v) => base64_decoded(t@) == Some(v@),
            Err(_) => base64_decoded(t@) is None,
        },
{
    base64::Engine::decode(&base64::engine::general_purpose::STANDARD, t)
}

/// A normalised observation of the media session.
#[derive(Debug, Clone)]
pub struct Media {
    pub title: String,
    pub artist: String,
    /// When the track started, in nanoseconds since the Unix epoch.
    pub start: i128,
    /// When the track will end, in nanoseconds since the Unix epoch.
    pub end: i128,
    pub artwork_mime: String,
    pub artwork_bytes: Vec<u8>,
    /// The BLAKE3 digest of `artwork_bytes` in lower-case hexadecimal.
    pub artwork_hash: String,
}

/// Whether the artwork fields of `m` agree: the hash is the digest of the
/// bytes.
pub open spec fn artwork_consistent(m: Media) -> bool {
    m.artwork_hash@ == hex_text(blake3_digest(m.artwork_bytes@))
}

/// Why an observation could not be normalised.
#[derive(Debug, Clone, Copy, PartialEq, Eq, Structural)]
pub enum MediaError {
    /// The artwork is not valid base64.
    InvalidArtwork,
    /// A computed instant does not fit in an `i128`.
    OutOfRange,
}

/// Division that rounds toward zero, as Rust's `/` does.
pub open spec fn div_toward_zero(a: int, b: int) -> int {
    if a >= 0 {
        a / b
    } else {
        -((-a) / b)
    }
}

/// Seconds from the Windows universal epoch (1601-01-01 UTC) to the Unix
/// epoch, negated.
pub const UNIVERSAL_EPOCH_SECS: i128 = -11644473600;

/// The Unix instant, in nanoseconds, of a Windows `DateTime.UniversalTime`
/// (100 ns ticks since 1601): whole microseconds, then the epoch offset.
pub open spec fn date_time_nanos(universal_time: i64) -> int {
    div_toward_zero(universal_time as int, 10) * 1000 + UNIVERSAL_EPOCH_SECS * 1_000_000_000
}

/// Converts a Windows `DateTime.UniversalTime` to nanoseconds since the Unix
/// epoch, keeping whole microseconds.
pub fn from_date_time(universal_time: i64) -> (r: i128)
    ensures
        r == date_time_nanos(universal_time),
{
    let t = universal_time as i128;
    let micros: i128 = if t >= 0 {
        t / 10
    } else {
        -((-t) / 10)
    };
    micros * 1000 + UNIVERSAL_EPOCH_SECS * 1_000_000_000
}

/// Converts a Windows `TimeSpan.Duration` (100 ns ticks) to nanoseconds.
pub fn from_time_span(duration: i64) -> (r: i128)
    ensures
        r == duration as int * 100,
{
    duration as i128 * 100
}

/// The timeline of a Windows media session, in its own units: the instant of
/// the last update as `DateTime.UniversalTime`, the rest as `TimeSpan`
/// ticks.
#[derive(Debug, Clone, Copy)]
pub struct Timeline {
    pub last_updated_time: i64,
    pub position: i64,
    pub start_time: i64,
    pub end_time: i64,
}

/// When the track of `t` started: the last update, less the position, plus
/// the start time.
pub open spec fn timeline_start(t: Timeline) -> int {
    date_time_nanos(t.last_updated_time) - t.position * 100 + t.start_time * 100
}

/// When the track of `t` ends: its start plus the span from start time to
/// end time.
pub open spec fn timeline_end(t: Timeline) -> int {
    timeline_start(t) + t.end_time * 100 - t.start_time * 100
}

/// The `[start, end]` instants of a Windows timeline.
pub fn timeline_bounds(t: &Timeline) -> (r: (i128, i128))
    ensures
        r.0 == timeline_start(*t),
        r.1 == timeline_end(*t),
        t.end_time >= t.start_time ==> r.1 >= r.0,
{
    let last_updated = from_date_time(t.last_updated_time);
    let elapsed = from_time_span(t.position);
    let start_offset = from_time_span(t.start_time);
    let start = last_updated - elapsed + start_offset;
    let end = start + from_time_span(t.end_time) - start_offset;
    (start, end)
}

impl Media {
    /// The snapshot for a Windows session: its timeline, its media
    /// properties, and its thumbnail's content type and bytes.
    pub fn from_windows(
        timeline: &Timeline,
        title: String,
        artist: String,
        artwork_mime: String,
        artwork_bytes: Vec<u8>,
    ) -> (r: Media)
        ensures
            r.title == title,
            r.artist == artist,
            r.start == timeline_start(*timeline),
            r.end == timeline_end(*timeline),
            r.artwork_mime == artwork_mime,
            r.artwork_bytes == artwork_bytes,
            artwork_consistent(r),
            timeline.end_time >= timeline.start_time ==> r.end >= r.start,
    {
        let (start, end) = timeline_bounds(timeline);
        let artwork_hash = artwork_hash(artwork_bytes.as_slice());
        Media { title, artist, start, end, artwork_mime, artwork_bytes, artwork_hash }
    }
}


/// One observation from the macOS helper, its fields as the helper names
/// them. Durations are nanoseconds, `timestamp` nanoseconds since the Unix
/// epoch, and `artwork_data` the artwork in base64.
#[derive(Debug, Clone)]
pub struct NowPlayingInfo {
    pub bundle_identifier: String,
    pub playing: bool,
    pub title: String,
    pub artist: Option<String>,
    pub album: Option<String>,
    pub duration: Option<i64>,
    pub elapsed_time: Option<i64>,
    pub timestamp: Option<i128>,
    pub artwork_mime_type: Option<String>,
    pub artwork_data: Option<String>,
    pub chapter_number: Option<usize>,
}

/// Whether `v` fits in an `i128`.
pub open spec fn fits_i128(v: int) -> bool {
    i128::MIN <= v <= i128::MAX
}

/// Whether `info` carries everything a snapshot needs, and is playing.
pub open spec fn info_complete(info: NowPlayingInfo) -> bool {
    info.playing && info.artist is Some && info.elapsed_time is Some && info.duration is Some
        && info.timestamp is Some && info.artwork_mime_type is Some && info.artwork_data is Some
}

/// When the track of a complete `info` started: the observation's timestamp
/// less the elapsed time.
pub open spec fn info_start(info: NowPlayingInfo) -> int {
    info.timestamp->Some_0 - info.elapsed_time->Some_0
}

/// When the track of a complete `info` ends: its start plus its duration.
pub open spec fn info_end(info: NowPlayingInfo) -> int {
    info_start(info) + info.duration->Some_0
}

impl Media {
    /// The snapshot that a macOS observation gives: `None` when nothing plays
    /// or a field it needs is missing; an error where the artwork is not
    /// base64 or an instant leaves the `i128` range.
    pub fn from_info(info: NowPlayingInfo) -> (r: Result<Option<Media>, MediaError>)
        ensures
            info.artwork_data matches Some(t) && base64_decoded(encode_utf8(t@)) is None
                ==> r == Err::<Option<Media>, MediaError>(MediaError::InvalidArtwork),
            (info.artwork_data matches Some(t) ==> base64_decoded(encode_utf8(t@)) is Some) ==> {
                if !info_complete(info) {
                    r == Ok::<Option<Media>, MediaError>(None)
                } else if !fits_i128(info_start(info)) || !fits_i128(info_end(info)) {
                    r == Err::<Option<Media>, MediaError>(MediaError::OutOfRange)
                } else {
                    r matches Ok(Some(m)) && m.title == info.title && m.artist
                        == info.artist->Some_0 && m.start == info_start(info) && m.end == info_end(
                        info,
                    ) && m.artwork_mime == info.artwork_mime_type->Some_0 && Some(m.artwork_bytes@)
                        == base64_decoded(encode_utf8(info.artwork_data->Some_0@))
                        && artwork_consistent(m)
                }
            },
            r matches Ok(Some(m)) ==> artwork_consistent(m) && (info.duration->Some_0 >= 0 ==> m.end
                >= m.start),
    {
        let bytes = match &info.artwork_data {
            Some(t) => match decode_base64(t.as_str().as_bytes()) {
                Ok(b) => Some(b),
                Err(_) => return Err(MediaError::InvalidArtwork),
            },
            None => None,
        };
        if !info.playing {
            return Ok(None);
        }
        let (artist, elapsed, duration, timestamp, mime, bytes) = match (
            info.artist,
            info.elapsed_time,
            info.duration,
            info.timestamp,
            info.artwork_mime_type,
            bytes,
        ) {
            (Some(a), Some(e), Some(d), Some(t), Some(m), Some(b)) => (a, e, d, t, m, b),
            _ => return Ok(None),
        };
        let start = match timestamp.checked_sub(elapsed as i128) {
            Some(v) => v,
            None => return Err(MediaError::OutOfRange),
        };
        let end = match start.checked_add(duration as i128) {
            Some(v) => v,
            None => return Err(MediaError::OutOfRange),
        };
        let artwork_hash = artwork_hash(bytes.as_slice());
        Ok(Some(Media { title: info.title, artist, start, end, artwork_mime: mime, artwork_bytes: bytes, artwork_hash }))
    }
}

/// The interpreter that runs the macOS helper script.
pub const HELPER_INTERPRETER: &'static str = "/usr/bin/perl";

/// The two ways the macOS helper is run.
#[derive(Debug, Clone, Copy, PartialEq, Eq, Structural)]
pub enum HelperMode {
    /// Print the current observation once.
    Get,
    /// Print a full observation per line for as long as it runs.
    Stream,
}

/// Where the macOS helper's script and the framework it loads live.
#[derive(Debug, Clone)]
pub struct MediaRemote {
    pub framework_path: String,
    pub script_path: String,
}

impl MediaRemote {
    pub fn new(framework_path: String, script_path: String) -> (r: MediaRemote)
        ensures
            r.framework_path == framework_path,
            r.script_path == script_path,
    {
        MediaRemote { framework_path, script_path }
    }

    /// The arguments the interpreter is given: the script, the framework,
    /// then `get`, or `stream --no-diff`.
    pub fn helper_args(&self, mode: HelperMode) -> (r: Vec<String>)
        ensures
            r@.len() == if mode == HelperMode::Get {
                3int
            } else {
                4int
            },
            r@[0]@ == self.script_path@,
            r@[1]@ == self.framework_path@,
            mode == HelperMode::Get ==> r@[2]@ == "get"@,
            mode == HelperMode::Stream ==> r@[2]@ == "stream"@ && r@[3]@ == "--no-diff"@,
    {
        let mut r: Vec<String> = Vec::new();
        r.push(self.script_path.clone());
        r.push(self.framework_path.clone());
        match mode {
            HelperMode::Get => {
                r.push(String::from_str("get"));
            },
            HelperMode::Stream => {
                r.push(String::from_str("stream"));
                r.push(String::from_str("--no-diff"));
            },
        }
        r
    }
}

} // verus!
