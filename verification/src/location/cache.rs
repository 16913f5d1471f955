//! The location cache file (`~/.cache/asahi-location-cache`): one value per
//! line — latitude, longitude, IANA time zone, and the Unix time of the fix.
use vstd::prelude::*;
use vstd::string::StringExecFns;
use crate::clock::SysTime;
use crate::text::{trim, trim_spec, trim_start_spec, trim_end_spec, is_unicode_whitespace, parse_u64, parse_u64_spec,
    u64_to_decimal, decimal_digits, lemma_decimal_round_trip, all_digits, is_digit};
use crate::timezone::{iana_zone_known, check_timezone, timezone_error_text};

verus! {

/// What the cache file holds: the latitude and longitude as written (the
/// floats are read by the caller), the time zone name, and when the fix was
/// taken.
pub struct CacheRecord {
    pub lat_text: String,
    pub lon_text: String,
    pub timezone: String,
    pub last_updated: SysTime,
}

/// A cache record as characters.
pub struct CacheRecordView {
    pub lat_text: Seq<char>,
    pub lon_text: Seq<char>,
    pub timezone: Seq<char>,
    pub last_updated: SysTime,
}

impl View for CacheRecord {
    type V = CacheRecordView;

    open spec fn view(&self) -> CacheRecordView {
        CacheRecordView {
            lat_text: self.lat_text@,
            lon_text: self.lon_text@,
            timezone: self.timezone@,
            last_updated: self.last_updated,
        }
    }
}

/// Why the cache file could not be read.
pub enum CacheError {
    /// "Malformed Cache: Missing Latitude"
    MissingLatitude,
    /// "Malformed Cache: Missing Longitude"
    MissingLongitude,
    /// "Malformed Cache: Missing Timezone"
    MissingTimezone,
    /// One of the first three lines could not be read as text.
    Unreadable,
    /// "Malformed Cache: Invalid IANA timezone", with the parser's message.
    InvalidTimezone(String),
}

/// A failure with its message as characters.
pub enum CacheErrorKind {
    MissingLatitude,
    MissingLongitude,
    MissingTimezone,
    Unreadable,
    InvalidTimezone(Seq<char>),
}

/// A failure as characters.
pub open spec fn cache_error_kind(e: CacheError) -> CacheErrorKind {
    match e {
        CacheError::MissingLatitude => CacheErrorKind::MissingLatitude,
        CacheError::MissingLongitude => CacheErrorKind::MissingLongitude,
        CacheError::MissingTimezone => CacheErrorKind::MissingTimezone,
        CacheError::Unreadable => CacheErrorKind::Unreadable,
        CacheError::InvalidTimezone(m) => CacheErrorKind::InvalidTimezone(m@),
    }
}

/// The Unix time of the fourth line: its number when it reads as one and a
/// system time can hold it, else 0 (the epoch).
pub open spec fn cached_secs(lines: Seq<Option<Seq<char>>>) -> u64 {
    if lines.len() >= 4 && lines[3] is Some && parse_u64_spec(trim_spec(lines[3]->0)) is Some
        && parse_u64_spec(trim_spec(lines[3]->0))->0 <= i64::MAX {
        parse_u64_spec(trim_spec(lines[3]->0))->0
    } else {
        0
    }
}

/// What the lines of the cache file give (`None` for a line that could not
/// be read as text); each value is trimmed of white space.
pub open spec fn parse_cache_spec(lines: Seq<Option<Seq<char>>>) -> Result<CacheRecordView, CacheErrorKind> {
    if lines.len() < 1 {
        Err(CacheErrorKind::MissingLatitude)
    } else if lines[0] is None {
        Err(CacheErrorKind::Unreadable)
    } else if lines.len() < 2 {
        Err(CacheErrorKind::MissingLongitude)
    } else if lines[1] is None {
        Err(CacheErrorKind::Unreadable)
    } else if lines.len() < 3 {
        Err(CacheErrorKind::MissingTimezone)
    } else if lines[2] is None {
        Err(CacheErrorKind::Unreadable)
    } else if !iana_zone_known(trim_spec(lines[2]->0)) {
        Err(CacheErrorKind::InvalidTimezone(timezone_error_text()))
    } else {
        Ok(CacheRecordView {
            lat_text: trim_spec(lines[0]->0),
            lon_text: trim_spec(lines[1]->0),
            timezone: trim_spec(lines[2]->0),
            last_updated: SysTime { secs: cached_secs(lines), nanos: 0 },
        })
    }
}

/// The lines as characters.
pub open spec fn lines_view(lines: Seq<Option<String>>) -> Seq<Option<Seq<char>>> {
    lines.map_values(|l: Option<String>| match l {
        Some(s) => Some(s@),
        None => None,
    })
}

/// The outcome as views.
pub open spec fn cache_result_view(r: Result<CacheRecord, CacheError>) -> Result<CacheRecordView, CacheErrorKind> {
    match r {
        Ok(c) => Ok(c@),
        Err(e) => Err(cache_error_kind(e)),
    }
}

/// Reads the lines of the cache file.
pub fn from_cache(lines: &Vec<Option<String>>) -> (r: Result<CacheRecord, CacheError>)
    ensures
        cache_result_view(r) == parse_cache_spec(lines_view(lines@)),
{
    let ghost lv = lines_view(lines@);
    if lines.len() < 1 {
        return Err(CacheError::MissingLatitude);
    }
    let lat = match &lines[0] {
        Some(l) => trim(l.as_str()),
        None => return Err(CacheError::Unreadable),
    };
    if lines.len() < 2 {
        return Err(CacheError::MissingLongitude);
    }
    let lon = match &lines[1] {
        Some(l) => trim(l.as_str()),
        None => return Err(CacheError::Unreadable),
    };
    if lines.len() < 3 {
        return Err(CacheError::MissingTimezone);
    }
    let tz = match &lines[2] {
        Some(l) => trim(l.as_str()),
        None => return Err(CacheError::Unreadable),
    };
    match check_timezone(tz) {
        Ok(()) => {},
        Err(m) => return Err(CacheError::InvalidTimezone(m)),
    }
    let mut secs: u64 = 0;
    if lines.len() >= 4 {
        match &lines[3] {
            Some(l) => match parse_u64(trim(l.as_str())) {
                Some(v) => {
                    if v <= i64::MAX as u64 {
                        secs = v;
                    }
                },
                None => {},
            },
            None => {},
        }
    }
    Ok(CacheRecord {
        lat_text: String::from_str(lat),
        lon_text: String::from_str(lon),
        timezone: String::from_str(tz),
        last_updated: SysTime { secs, nanos: 0 },
    })
}

/// The lines the cache file is written with.
pub open spec fn cache_lines_spec(lat_text: Seq<char>, lon_text: Seq<char>, timezone: Seq<char>, last_updated: SysTime) -> Seq<Seq<char>> {
    seq![lat_text, lon_text, timezone, decimal_digits(last_updated.secs as nat)]
}

/// The lines to write to the cache file: latitude, longitude (as the caller
/// formatted them), time zone, and the whole seconds of the fix since the
/// Unix epoch.
pub fn to_cache(lat_text: &str, lon_text: &str, timezone: &str, last_updated: SysTime) -> (r: Vec<String>)
    ensures
        r@.map_values(|s: String| s@) == cache_lines_spec(lat_text@, lon_text@, timezone@, last_updated),
{
    let mut r: Vec<String> = Vec::new();
    r.push(String::from_str(lat_text));
    r.push(String::from_str(lon_text));
    r.push(String::from_str(timezone));
    r.push(u64_to_decimal(last_updated.secs));
    assert(r@.map_values(|s: String| s@) =~= cache_lines_spec(lat_text@, lon_text@, timezone@, last_updated));
    r
}

proof fn lemma_trim_digits(s: Seq<char>)
    requires
        s.len() > 0,
        all_digits(s),
    ensures
        trim_spec(s) == s,
{
    assert(is_digit(s[0]));
    assert(!is_unicode_whitespace(s[0]));
    assert(trim_start_spec(s) == s);
    assert(is_digit(s[s.len() - 1]));
    assert(!is_unicode_whitespace(s.last()));
}

/// Reading back the lines written for a fix gives the fix back, to the
/// whole second (the fraction of a second is not written, and comes back as
/// 0), when the values carry no surrounding white space, the zone is known
/// and the time is one a system time can hold. A fix the daemon writes meets
/// these: its coordinates are written as formatted numbers and its zone as a
/// name the zone table knows, and the clock gives seconds within `i64`.
pub proof fn lemma_cache_round_trip(lat_text: Seq<char>, lon_text: Seq<char>, timezone: Seq<char>, last_updated: SysTime)
    requires
        trim_spec(lat_text) == lat_text,
        trim_spec(lon_text) == lon_text,
        trim_spec(timezone) == timezone,
        iana_zone_known(timezone),
        last_updated.secs <= i64::MAX,
    ensures
        parse_cache_spec(cache_lines_spec(lat_text, lon_text, timezone, last_updated).map_values(|l: Seq<char>| Some(l)))
            == Ok::<CacheRecordView, CacheErrorKind>(CacheRecordView {
                lat_text,
                lon_text,
                timezone,
                last_updated: SysTime { secs: last_updated.secs, nanos: 0 },
            }),
{
    let lines = cache_lines_spec(lat_text, lon_text, timezone, last_updated).map_values(|l: Seq<char>| Some(l));
    let digits = decimal_digits(last_updated.secs as nat);
    lemma_decimal_round_trip(last_updated.secs as nat);
    lemma_trim_digits(digits);
    assert(lines[3] == Some(digits));
    assert(lines[0] == Some(lat_text));
    assert(lines[1] == Some(lon_text));
    assert(lines[2] == Some(timezone));
    assert(parse_u64_spec(digits) == Some(last_updated.secs));
}

} // verus!
