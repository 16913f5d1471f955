//! Geolocation by IP address: the answer of the geolocation service read
//! into a location, and the retries around the request.
use vstd::prelude::*;
use crate::clock::SysTime;
use crate::keyed::{keys_unique, to_map, lemma_to_map_dom, lemma_to_map_index, find_key};
use crate::location::types::{Location, LocationView};
use crate::timezone::{iana_zone_known, check_timezone, timezone_error_text};

verus! {

/// Number of additional attempts after the first failure.
pub const RETRIES: u32 = 3;

/// Delay between attempts, in seconds.
pub const RETRY_DELAY_SECS: u64 = 2;

/// Deepest nesting of arrays and objects an answer of the geolocation
/// service may hold. `tinyjson` recurses once per nested array or object,
/// without a bound, so a deeper answer is refused before it is parsed.
pub const MAX_JSON_DEPTH: usize = 128;

/// The state of a scan of JSON text before a character: inside a string or
/// not, just after a backslash in a string, and how deep arrays and objects
/// are nested.
pub struct JsonScan {
    pub in_string: bool,
    pub escaped: bool,
    pub depth: nat,
}

/// The scan state after the character `c`.
pub open spec fn json_scan_step(st: JsonScan, c: char) -> JsonScan {
    if st.in_string {
        if st.escaped {
            JsonScan { escaped: false, ..st }
        } else if c == '\\' {
            JsonScan { escaped: true, ..st }
        } else if c == '"' {
            JsonScan { in_string: false, ..st }
        } else {
            st
        }
    } else if c == '"' {
        JsonScan { in_string: true, escaped: false, ..st }
    } else if c == '[' || c == '{' {
        JsonScan { depth: st.depth + 1, ..st }
    } else if c == ']' || c == '}' {
        JsonScan { depth: if st.depth > 0 { (st.depth - 1) as nat } else { 0 }, ..st }
    } else {
        st
    }
}

/// The scan state before the character at `n`.
pub open spec fn json_scan(s: Seq<char>, n: int) -> JsonScan
    decreases n,
{
    if n <= 0 {
        JsonScan { in_string: false, escaped: false, depth: 0 }
    } else {
        json_scan_step(json_scan(s, n - 1), s[n - 1])
    }
}

/// Arrays and objects in `s`, outside its strings, nest at most
/// `MAX_JSON_DEPTH` deep. The parser reads strings as the scan does until
/// it stops with an error, so this bounds the depth of its recursion.
pub open spec fn json_depth_ok(s: Seq<char>) -> bool {
    forall|n: int| 0 < n <= s.len() ==> #[trigger] json_scan(s, n).depth <= MAX_JSON_DEPTH
}

/// Whether arrays and objects in `s`, outside its strings, nest at most
/// `MAX_JSON_DEPTH` deep.
pub fn json_depth_within(s: &str) -> (r: bool)
    ensures
        r == json_depth_ok(s@),
{
    let n = s.unicode_len();
    let mut i: usize = 0;
    let mut in_string = false;
    let mut escaped = false;
    let mut depth: usize = 0;
    while i < n
        invariant
            n == s@.len(),
            i <= n,
            depth <= MAX_JSON_DEPTH,
            json_scan(s@, i as int) == (JsonScan { in_string, escaped, depth: depth as nat }),
            forall|m: int| 0 < m <= i ==> #[trigger] json_scan(s@, m).depth <= MAX_JSON_DEPTH,
        decreases n - i,
    {
        let c = s.get_char(i);
        if in_string {
            if escaped {
                escaped = false;
            } else if c == '\\' {
                escaped = true;
            } else if c == '"' {
                in_string = false;
            }
        } else if c == '"' {
            in_string = true;
            escaped = false;
        } else if c == '[' || c == '{' {
            depth = depth + 1;
        } else if c == ']' || c == '}' {
            if depth > 0 {
                depth = depth - 1;
            }
        }
        assert(json_scan(s@, i + 1) == json_scan_step(json_scan(s@, i as int), c));
        if depth > MAX_JSON_DEPTH {
            assert(json_scan(s@, i + 1).depth > MAX_JSON_DEPTH);
            return false;
        }
        i = i + 1;
    }
    true
}

/// A member of a JSON object, as far as the location is concerned.
pub enum JsonField {
    /// A number, as the bit pattern of the IEEE 754 double.
    Number(u64),
    String(String),
    /// `true`, `false`, `null`, an array or an object.
    Other,
}

/// A JSON member with its string as characters.
pub enum JsonFieldView {
    Number(u64),
    String(Seq<char>),
    Other,
}

impl View for JsonField {
    type V = JsonFieldView;

    open spec fn view(&self) -> JsonFieldView {
        match self {
            JsonField::Number(n) => JsonFieldView::Number(*n),
            JsonField::String(s) => JsonFieldView::String(s@),
            JsonField::Other => JsonFieldView::Other,
        }
    }
}

/// What `tinyjson` reads from `text`: the message of its parse error if it
/// is not JSON; `Ok(None)` if it is JSON but not an object; else the members
/// of the object.
pub uninterp spec fn json_object_members(text: Seq<char>) -> Result<Option<Map<Seq<char>, JsonFieldView>>, Seq<char>>;

/// Members keyed by owned strings, read as pairs of characters and views.
pub open spec fn member_entries(s: Seq<(String, JsonField)>) -> Seq<(Seq<char>, JsonFieldView)> {
    s.map_values(|e: (String, JsonField)| (e.0@, e.1@))
}

/// Parses `text` with `tinyjson` and, when it is an object, reads its
/// members out one for one (numbers by bit pattern, strings as they are,
/// anything else as `Other`). The object is a hash map, so no key occurs
/// twice; the order of the members is left open. A parse error carries the
/// parser's message (named with the rest of the result). Only texts whose
/// arrays and objects nest at most `MAX_JSON_DEPTH` deep are handed over,
/// which bounds the depth of the parser's recursion.
#[verifier::external_body]
fn parse_json_object(text: &str) -> (r: Result<Option<Vec<(String, JsonField)>>, String>)
    requires
        json_depth_ok(text@),
    ensures
        r is Ok <==> json_object_members(text@) is Ok,
        r matches Err(m) ==> (json_object_members(text@) matches Err(n) && n == m@),
        r matches Ok(o) ==> (o is Some <==> json_object_members(text@)->Ok_0 is Some),
        r matches Ok(Some(v)) ==> keys_unique(member_entries(v@))
            && to_map(member_entries(v@)) == json_object_members(text@)->Ok_0->0,
{
    match text.parse::<tinyjson::JsonValue>() {
        Ok(tinyjson::JsonValue::Object(map)) => Ok(Some(map.into_iter().map(|(k, v)| (k, match v {
            tinyjson::JsonValue::Number(n) => JsonField::Number(n.to_bits()),
            tinyjson::JsonValue::String(s) => JsonField::String(s),
            _ => JsonField::Other,
        })).collect())),
        Ok(_) => Ok(None),
        Err(e) => Err(e.to_string()),
    }
}

/// What the geolocation service told: coordinates (bit patterns of IEEE 754
/// doubles) and the IANA name of the time zone.
pub struct IpFix {
    pub lat_bits: u64,
    pub lon_bits: u64,
    pub timezone: String,
}

/// Why a geolocation attempt failed.
pub enum IpLocateError {
    /// The request could not be made or answered; the message says why.
    Request(String),
    /// The server answered with a status outside 200..300.
    ServerStatus(i32),
    /// The answer nests arrays and objects deeper than `MAX_JSON_DEPTH`.
    TooDeeplyNested,
    /// The answer was not JSON; the parser's message.
    InvalidJson(String),
    /// The answer was JSON but not an object.
    NotAnObject,
    MissingLatitude,
    MissingLongitude,
    MissingTimezone,
    /// The time zone is not a known IANA name; the name and the parser's
    /// message.
    InvalidTimezone(String, String),
}

/// A failure with its messages as characters.
pub enum IpErrorKind {
    Request(Seq<char>),
    ServerStatus(i32),
    TooDeeplyNested,
    InvalidJson(Seq<char>),
    NotAnObject,
    MissingLatitude,
    MissingLongitude,
    MissingTimezone,
    InvalidTimezone(Seq<char>, Seq<char>),
}

/// A failure as characters.
pub open spec fn error_kind(e: IpLocateError) -> IpErrorKind {
    match e {
        IpLocateError::Request(m) => IpErrorKind::Request(m@),
        IpLocateError::ServerStatus(s) => IpErrorKind::ServerStatus(s),
        IpLocateError::TooDeeplyNested => IpErrorKind::TooDeeplyNested,
        IpLocateError::InvalidJson(m) => IpErrorKind::InvalidJson(m@),
        IpLocateError::NotAnObject => IpErrorKind::NotAnObject,
        IpLocateError::MissingLatitude => IpErrorKind::MissingLatitude,
        IpLocateError::MissingLongitude => IpErrorKind::MissingLongitude,
        IpLocateError::MissingTimezone => IpErrorKind::MissingTimezone,
        IpLocateError::InvalidTimezone(name, m) => IpErrorKind::InvalidTimezone(name@, m@),
    }
}

/// A fix with its time zone name as characters.
pub struct IpFixView {
    pub lat_bits: u64,
    pub lon_bits: u64,
    pub timezone: Seq<char>,
}

/// The fix as characters.
pub open spec fn fix_view(f: IpFix) -> IpFixView {
    IpFixView { lat_bits: f.lat_bits, lon_bits: f.lon_bits, timezone: f.timezone@ }
}

/// The number under `key`, if the object has one.
pub open spec fn number_member(m: Map<Seq<char>, JsonFieldView>, key: Seq<char>) -> Option<u64> {
    if m.dom().contains(key) && m[key] is Number {
        Some(m[key]->Number_0)
    } else {
        None
    }
}

/// The string under `key`, if the object has one.
pub open spec fn string_member(m: Map<Seq<char>, JsonFieldView>, key: Seq<char>) -> Option<Seq<char>> {
    if m.dom().contains(key) && m[key] is String {
        Some(m[key]->String_0)
    } else {
        None
    }
}

/// What an answer of the geolocation service with HTTP status `status` and
/// body `body` gives: the status must be 2xx, the body nest arrays and
/// objects at most `MAX_JSON_DEPTH` deep and be a JSON object with a number `lat`, a
/// number `lon` and a string `timezone` naming a known IANA zone; the first
/// check that fails gives the error.
pub open spec fn ip_answer_spec(status: i32, body: Seq<char>) -> Result<IpFixView, IpErrorKind> {
    if !(200 <= status < 300) {
        Err(IpErrorKind::ServerStatus(status))
    } else if !json_depth_ok(body) {
        Err(IpErrorKind::TooDeeplyNested)
    } else {
        match json_object_members(body) {
            Err(msg) => Err(IpErrorKind::InvalidJson(msg)),
            Ok(None) => Err(IpErrorKind::NotAnObject),
            Ok(Some(m)) => {
                if number_member(m, "lat"@) is None {
                    Err(IpErrorKind::MissingLatitude)
                } else if number_member(m, "lon"@) is None {
                    Err(IpErrorKind::MissingLongitude)
                } else if string_member(m, "timezone"@) is None {
                    Err(IpErrorKind::MissingTimezone)
                } else if !iana_zone_known(string_member(m, "timezone"@)->0) {
                    Err(IpErrorKind::InvalidTimezone(string_member(m, "timezone"@)->0, timezone_error_text()))
                } else {
                    Ok(IpFixView {
                        lat_bits: number_member(m, "lat"@)->0,
                        lon_bits: number_member(m, "lon"@)->0,
                        timezone: string_member(m, "timezone"@)->0,
                    })
                }
            },
        }
    }
}

/// The result of reading an answer, as views.
pub open spec fn answer_view(r: Result<IpFix, IpLocateError>) -> Result<IpFixView, IpErrorKind> {
    match r {
        Ok(f) => Ok(fix_view(f)),
        Err(e) => Err(error_kind(e)),
    }
}

/// The member under `key`, if the object has one.
fn member<'a>(members: &'a Vec<(String, JsonField)>, key: &str) -> (r: Option<&'a JsonField>)
    requires
        keys_unique(member_entries(members@)),
    ensures
        match r {
            Some(f) => to_map(member_entries(members@)).dom().contains(key@)
                && to_map(member_entries(members@))[key@] == f@,
            None => !to_map(member_entries(members@)).dom().contains(key@),
        },
{
    let ghost me = member_entries(members@);
    match find_key(members, key) {
        Some(i) => {
            proof {
                lemma_to_map_index(me, i as int);
            }
            Some(&members[i].1)
        },
        None => {
            proof {
                lemma_to_map_dom(me, key@);
                assert forall|j: int| 0 <= j < me.len() implies #[trigger] me[j].0 != key@ by {
                    assert(me[j].0 == members@[j].0@);
                }
            }
            None
        },
    }
}

/// Reads the answer of the IP geolocation service (`http://ip-api.com/json`)
/// with HTTP status `status` and body `body`.
pub fn read_ip_answer(status: i32, body: &str) -> (r: Result<IpFix, IpLocateError>)
    ensures
        answer_view(r) == ip_answer_spec(status, body@),
{
    if !(200 <= status && status < 300) {
        return Err(IpLocateError::ServerStatus(status));
    }
    if !json_depth_within(body) {
        return Err(IpLocateError::TooDeeplyNested);
    }
    let members = match parse_json_object(body) {
        Err(m) => return Err(IpLocateError::InvalidJson(m)),
        Ok(None) => return Err(IpLocateError::NotAnObject),
        Ok(Some(v)) => v,
    };
    let lat = match member(&members, "lat") {
        Some(JsonField::Number(n)) => *n,
        _ => return Err(IpLocateError::MissingLatitude),
    };
    let lon = match member(&members, "lon") {
        Some(JsonField::Number(n)) => *n,
        _ => return Err(IpLocateError::MissingLongitude),
    };
    let timezone = match member(&members, "timezone") {
        Some(JsonField::String(s)) => s.clone(),
        _ => return Err(IpLocateError::MissingTimezone),
    };
    match check_timezone(timezone.as_str()) {
        Ok(()) => Ok(IpFix { lat_bits: lat, lon_bits: lon, timezone }),
        Err(m) => Err(IpLocateError::InvalidTimezone(timezone, m)),
    }
}

/// What the retry loop asks for next.
pub enum IpStep {
    /// Make a request to the geolocation service.
    Fetch,
    /// Wait this many seconds, then make a request.
    WaitThenFetch(u64),
    /// The lookup is over, with this outcome.
    Finished(Result<Location, IpLocateError>),
}

/// The attempt that follows attempt `attempt` when it `succeeded` or not:
/// none after a success or after the last allowed attempt.
pub open spec fn retry_next(attempt: u32, succeeded: bool) -> Option<u32> {
    if succeeded || attempt >= RETRIES + 1 {
        None
    } else {
        Some((attempt + 1) as u32)
    }
}

/// How many requests a lookup makes from attempt `attempt` on, when the
/// requests succeed or fail as `outcomes` says.
pub open spec fn requests_made(attempt: u32, outcomes: Seq<bool>) -> nat
    decreases outcomes.len(),
{
    if outcomes.len() == 0 {
        0
    } else {
        match retry_next(attempt, outcomes[0]) {
            None => 1,
            Some(next) => 1 + requests_made(next, outcomes.drop_first()),
        }
    }
}

/// A lookup makes at most `RETRIES + 1` requests, and a successful request
/// is the last one.
pub proof fn lemma_bounded_retries(attempt: u32, outcomes: Seq<bool>)
    requires
        1 <= attempt <= RETRIES + 1,
    ensures
        requests_made(attempt, outcomes) <= RETRIES + 2 - attempt,
        outcomes.len() > 0 && outcomes[0] ==> requests_made(attempt, outcomes) == 1,
    decreases outcomes.len(),
{
    if outcomes.len() > 0 {
        match retry_next(attempt, outcomes[0]) {
            None => {},
            Some(next) => {
                lemma_bounded_retries(next, outcomes.drop_first());
            },
        }
    }
}

/// A geolocation lookup under way: which attempt is running (from 1 to
/// `RETRIES + 1`) and when the lookup started.
pub struct IpLocationProvider {
    pub attempt: u32,
    pub started: SysTime,
}

impl IpLocationProvider {
    /// Starts a lookup at `now`: the first request is made.
    pub fn get_location(now: SysTime) -> (r: (IpLocationProvider, IpStep))
        ensures
            r.0.attempt == 1,
            r.0.started == now,
            r.1 is Fetch,
    {
        (IpLocationProvider { attempt: 1, started: now }, IpStep::Fetch)
    }

    /// The outcome of the running attempt: a fix ends the lookup with a
    /// location taken when the lookup started; a failure is retried after
    /// the delay, unless it was the last of the `RETRIES + 1` attempts,
    /// whose error then ends the lookup.
    pub fn attempt_finished(&mut self, outcome: Result<IpFix, IpLocateError>) -> (r: IpStep)
        requires
            1 <= old(self).attempt <= RETRIES + 1,
        ensures
            final(self).started == old(self).started,
            1 <= final(self).attempt <= RETRIES + 1,
            (r is WaitThenFetch) == (retry_next(old(self).attempt, outcome is Ok) is Some),
            r is WaitThenFetch ==> final(self).attempt == retry_next(old(self).attempt, outcome is Ok)->0,
            match outcome {
                Ok(f) => {
                    &&& final(self).attempt == old(self).attempt
                    &&& r matches IpStep::Finished(Ok(l)) && l@ == (LocationView {
                        lat_bits: f.lat_bits,
                        lon_bits: f.lon_bits,
                        timezone: f.timezone@,
                        last_updated: old(self).started,
                    })
                },
                Err(e) => if old(self).attempt < RETRIES + 1 {
                    &&& final(self).attempt == old(self).attempt + 1
                    &&& r == IpStep::WaitThenFetch(RETRY_DELAY_SECS)
                } else {
                    &&& final(self).attempt == old(self).attempt
                    &&& r == IpStep::Finished(Err(e))
                },
            },
    {
        match outcome {
            Ok(f) => IpStep::Finished(Ok(Location {
                lat_bits: f.lat_bits,
                lon_bits: f.lon_bits,
                timezone: f.timezone,
                last_updated: self.started,
            })),
            Err(e) => {
                if self.attempt < RETRIES + 1 {
                    self.attempt = self.attempt + 1;
                    IpStep::WaitThenFetch(RETRY_DELAY_SECS)
                } else {
                    IpStep::Finished(Err(e))
                }
            },
        }
    }
}

} // verus!
