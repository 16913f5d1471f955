//! Points in time as the daemon reads them.
use vstd::prelude::*;

verus! {

/// A wall-clock reading without a time zone: seconds since 1970-01-01 00:00
/// local time, and the nanoseconds within that second (up to 2 s, for a leap
/// second).
#[derive(Clone, Copy, PartialEq, Eq, Structural, Debug)]
pub struct LocalTime {
    pub secs: i64,
    pub nanos: u32,
}

/// `a` is no later than `b`.
pub open spec fn local_le(a: LocalTime, b: LocalTime) -> bool {
    a.secs < b.secs || (a.secs == b.secs && a.nanos <= b.nanos)
}

/// `a` is earlier than `b`.
pub open spec fn local_lt(a: LocalTime, b: LocalTime) -> bool {
    a.secs < b.secs || (a.secs == b.secs && a.nanos < b.nanos)
}

/// The number of the calendar day a local time falls on, counted from
/// 1970-01-01 (day 0); earlier days are negative.
pub open spec fn day_of(t: LocalTime) -> int {
    t.secs as int / 86400
}

proof fn lemma_negative_day(s: int, d: int)
    requires
        s < 0,
        d == (-(s + 1)) / 86400,
    ensures
        s / 86400 == -d - 1,
{
    let m = -(s + 1);
    assert(d * 86400 <= m < d * 86400 + 86400) by (nonlinear_arith)
        requires
            m >= 0,
            d == m / 86400,
    ;
    assert((-d - 1) * 86400 <= s < (-d - 1) * 86400 + 86400) by (nonlinear_arith)
        requires
            d * 86400 <= m < d * 86400 + 86400,
            m == -(s + 1),
    ;
    vstd::arithmetic::div_mod::lemma_fundamental_div_mod_converse(s, 86400, -d - 1, s - (-d - 1) * 86400);
}

impl LocalTime {
    /// The calendar day this time falls on, as a day number.
    pub fn date(&self) -> (r: i64)
        ensures
            r == day_of(*self),
    {
        if self.secs >= 0 {
            self.secs / 86400
        } else {
            let shifted: i64 = self.secs + 1;
            let q: i64 = -((-shifted) / 86400);
            proof {
                lemma_negative_day(self.secs as int, (-shifted) as int / 86400);
            }
            q - 1
        }
    }

    /// Whether this time is no later than `other`.
    pub fn le(&self, other: &LocalTime) -> (r: bool)
        ensures
            r == local_le(*self, *other),
    {
        self.secs < other.secs || (self.secs == other.secs && self.nanos <= other.nanos)
    }

    /// Whether this time is earlier than `other`.
    pub fn lt(&self, other: &LocalTime) -> (r: bool)
        ensures
            r == local_lt(*self, *other),
    {
        self.secs < other.secs || (self.secs == other.secs && self.nanos < other.nanos)
    }
}

/// A point in time as the system clock gives it: seconds and nanoseconds
/// since 1970-01-01 00:00 UTC.
#[derive(Clone, Copy, PartialEq, Eq, Structural, Debug)]
pub struct SysTime {
    pub secs: u64,
    pub nanos: u32,
}

/// `a` is no later than `b`.
pub open spec fn sys_le(a: SysTime, b: SysTime) -> bool {
    a.secs < b.secs || (a.secs == b.secs && a.nanos <= b.nanos)
}

/// Whole seconds from `earlier` to `later`, rounded down; 0 when `later` is
/// before `earlier` (a clock that went backwards).
pub open spec fn elapsed_secs_spec(later: SysTime, earlier: SysTime) -> int {
    if !sys_le(earlier, later) {
        0
    } else if later.nanos >= earlier.nanos {
        later.secs - earlier.secs
    } else {
        later.secs - earlier.secs - 1
    }
}

impl SysTime {
    /// The start of the Unix epoch.
    pub fn unix_epoch() -> (r: SysTime)
        ensures
            r == (SysTime { secs: 0, nanos: 0 }),
    {
        SysTime { secs: 0, nanos: 0 }
    }

    /// Whole seconds elapsed from `earlier` to `self`; 0 if `self` is earlier.
    pub fn elapsed_since(&self, earlier: &SysTime) -> (r: u64)
        ensures
            r == elapsed_secs_spec(*self, *earlier),
    {
        if !(earlier.secs < self.secs || (earlier.secs == self.secs && earlier.nanos <= self.nanos)) {
            0
        } else if self.nanos >= earlier.nanos {
            self.secs - earlier.secs
        } else {
            self.secs - earlier.secs - 1
        }
    }
}

/// The largest distance from the epoch, in seconds, that a zoned time may
/// have; calendar dates run out long before it.
pub const MAX_ZONED_SECS: i64 = 1_000_000_000_000_000;

/// A point in time together with the UTC offset of the zone it is shown in.
pub struct ZonedTime {
    utc_secs: i64,
    nanos: u32,
    offset_secs: i32,
}

impl ZonedTime {
    #[verifier::type_invariant]
    closed spec fn inv(self) -> bool {
        &&& -MAX_ZONED_SECS <= self.utc_secs <= MAX_ZONED_SECS
        &&& -86400 < self.offset_secs < 86400
        &&& self.nanos < 2_000_000_000
    }

    /// Seconds since the epoch, UTC.
    pub closed spec fn utc_secs(self) -> int {
        self.utc_secs as int
    }

    /// Nanoseconds within the second.
    pub closed spec fn nanos(self) -> int {
        self.nanos as int
    }

    /// Offset of the zone from UTC, in seconds.
    pub closed spec fn offset_secs(self) -> int {
        self.offset_secs as int
    }

    /// The parts of a zoned time are within the ranges of their machine types.
    pub proof fn lemma_parts_in_range(self)
        ensures
            i64::MIN <= self.utc_secs() <= i64::MAX,
            0 <= self.nanos() <= u32::MAX,
            i32::MIN <= self.offset_secs() <= i32::MAX,
    {
    }

    /// Whether these parts make a zoned time.
    pub open spec fn valid_parts(utc_secs: i64, nanos: u32, offset_secs: i32) -> bool {
        &&& -MAX_ZONED_SECS <= utc_secs <= MAX_ZONED_SECS
        &&& -86400 < offset_secs < 86400
        &&& nanos < 2_000_000_000
    }

    /// The zoned time with these parts, if they are in range.
    pub fn new(utc_secs: i64, nanos: u32, offset_secs: i32) -> (r: Option<ZonedTime>)
        ensures
            r is Some <==> Self::valid_parts(utc_secs, nanos, offset_secs),
            r matches Some(z) ==> z.utc_secs() == utc_secs && z.nanos() == nanos && z.offset_secs() == offset_secs,
    {
        if -MAX_ZONED_SECS <= utc_secs && utc_secs <= MAX_ZONED_SECS && -86400 < offset_secs && offset_secs < 86400
            && nanos < 2_000_000_000 {
            Some(ZonedTime { utc_secs, nanos, offset_secs })
        } else {
            None
        }
    }

    /// The start of the epoch, in UTC.
    pub fn epoch() -> (r: ZonedTime)
        ensures
            r.utc_secs() == 0 && r.nanos() == 0 && r.offset_secs() == 0,
    {
        ZonedTime { utc_secs: 0, nanos: 0, offset_secs: 0 }
    }

    /// The wall-clock reading of this time in its own zone.
    pub open spec fn local_spec(self) -> LocalTime {
        LocalTime { secs: (self.utc_secs() + self.offset_secs()) as i64, nanos: self.nanos() as u32 }
    }

    /// The wall-clock reading of this time in its own zone: UTC shifted by
    /// the offset.
    pub fn naive_local(&self) -> (r: LocalTime)
        ensures
            r == self.local_spec(),
            r.secs == self.utc_secs() + self.offset_secs(),
    {
        proof {
            use_type_invariant(self);
        }
        LocalTime { secs: self.utc_secs + self.offset_secs as i64, nanos: self.nanos }
    }

    /// Seconds since the epoch, UTC.
    pub fn timestamp(&self) -> (r: i64)
        ensures
            r == self.utc_secs(),
    {
        self.utc_secs
    }

    /// Nanoseconds within the second.
    pub fn subsec_nanos(&self) -> (r: u32)
        ensures
            r == self.nanos(),
    {
        self.nanos
    }

    /// The zone's offset from UTC, in seconds.
    pub fn offset(&self) -> (r: i32)
        ensures
            r == self.offset_secs(),
    {
        self.offset_secs
    }

    /// A copy of this time.
    pub fn copy(&self) -> (r: ZonedTime)
        ensures
            r == *self,
    {
        proof {
            use_type_invariant(self);
        }
        ZonedTime { utc_secs: self.utc_secs, nanos: self.nanos, offset_secs: self.offset_secs }
    }
}

/// The RFC 3339 text `chrono` writes for the instant `utc_secs` seconds
/// (and `nanos` nanoseconds) after the epoch, shown at the offset of
/// `offset_secs` seconds east of UTC; `None` where `chrono` holds no such
/// instant or offset.
pub uninterp spec fn rfc3339_text(utc_secs: i64, nanos: u32, offset_secs: i32) -> Option<Seq<char>>;

/// `chrono::DateTime::<Utc>::from_timestamp(utc_secs, nanos)` shown in
/// `chrono::FixedOffset::east_opt(offset_secs)` and written by
/// `DateTime::to_rfc3339`; `None` when either constructor refuses its
/// arguments. The text is named, not stated.
#[verifier::external_body]
fn chrono_rfc3339(utc_secs: i64, nanos: u32, offset_secs: i32) -> (r: Option<String>)
    ensures
        match r {
            Some(t) => rfc3339_text(utc_secs, nanos, offset_secs) == Some(t@),
            None => rfc3339_text(utc_secs, nanos, offset_secs) is None,
        },
{
    let offset = chrono::FixedOffset::east_opt(offset_secs)?;
    let utc = chrono::DateTime::from_timestamp(utc_secs, nanos)?;
    Some(utc.with_timezone(&offset).to_rfc3339())
}

/// The RFC 3339 timestamp of a zoned time, with its offset; empty when
/// `chrono` cannot represent it.
pub open spec fn rfc3339_or_empty(z: ZonedTime) -> Seq<char> {
    match rfc3339_text(z.utc_secs() as i64, z.nanos() as u32, z.offset_secs() as i32) {
        Some(t) => t,
        None => Seq::empty(),
    }
}

/// The RFC 3339 timestamp of `z` in its own zone, such as
/// `2024-06-01T04:26:00+09:00`; empty when `chrono` cannot represent it.
pub fn rfc3339(z: &ZonedTime) -> (r: String)
    ensures
        r@ == rfc3339_or_empty(*z),
{
    match chrono_rfc3339(z.timestamp(), z.subsec_nanos(), z.offset()) {
        Some(t) => t,
        None => String::new(),
    }
}

} // verus!
