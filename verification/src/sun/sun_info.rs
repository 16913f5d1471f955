//! Today's sunrise and sunset, and the theme they call for at a given time.
use vstd::prelude::*;
use crate::clock::{LocalTime, ZonedTime, local_le, local_lt};

verus! {

/// The theme value for the time `now`: 2 (light) from sunrise up to, but not
/// including, sunset; 1 (dark) at every other time.
pub open spec fn theme_at(sunrise: LocalTime, sunset: LocalTime, now: LocalTime) -> u32 {
    if local_le(sunrise, now) && local_lt(now, sunset) {
        2
    } else {
        1
    }
}

/// `a` moved by `shift_secs` seconds is no later than `b`.
pub open spec fn shifted_le(a: LocalTime, shift_secs: int, b: LocalTime) -> bool {
    a.secs + shift_secs < b.secs || (a.secs + shift_secs == b.secs && a.nanos <= b.nanos)
}

/// `a` is earlier than `b` moved by `shift_secs` seconds.
pub open spec fn lt_shifted(a: LocalTime, b: LocalTime, shift_secs: int) -> bool {
    a.secs < b.secs + shift_secs || (a.secs == b.secs + shift_secs && a.nanos < b.nanos)
}

/// The theme value for `now` when light mode starts `sunrise_offset`
/// minutes after sunrise and dark mode starts `sunset_offset` minutes after
/// sunset (negative offsets move them earlier).
pub open spec fn theme_with_offsets(
    sunrise: LocalTime,
    sunset: LocalTime,
    sunrise_offset: i64,
    sunset_offset: i64,
    now: LocalTime,
) -> u32 {
    if shifted_le(sunrise, sunrise_offset * 60, now) && lt_shifted(now, sunset, sunset_offset * 60) {
        2
    } else {
        1
    }
}

/// Sunrise and sunset of a day, each in the zone of the location.
pub struct SunInfo {
    pub sunrise: ZonedTime,
    pub sunset: ZonedTime,
}

impl SunInfo {
    /// The times before anything is computed: both at the epoch, UTC.
    pub fn default() -> (r: SunInfo)
        ensures
            r.sunrise.utc_secs() == 0 && r.sunrise.nanos() == 0 && r.sunrise.offset_secs() == 0,
            r.sunset.utc_secs() == 0 && r.sunset.nanos() == 0 && r.sunset.offset_secs() == 0,
    {
        SunInfo { sunrise: ZonedTime::epoch(), sunset: ZonedTime::epoch() }
    }

    /// The day with the given sunrise and sunset.
    pub fn new(sunrise: ZonedTime, sunset: ZonedTime) -> (r: SunInfo)
        ensures
            r.sunrise == sunrise,
            r.sunset == sunset,
    {
        SunInfo { sunrise, sunset }
    }

    /// The theme for this day at `now`: the local wall-clock readings of
    /// sunrise and sunset are compared with `now`.
    pub open spec fn theme_spec(&self, now: LocalTime) -> u32 {
        theme_at(self.sunrise.local_spec(), self.sunset.local_spec(), now)
    }

    /// 2 (light mode) when `now` is between sunrise (included) and sunset
    /// (excluded), in local wall-clock time; 1 (dark mode) otherwise.
    pub fn calculate_theme(&self, now: LocalTime) -> (r: u32)
        ensures
            r == self.theme_spec(now),
            r == 1 || r == 2,
    {
        let sunrise = self.sunrise.naive_local();
        let sunset = self.sunset.naive_local();
        if sunrise.le(&now) && now.lt(&sunset) {
            2
        } else {
            1
        }
    }

    /// The theme for this day at `now`, with light mode starting
    /// `sunrise_offset` minutes after sunrise and dark mode `sunset_offset`
    /// minutes after sunset.
    pub open spec fn theme_with_offsets_spec(&self, sunrise_offset: i64, sunset_offset: i64, now: LocalTime) -> u32 {
        theme_with_offsets(self.sunrise.local_spec(), self.sunset.local_spec(), sunrise_offset, sunset_offset, now)
    }

    /// 2 (light mode) from sunrise shifted by `sunrise_offset` minutes up to
    /// sunset shifted by `sunset_offset` minutes, in local wall-clock time;
    /// 1 (dark mode) otherwise.
    pub fn calculate_theme_with_offsets(&self, sunrise_offset: i64, sunset_offset: i64, now: LocalTime) -> (r: u32)
        ensures
            r == self.theme_with_offsets_spec(sunrise_offset, sunset_offset, now),
            r == 1 || r == 2,
    {
        let sunrise = self.sunrise.naive_local();
        let sunset = self.sunset.naive_local();
        let rise: i128 = sunrise.secs as i128 + sunrise_offset as i128 * 60;
        let set: i128 = sunset.secs as i128 + sunset_offset as i128 * 60;
        let at: i128 = now.secs as i128;
        let after_rise = rise < at || (rise == at && sunrise.nanos <= now.nanos);
        let before_set = at < set || (at == set && now.nanos < sunset.nanos);
        if after_rise && before_set {
            2
        } else {
            1
        }
    }

    /// The next of today's two transitions after `now`: sunrise if it has
    /// not come yet, else sunset if it has not come yet; none once both have
    /// passed.
    pub open spec fn next_transition_spec(&self, now: LocalTime) -> Option<ZonedTime> {
        if local_lt(now, self.sunrise.local_spec()) {
            Some(self.sunrise)
        } else if local_lt(now, self.sunset.local_spec()) {
            Some(self.sunset)
        } else {
            None
        }
    }

    /// The next of today's transitions (sunrise, then sunset) after `now`,
    /// in local wall-clock time.
    pub fn next_transition(&self, now: LocalTime) -> (r: Option<ZonedTime>)
        ensures
            r == self.next_transition_spec(now),
    {
        if now.lt(&self.sunrise.naive_local()) {
            Some(self.sunrise.copy())
        } else if now.lt(&self.sunset.naive_local()) {
            Some(self.sunset.copy())
        } else {
            None
        }
    }

    /// A copy of this day.
    pub fn copy(&self) -> (r: SunInfo)
        ensures
            r == *self,
    {
        SunInfo { sunrise: self.sunrise.copy(), sunset: self.sunset.copy() }
    }
}

/// With no offsets, the shifted transitions are sunrise and sunset.
pub proof fn lemma_zero_offsets(sunrise: LocalTime, sunset: LocalTime, now: LocalTime)
    ensures
        theme_with_offsets(sunrise, sunset, 0, 0, now) == theme_at(sunrise, sunset, now),
{
}

/// Dark before sunrise, light from sunrise on, dark again from sunset on.
pub proof fn lemma_theme_follows_the_sun(sunrise: LocalTime, sunset: LocalTime, now: LocalTime)
    ensures
        local_lt(now, sunrise) ==> theme_at(sunrise, sunset, now) == 1,
        local_le(sunset, now) ==> theme_at(sunrise, sunset, now) == 1,
        local_le(sunrise, now) && local_lt(now, sunset) ==> theme_at(sunrise, sunset, now) == 2,
{
}

/// Whether the wall-clock readings of `z` in its own zone fit a local time.
pub open spec fn wall_fits(z: ZonedTime) -> bool {
    i64::MIN <= z.utc_secs() + z.offset_secs() <= i64::MAX
}

/// The theme is light (2) exactly when `now`, on the local wall clock, is no
/// earlier than sunrise moved by `sunrise_offset` minutes and earlier than
/// sunset moved by `sunset_offset` minutes, both read on the wall clock of
/// their own zone (UTC seconds plus the zone's offset); it is dark (1) at
/// every other time. This holds for offsets of either sign and for any zone.
pub proof fn lemma_theme_window(s: SunInfo, sunrise_offset: i64, sunset_offset: i64, now: LocalTime)
    requires
        wall_fits(s.sunrise),
        wall_fits(s.sunset),
    ensures
        ({
            let rise = s.sunrise.utc_secs() + s.sunrise.offset_secs() + sunrise_offset * 60;
            let set = s.sunset.utc_secs() + s.sunset.offset_secs() + sunset_offset * 60;
            let light = (rise < now.secs || (rise == now.secs && s.sunrise.nanos() <= now.nanos))
                && (now.secs < set || (now.secs == set && now.nanos < s.sunset.nanos()));
            &&& (s.theme_with_offsets_spec(sunrise_offset, sunset_offset, now) == 2) == light
            &&& (s.theme_with_offsets_spec(sunrise_offset, sunset_offset, now) == 1) == !light
        }),
{
    s.sunrise.lemma_parts_in_range();
    s.sunset.lemma_parts_in_range();
}

/// A positive `sunset_offset` keeps the theme light for that many minutes
/// after sunset, and a positive `sunrise_offset` keeps it dark for that many
/// minutes after sunrise.
pub proof fn lemma_offsets_delay_transitions(s: SunInfo, sunrise_offset: i64, sunset_offset: i64, k: int)
    requires
        wall_fits(s.sunrise),
        wall_fits(s.sunset),
        0 <= k,
        i64::MIN <= s.sunset.utc_secs() + s.sunset.offset_secs() + k * 60 <= i64::MAX,
        i64::MIN <= s.sunrise.utc_secs() + s.sunrise.offset_secs() + k * 60 <= i64::MAX,
    ensures
        ({
            let after_sunset = LocalTime {
                secs: (s.sunset.utc_secs() + s.sunset.offset_secs() + k * 60) as i64,
                nanos: s.sunset.nanos() as u32,
            };
            (k < sunset_offset && s.sunrise.utc_secs() + s.sunrise.offset_secs() + sunrise_offset * 60
                < after_sunset.secs) ==> s.theme_with_offsets_spec(sunrise_offset, sunset_offset, after_sunset) == 2
        }),
        ({
            let after_sunrise = LocalTime {
                secs: (s.sunrise.utc_secs() + s.sunrise.offset_secs() + k * 60) as i64,
                nanos: s.sunrise.nanos() as u32,
            };
            k < sunrise_offset ==> s.theme_with_offsets_spec(sunrise_offset, sunset_offset, after_sunrise) == 1
        }),
{
    let after_sunset = LocalTime {
        secs: (s.sunset.utc_secs() + s.sunset.offset_secs() + k * 60) as i64,
        nanos: s.sunset.nanos() as u32,
    };
    let after_sunrise = LocalTime {
        secs: (s.sunrise.utc_secs() + s.sunrise.offset_secs() + k * 60) as i64,
        nanos: s.sunrise.nanos() as u32,
    };
    lemma_theme_window(s, sunrise_offset, sunset_offset, after_sunset);
    lemma_theme_window(s, sunrise_offset, sunset_offset, after_sunrise);
}

/// With no offsets the theme is the one `calculate_theme` gives: light
/// exactly from the wall-clock reading of sunrise up to that of sunset.
pub proof fn lemma_theme_without_offsets(s: SunInfo, now: LocalTime)
    requires
        wall_fits(s.sunrise),
        wall_fits(s.sunset),
    ensures
        s.theme_with_offsets_spec(0, 0, now) == s.theme_spec(now),
        ({
            let rise = s.sunrise.utc_secs() + s.sunrise.offset_secs();
            let set = s.sunset.utc_secs() + s.sunset.offset_secs();
            (s.theme_spec(now) == 2) == ((rise < now.secs || (rise == now.secs && s.sunrise.nanos() <= now.nanos))
                && (now.secs < set || (now.secs == set && now.nanos < s.sunset.nanos())))
        }),
{
    lemma_theme_window(s, 0, 0, now);
}

/// The next transition is today's sunrise while `now`, on the local wall
/// clock, is earlier than sunrise read on the wall clock of its own zone;
/// else today's sunset while `now` is earlier than that; else there is none
/// today. Whatever is answered lies after `now` on the wall clock.
pub proof fn lemma_next_transition_is_next(s: SunInfo, now: LocalTime)
    requires
        wall_fits(s.sunrise),
        wall_fits(s.sunset),
    ensures
        ({
            let rise = s.sunrise.utc_secs() + s.sunrise.offset_secs();
            let set = s.sunset.utc_secs() + s.sunset.offset_secs();
            let before_rise = now.secs < rise || (now.secs == rise && now.nanos < s.sunrise.nanos());
            let before_set = now.secs < set || (now.secs == set && now.nanos < s.sunset.nanos());
            &&& before_rise ==> s.next_transition_spec(now) == Some(s.sunrise)
            &&& (!before_rise && before_set) ==> s.next_transition_spec(now) == Some(s.sunset)
            &&& (!before_rise && !before_set) ==> s.next_transition_spec(now) is None
            &&& s.next_transition_spec(now) matches Some(t) ==> (now.secs < t.utc_secs() + t.offset_secs()
                || (now.secs == t.utc_secs() + t.offset_secs() && now.nanos < t.nanos()))
        }),
{
    s.sunrise.lemma_parts_in_range();
    s.sunset.lemma_parts_in_range();
}

} // verus!
