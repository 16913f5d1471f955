//! The first form of the theme loop: a once-a-minute check of the current
//! time against today's sunrise and sunset, switching on each transition.
use vstd::prelude::*;

verus! {

/// What the loop knows: today's sunrise and sunset (Unix seconds; both 0
/// until a location is known), the date they are for, and whether dark mode
/// is on.
pub struct WatcherState {
    pub sunrise: i64,
    pub sunset: i64,
    pub year: i32,
    pub month: u32,
    pub day: u32,
    pub is_dark_mode: bool,
}

/// What the loop does next.
#[derive(Clone, Copy, PartialEq, Eq, Structural, Debug)]
pub enum WatchStep {
    /// No location yet: wait a second and look again.
    WaitForLocation,
    /// The sun times are for another day: compute them for today, then decide.
    Recalculate,
    /// Set dark mode to this value (2 = light, 1 = dark) if any, then wait a
    /// minute.
    Decided(Option<u32>),
}

/// The value to broadcast at `now` and whether dark mode is on afterwards:
/// between sunrise (included) and sunset (excluded) dark mode is disabled,
/// and 2 is broadcast if it was on; at other times it is enabled, and 1 is
/// broadcast if it was off.
pub open spec fn decide_spec(sunrise: i64, sunset: i64, was_dark: bool, now: i64) -> (Option<u32>, bool) {
    if sunrise <= now && now < sunset {
        (if was_dark { Some(2u32) } else { None }, false)
    } else {
        (if !was_dark { Some(1u32) } else { None }, true)
    }
}

impl WatcherState {
    /// Decides the theme at Unix time `now`, once the sun times are for today.
    pub fn decide(&mut self, now: i64) -> (r: Option<u32>)
        ensures
            (r, final(self).is_dark_mode) == decide_spec(old(self).sunrise, old(self).sunset, old(self).is_dark_mode, now),
            final(self).sunrise == old(self).sunrise,
            final(self).sunset == old(self).sunset,
            final(self).year == old(self).year,
            final(self).month == old(self).month,
            final(self).day == old(self).day,
    {
        if self.sunrise <= now && now < self.sunset {
            let r = if self.is_dark_mode { Some(2u32) } else { None };
            self.is_dark_mode = false;
            r
        } else {
            let r = if !self.is_dark_mode { Some(1u32) } else { None };
            self.is_dark_mode = true;
            r
        }
    }

    /// One turn of the loop at Unix time `now` on the UTC date
    /// `year`-`month`-`day`.
    pub fn observe_sunrise(&mut self, now: i64, year: i32, month: u32, day: u32) -> (r: WatchStep)
        ensures
            old(self).sunrise == 0 && old(self).sunset == 0 ==> r == WatchStep::WaitForLocation && *final(self) == *old(self),
            !(old(self).sunrise == 0 && old(self).sunset == 0) && (old(self).year != year || old(self).month != month || old(self).day != day)
                ==> r == WatchStep::Recalculate && *final(self) == *old(self),
            !(old(self).sunrise == 0 && old(self).sunset == 0) && old(self).year == year && old(self).month == month && old(self).day == day
                ==> ({
                    let (v, dark) = decide_spec(old(self).sunrise, old(self).sunset, old(self).is_dark_mode, now);
                    &&& r == WatchStep::Decided(v)
                    &&& final(self).is_dark_mode == dark
                    &&& final(self).sunrise == old(self).sunrise
                    &&& final(self).sunset == old(self).sunset
                    &&& final(self).year == old(self).year
                    &&& final(self).month == old(self).month
                    &&& final(self).day == old(self).day
                }),
    {
        if self.sunrise == 0 && self.sunset == 0 {
            return WatchStep::WaitForLocation;
        }
        if self.year != year || self.month != month || self.day != day {
            return WatchStep::Recalculate;
        }
        WatchStep::Decided(self.decide(now))
    }
}

/// The loop only sends a value on a transition: it never sends the theme
/// that is already on.
pub proof fn lemma_watcher_sends_only_changes(sunrise: i64, sunset: i64, was_dark: bool, now: i64)
    ensures
        decide_spec(sunrise, sunset, was_dark, now).0 == Some(2u32) ==> was_dark,
        decide_spec(sunrise, sunset, was_dark, now).0 == Some(1u32) ==> !was_dark,
        decide_spec(sunrise, sunset, decide_spec(sunrise, sunset, was_dark, now).1, now).0 is None,
{
}

} // verus!
