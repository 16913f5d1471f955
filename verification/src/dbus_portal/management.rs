//! The management interface `org.freedesktop.impl.portal.asahi.Control`.
use vstd::prelude::*;
use crate::clock::{LocalTime, ZonedTime, rfc3339, rfc3339_or_empty};
use crate::context::same_setup;
use crate::daemon::{Daemon, Action, Event, Request, EventView, step_spec};
use crate::sun::sun_info::SunInfo;
use crate::sun::sun_stats::SunStats;

verus! {

/// The control interface object.
pub struct Control;

impl Control {
    /// The interface object.
    pub fn new() -> (r: Self) {
        Control
    }

    /// `setManualDarkMode`: -1 = no override, 0 = no preference, 1 = dark
    /// mode, 2 = light mode; any other mode is ignored. Starts the flow that
    /// sets the override and broadcasts the new value if it changed.
    pub fn set_manual_darkmode(&self, daemon: &mut Daemon, override_mode: i32) -> (r: Action)
        ensures
            (final(daemon)@, r@) == step_spec(old(daemon)@, EventView::Start(Request::SetOverride { mode: override_mode })),
            same_setup(old(daemon).ctx, final(daemon).ctx),
    {
        daemon.step(Event::Start(Request::SetOverride { mode: override_mode }))
    }

    /// `forceUpdate`: an immediate wake-up cycle with a location refresh; a
    /// no-op when a manual override is active.
    pub fn force_update(&self, daemon: &mut Daemon) -> (r: Action)
        ensures
            (final(daemon)@, r@) == step_spec(old(daemon)@, EventView::Start(Request::Wakeup { with_location: true })),
            same_setup(old(daemon).ctx, final(daemon).ctx),
    {
        daemon.step(Event::Start(Request::Wakeup { with_location: true }))
    }

    /// `isOverrideSet` property: whether a manual override is active.
    pub fn is_override_set(&self, daemon: &Daemon) -> (r: bool)
        ensures
            r == (daemon.ctx.sun_stats is Override),
    {
        daemon.ctx.sun_stats.has_override()
    }

    /// `currentTheme` property: the dark mode value currently being
    /// broadcast (0 = no preference, 1 = dark mode, 2 = light mode).
    pub fn current_theme(&self, daemon: &Daemon) -> (r: u32)
        ensures
            r == daemon.prev_broadcast_val,
    {
        daemon.prev_broadcast_val
    }

    /// `todayTransitionTimes` property, first part: brings today's sunrise
    /// and sunset up to date (the flow runs to its end first).
    pub fn today_transition_times(&self, daemon: &mut Daemon) -> (r: Action)
        ensures
            (final(daemon)@, r@) == step_spec(old(daemon)@, EventView::Start(Request::Refresh)),
            same_setup(old(daemon).ctx, final(daemon).ctx),
    {
        daemon.step(Event::Start(Request::Refresh))
    }

    /// `todayTransitionTimes` property, second part: today's sunrise and
    /// sunset as RFC 3339 timestamps in the zone of the location, or `None`
    /// (shown as empty strings) when a manual override is active.
    pub fn transition_times(&self, daemon: &Daemon) -> (r: Option<(String, String)>)
        ensures
            match daemon.ctx.sun_stats {
                SunStats::Calculated(s) => r matches Some((rise, set))
                    && rise@ == rfc3339_or_empty(s.sunrise) && set@ == rfc3339_or_empty(s.sunset),
                SunStats::Override(_) => r is None,
            },
    {
        match &daemon.ctx.sun_stats {
            SunStats::Calculated(s) => Some((rfc3339(&s.sunrise), rfc3339(&s.sunset))),
            SunStats::Override(_) => None,
        }
    }

    /// `nextTransitionAt` property: the next sunrise or sunset after `now`,
    /// in the zone of the location: today's sunrise if it has not come yet,
    /// else today's sunset if it has not come yet, else the first of
    /// `tomorrow`'s (the sunrise and sunset of the next day) still to come.
    /// `None` (shown as an empty string) when a manual override is active.
    pub fn next_transition_at(&self, daemon: &Daemon, now: LocalTime, tomorrow: &SunInfo) -> (r: Option<ZonedTime>)
        ensures
            match daemon.ctx.sun_stats {
                SunStats::Calculated(s) => r == match s.next_transition_spec(now) {
                    Some(t) => Some(t),
                    None => tomorrow.next_transition_spec(now),
                },
                SunStats::Override(_) => r is None,
            },
    {
        match &daemon.ctx.sun_stats {
            SunStats::Calculated(s) => match s.next_transition(now) {
                Some(t) => Some(t),
                None => tomorrow.next_transition(now),
            },
            SunStats::Override(_) => None,
        }
    }
}

} // verus!
