//! The first form of the control interface, which only sets and reports the
//! manual override.
use vstd::prelude::*;
use crate::context::same_setup;
use crate::daemon::{Daemon, Action, Event, Request, EventView, step_spec};
use crate::sun::sun_stats::SunStats;

verus! {

/// The control interface object.
pub struct Control;

impl Control {
    /// The interface object.
    pub fn new() -> (r: Self) {
        Control
    }

    /// `setManualDarkMode`: -1 = automatic, 0 = no preference, 1 = dark
    /// mode, 2 = light mode; any other mode is ignored.
    pub fn set_manual_darkmode(&self, daemon: &mut Daemon, override_mode: i32) -> (r: Action)
        ensures
            (final(daemon)@, r@) == step_spec(old(daemon)@, EventView::Start(Request::SetOverride { mode: override_mode })),
            same_setup(old(daemon).ctx, final(daemon).ctx),
    {
        daemon.step(Event::Start(Request::SetOverride { mode: override_mode }))
    }

    /// `manualDarkModeSetting` property: the override in place, -1 when the
    /// theme follows the sun.
    pub fn current_darkmode_setting(&self, daemon: &Daemon) -> (r: i32)
        ensures
            r == match daemon.ctx.sun_stats {
                SunStats::Override(m) => m,
                SunStats::Calculated(_) => -1i32,
            },
    {
        match &daemon.ctx.sun_stats {
            SunStats::Override(m) => *m,
            SunStats::Calculated(_) => -1,
        }
    }
}

} // verus!
