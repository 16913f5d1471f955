//! The decisions of the daemon's flows, as a state machine: the caller
//! performs each action (fetch the location, read the clock, compute the sun
//! times, broadcast a theme) and hands back what came of it.
use vstd::prelude::*;
use crate::cast::{u32_of_i32, cast_unsigned_i32};
use crate::clock::{LocalTime, day_of};
use crate::context::{Context, dark_mode_value, same_setup};
use crate::location::types::{Location, LocationView};
use crate::sun::sun_info::SunInfo;
use crate::sun::sun_stats::SunStats;

verus! {

/// What a flow is waiting for.
#[derive(Clone, Copy, PartialEq, Eq, Structural, Debug)]
pub enum Phase {
    /// No flow is under way.
    Idle,
    /// A fresh location, before the sun times are computed again.
    AwaitLocation,
    /// The clock, to see whether the sun times are from an earlier day.
    AwaitDateClock { publish: bool },
    /// The sun times for going back to following the sun.
    AwaitOverrideSun,
    /// Newly computed sun times.
    AwaitSunRefresh { publish: bool },
    /// The clock, to decide the theme.
    AwaitThemeClock { publish: bool },
    /// The end of the broadcast of this value.
    AwaitBroadcast { value: u32 },
}

/// What starts a flow.
#[derive(Clone, Copy, PartialEq, Eq, Structural, Debug)]
pub enum Request {
    /// A periodic or event-driven check; with `with_location` the location
    /// is refreshed first and the sun times computed again.
    Wakeup { with_location: bool },
    /// `setManualDarkMode`: -1 follows the sun again, any other value is the
    /// theme to show.
    SetOverride { mode: i32 },
    /// Bring today's sun times up to date, without broadcasting.
    Refresh,
}

/// What the caller hands back.
pub enum Event {
    Start(Request),
    /// The location lookup is over: `Some` with a location, `None` if it
    /// failed.
    LocationFetched(Option<Location>),
    /// The wall-clock time, local.
    ClockRead(LocalTime),
    /// The sun times computed for the location and today's date.
    SunTimes(SunInfo),
    /// The theme was broadcast and the hooks started.
    Broadcasted,
}

/// What the caller does next.
pub enum Action {
    FetchLocation,
    ReadClock,
    /// Compute today's sunrise and sunset for this location.
    ComputeSunTimes(Location),
    /// Emit the `SettingChanged` signal with this theme value and run the
    /// hooks for it; then hand back `Broadcasted`.
    Broadcast(u32),
    /// The flow is over.
    Done,
}

/// The daemon's state as the flows see it.
pub struct DaemonView {
    pub location: LocationView,
    pub sun_stats: SunStats,
    /// Minutes to shift the light-mode trigger, relative to sunrise.
    pub sunrise_offset: i64,
    /// Minutes to shift the dark-mode trigger, relative to sunset.
    pub sunset_offset: i64,
    /// The last value broadcast.
    pub prev_broadcast_val: u32,
    pub phase: Phase,
}

/// An event with locations as views.
pub enum EventView {
    Start(Request),
    LocationFetched(Option<LocationView>),
    ClockRead(LocalTime),
    SunTimes(SunInfo),
    Broadcasted,
}

/// An action with locations as views.
pub enum ActionView {
    FetchLocation,
    ReadClock,
    ComputeSunTimes(LocationView),
    Broadcast(u32),
    Done,
}

impl View for Event {
    type V = EventView;

    open spec fn view(&self) -> EventView {
        match self {
            Event::Start(r) => EventView::Start(*r),
            Event::LocationFetched(Some(l)) => EventView::LocationFetched(Some(l@)),
            Event::LocationFetched(None) => EventView::LocationFetched(None),
            Event::ClockRead(t) => EventView::ClockRead(*t),
            Event::SunTimes(s) => EventView::SunTimes(*s),
            Event::Broadcasted => EventView::Broadcasted,
        }
    }
}

impl View for Action {
    type V = ActionView;

    open spec fn view(&self) -> ActionView {
        match self {
            Action::FetchLocation => ActionView::FetchLocation,
            Action::ReadClock => ActionView::ReadClock,
            Action::ComputeSunTimes(l) => ActionView::ComputeSunTimes(l@),
            Action::Broadcast(v) => ActionView::Broadcast(*v),
            Action::Done => ActionView::Done,
        }
    }
}

/// Broadcast `value` if it differs from the last value broadcast; else the
/// flow is over.
pub open spec fn publish_spec(d: DaemonView, value: u32) -> (DaemonView, ActionView) {
    if d.prev_broadcast_val != value {
        (DaemonView { phase: Phase::AwaitBroadcast { value }, ..d }, ActionView::Broadcast(value))
    } else {
        (DaemonView { phase: Phase::Idle, ..d }, ActionView::Done)
    }
}

/// The end of a theme calculation: publish the value, or just stop.
pub open spec fn finish_spec(d: DaemonView, publish: bool, value: u32) -> (DaemonView, ActionView) {
    if publish {
        publish_spec(d, value)
    } else {
        (DaemonView { phase: Phase::Idle, ..d }, ActionView::Done)
    }
}

/// A theme that can be set by hand: 0 (no preference), 1 (dark) or 2
/// (light).
pub open spec fn theme_mode(mode: i32) -> bool {
    0 <= mode <= 2
}

/// The first state and action of the flow that `r` starts, from the state
/// `d` with no flow under way. `setManualDarkMode` with a mode other than
/// -1, 0, 1 or 2 is ignored.
pub open spec fn start_spec(d: DaemonView, r: Request) -> (DaemonView, ActionView) {
    let idle = DaemonView { phase: Phase::Idle, ..d };
    match r {
        Request::Wakeup { with_location } => if d.sun_stats is Override {
            (idle, ActionView::Done)
        } else if with_location {
            (DaemonView { phase: Phase::AwaitLocation, ..d }, ActionView::FetchLocation)
        } else {
            (DaemonView { phase: Phase::AwaitDateClock { publish: true }, ..d }, ActionView::ReadClock)
        },
        Request::SetOverride { mode } => if mode == -1 {
            (DaemonView { phase: Phase::AwaitOverrideSun, ..d }, ActionView::ComputeSunTimes(d.location))
        } else if theme_mode(mode) {
            publish_spec(DaemonView { sun_stats: SunStats::Override(mode), ..d }, u32_of_i32(mode) as u32)
        } else {
            (idle, ActionView::Done)
        },
        Request::Refresh => if d.sun_stats is Override {
            (idle, ActionView::Done)
        } else {
            (DaemonView { phase: Phase::AwaitDateClock { publish: false }, ..d }, ActionView::ReadClock)
        },
    }
}

/// The next state and action for an event. A request starts its flow at
/// once; a flow still under way (one whose caller gave up on it) is
/// abandoned. Any other event that is not the one the flow waits for ends
/// the flow.
pub open spec fn step_spec(d: DaemonView, e: EventView) -> (DaemonView, ActionView) {
    let idle = DaemonView { phase: Phase::Idle, ..d };
    match e {
        EventView::Start(r) => start_spec(idle, r),
        _ => match d.phase {
            Phase::Idle => (idle, ActionView::Done),
            Phase::AwaitLocation => match e {
                EventView::LocationFetched(f) => {
                    let loc = match f {
                        Some(l) => l,
                        None => d.location,
                    };
                    (DaemonView { location: loc, phase: Phase::AwaitSunRefresh { publish: true }, ..d }, ActionView::ComputeSunTimes(loc))
                },
                _ => (idle, ActionView::Done),
            },
            Phase::AwaitDateClock { publish } => match e {
                EventView::ClockRead(now) => match d.sun_stats {
                    SunStats::Calculated(s) => if day_of(now) > day_of(s.sunset.local_spec()) {
                        (DaemonView { phase: Phase::AwaitSunRefresh { publish }, ..d }, ActionView::ComputeSunTimes(d.location))
                    } else {
                        (DaemonView { phase: Phase::AwaitThemeClock { publish }, ..d }, ActionView::ReadClock)
                    },
                    SunStats::Override(m) => finish_spec(d, publish, u32_of_i32(m) as u32),
                },
                _ => (idle, ActionView::Done),
            },
            Phase::AwaitOverrideSun => match e {
                EventView::SunTimes(s) => (
                    DaemonView { sun_stats: SunStats::Calculated(s), phase: Phase::AwaitSunRefresh { publish: true }, ..d },
                    ActionView::ComputeSunTimes(d.location),
                ),
                _ => (idle, ActionView::Done),
            },
            Phase::AwaitSunRefresh { publish } => match e {
                EventView::SunTimes(s) => (
                    DaemonView {
                        sun_stats: if d.sun_stats is Calculated { SunStats::Calculated(s) } else { d.sun_stats },
                        phase: Phase::AwaitThemeClock { publish },
                        ..d
                    },
                    ActionView::ReadClock,
                ),
                _ => (idle, ActionView::Done),
            },
            Phase::AwaitThemeClock { publish } => match e {
                EventView::ClockRead(now) => finish_spec(d, publish, dark_mode_value(d.sun_stats, d.sunrise_offset, d.sunset_offset, now)),
                _ => (idle, ActionView::Done),
            },
            Phase::AwaitBroadcast { value } => match e {
                EventView::Broadcasted => (DaemonView { prev_broadcast_val: value, phase: Phase::Idle, ..d }, ActionView::Done),
                _ => (idle, ActionView::Done),
            },
        },
    }
}

/// The daemon: its context, the last theme value broadcast, and the flow
/// under way.
pub struct Daemon {
    pub ctx: Context,
    pub prev_broadcast_val: u32,
    pub phase: Phase,
}

impl Daemon {
    /// The state as the flows see it.
    pub open spec fn view(&self) -> DaemonView {
        DaemonView {
            location: self.ctx.location@,
            sun_stats: self.ctx.sun_stats,
            sunrise_offset: self.ctx.sunrise_offset,
            sunset_offset: self.ctx.sunset_offset,
            prev_broadcast_val: self.prev_broadcast_val,
            phase: self.phase,
        }
    }

    /// A daemon that has broadcast nothing yet (0, no preference) and runs
    /// no flow.
    pub fn new(ctx: Context) -> (r: Daemon)
        ensures
            r.ctx == ctx,
            r.prev_broadcast_val == 0,
            r.phase == Phase::Idle,
    {
        Daemon { ctx, prev_broadcast_val: 0, phase: Phase::Idle }
    }

    fn publish(&mut self, value: u32) -> (r: Action)
        ensures
            (final(self)@, r@) == publish_spec(old(self)@, value),
            final(self).ctx == old(self).ctx,
    {
        if self.prev_broadcast_val != value {
            self.phase = Phase::AwaitBroadcast { value };
            Action::Broadcast(value)
        } else {
            self.phase = Phase::Idle;
            Action::Done
        }
    }

    fn finish(&mut self, publish: bool, value: u32) -> (r: Action)
        ensures
            (final(self)@, r@) == finish_spec(old(self)@, publish, value),
            final(self).ctx == old(self).ctx,
    {
        if publish {
            self.publish(value)
        } else {
            self.phase = Phase::Idle;
            Action::Done
        }
    }

    fn abort(&mut self) -> (r: Action)
        ensures
            final(self)@ == (DaemonView { phase: Phase::Idle, ..old(self)@ }),
            r@ == ActionView::Done,
            final(self).ctx == old(self).ctx,
    {
        self.phase = Phase::Idle;
        Action::Done
    }

    /// Starts the flow of `request`, with no flow under way.
    fn start(&mut self, request: Request) -> (r: Action)
        requires
            old(self).phase == Phase::Idle,
        ensures
            (final(self)@, r@) == start_spec(old(self)@, request),
            same_setup(old(self).ctx, final(self).ctx),
    {
        match request {
            Request::Wakeup { with_location } => {
                if self.ctx.sun_stats.has_override() {
                    self.abort()
                } else if with_location {
                    self.phase = Phase::AwaitLocation;
                    Action::FetchLocation
                } else {
                    self.phase = Phase::AwaitDateClock { publish: true };
                    Action::ReadClock
                }
            },
            Request::SetOverride { mode } => {
                if mode == -1 {
                    self.phase = Phase::AwaitOverrideSun;
                    Action::ComputeSunTimes(self.ctx.location())
                } else if 0 <= mode && mode <= 2 {
                    self.ctx.set_theme_override(mode, None);
                    let value = cast_unsigned_i32(mode);
                    self.publish(value)
                } else {
                    self.abort()
                }
            },
            Request::Refresh => {
                if self.ctx.sun_stats.has_override() {
                    self.abort()
                } else {
                    self.phase = Phase::AwaitDateClock { publish: false };
                    Action::ReadClock
                }
            },
        }
    }

    /// Advances the flow under way by `event`, and says what to do next.
    pub fn step(&mut self, event: Event) -> (r: Action)
        ensures
            (final(self)@, r@) == step_spec(old(self)@, event@),
            same_setup(old(self).ctx, final(self).ctx),
    {
        if let Event::Start(request) = event {
            self.phase = Phase::Idle;
            return self.start(request);
        }
        match self.phase {
            Phase::Idle => self.abort(),
            Phase::AwaitLocation => match event {
                Event::LocationFetched(f) => {
                    self.ctx.update_location(f);
                    self.phase = Phase::AwaitSunRefresh { publish: true };
                    Action::ComputeSunTimes(self.ctx.location())
                },
                _ => self.abort(),
            },
            Phase::AwaitDateClock { publish } => match event {
                Event::ClockRead(now) => {
                    if self.ctx.sun_stats.has_override() {
                        let value = self.ctx.calculate_dark_mode(now);
                        self.finish(publish, value)
                    } else if self.ctx.update_sunrise_due(false, now) {
                        self.phase = Phase::AwaitSunRefresh { publish };
                        Action::ComputeSunTimes(self.ctx.location())
                    } else {
                        self.phase = Phase::AwaitThemeClock { publish };
                        Action::ReadClock
                    }
                },
                _ => self.abort(),
            },
            Phase::AwaitOverrideSun => match event {
                Event::SunTimes(s) => {
                    self.ctx.set_theme_override(-1, Some(s));
                    self.phase = Phase::AwaitSunRefresh { publish: true };
                    Action::ComputeSunTimes(self.ctx.location())
                },
                _ => self.abort(),
            },
            Phase::AwaitSunRefresh { publish } => match event {
                Event::SunTimes(s) => {
                    self.ctx.apply_sun_times(s);
                    self.phase = Phase::AwaitThemeClock { publish };
                    Action::ReadClock
                },
                _ => self.abort(),
            },
            Phase::AwaitThemeClock { publish } => match event {
                Event::ClockRead(now) => {
                    let value = self.ctx.calculate_dark_mode(now);
                    self.finish(publish, value)
                },
                _ => self.abort(),
            },
            Phase::AwaitBroadcast { value } => match event {
                Event::Broadcasted => {
                    self.prev_broadcast_val = value;
                    self.phase = Phase::Idle;
                    Action::Done
                },
                _ => self.abort(),
            },
        }
    }
}

/// Calculates the current dark mode value and, if it has changed since the
/// last broadcast, asks for it to be broadcast (with its hooks). Does
/// nothing while an override is set. `with_location` also updates the
/// location and forces a recalculation of today's sunrise/sunset times.
/// This starts the flow; [`Daemon::step`] carries it on.
pub fn broadcast_current_theme(daemon: &mut Daemon, with_location: bool) -> (r: Action)
    ensures
        (final(daemon)@, r@) == step_spec(old(daemon)@, EventView::Start(Request::Wakeup { with_location })),
        same_setup(old(daemon).ctx, final(daemon).ctx),
        (old(daemon).phase == Phase::Idle && old(daemon).ctx.sun_stats is Override) ==> {
            &&& final(daemon)@ == old(daemon)@
            &&& r@ == ActionView::Done
        },
{
    daemon.step(Event::Start(Request::Wakeup { with_location }))
}

/// While a manual override is set, a wakeup changes nothing and broadcasts
/// nothing.
pub proof fn lemma_override_silences_wakeups(d: DaemonView, with_location: bool)
    requires
        d.phase == Phase::Idle,
        d.sun_stats is Override,
    ensures
        step_spec(d, EventView::Start(Request::Wakeup { with_location })).0 == d,
        step_spec(d, EventView::Start(Request::Wakeup { with_location })).1 == ActionView::Done,
{
}

/// A theme is only broadcast when it differs from the last one broadcast.
pub proof fn lemma_broadcast_only_on_change(d: DaemonView, e: EventView)
    ensures
        step_spec(d, e).1 matches ActionView::Broadcast(v) ==> v != d.prev_broadcast_val,
{
}

/// Once a broadcast is done, its value is the last value broadcast, and
/// broadcasting it again is skipped.
pub proof fn lemma_broadcast_is_remembered(d: DaemonView, value: u32)
    requires
        d.phase == (Phase::AwaitBroadcast { value }),
    ensures
        step_spec(d, EventView::Broadcasted).0.prev_broadcast_val == value,
        step_spec(d, EventView::Broadcasted).0.phase == Phase::Idle,
        publish_spec(step_spec(d, EventView::Broadcasted).0, value).1 == ActionView::Done,
{
}

/// `setManualDarkMode(m)` with `m` of 0, 1 or 2 sets the override at once
/// and broadcasts `m` exactly when that differs from the last value
/// broadcast.
pub proof fn lemma_manual_override(d: DaemonView, mode: i32)
    requires
        d.phase == Phase::Idle,
        theme_mode(mode),
    ensures
        step_spec(d, EventView::Start(Request::SetOverride { mode })).0.sun_stats == SunStats::Override(mode),
        step_spec(d, EventView::Start(Request::SetOverride { mode })).1 == if mode as u32 != d.prev_broadcast_val {
            ActionView::Broadcast(mode as u32)
        } else {
            ActionView::Done
        },
{
}

/// `setManualDarkMode(m)` with `m` other than -1, 0, 1 or 2 changes nothing
/// and broadcasts nothing.
pub proof fn lemma_unknown_mode_ignored(d: DaemonView, mode: i32)
    requires
        d.phase == Phase::Idle,
        mode != -1,
        !theme_mode(mode),
    ensures
        step_spec(d, EventView::Start(Request::SetOverride { mode })).0 == d,
        step_spec(d, EventView::Start(Request::SetOverride { mode })).1 == ActionView::Done,
{
}

/// The override held is always a theme of 0, 1 or 2.
pub open spec fn override_valid(s: SunStats) -> bool {
    s matches SunStats::Override(m) ==> theme_mode(m)
}

/// Every step keeps the override a theme of 0, 1 or 2, and from such a state
/// only 0, 1 or 2 is ever broadcast.
pub proof fn lemma_only_themes_broadcast(d: DaemonView, e: EventView)
    requires
        override_valid(d.sun_stats),
    ensures
        override_valid(step_spec(d, e).0.sun_stats),
        step_spec(d, e).1 matches ActionView::Broadcast(v) ==> v <= 2,
{
    match d.sun_stats {
        SunStats::Calculated(s) => {
            assert forall|now: LocalTime| #[trigger] s.theme_with_offsets_spec(d.sunrise_offset, d.sunset_offset, now) == 1
                || s.theme_with_offsets_spec(d.sunrise_offset, d.sunset_offset, now) == 2 by {
                crate::context::lemma_dark_mode_values(d.sun_stats, d.sunrise_offset, d.sunset_offset, now);
            }
        },
        SunStats::Override(m) => {},
    }
}

/// `setManualDarkMode(-1)` clears the override: once the sun times for the
/// location arrive, the theme follows the sun again.
pub proof fn lemma_clearing_override(d: DaemonView, s: SunInfo)
    requires
        d.phase == Phase::Idle,
    ensures
        step_spec(d, EventView::Start(Request::SetOverride { mode: -1i32 })).1 == ActionView::ComputeSunTimes(d.location),
        step_spec(step_spec(d, EventView::Start(Request::SetOverride { mode: -1i32 })).0, EventView::SunTimes(s)).0.sun_stats
            == SunStats::Calculated(s),
{
}

/// A wakeup on the day of the current sun times reads the clock twice (the
/// day check, then the theme) and broadcasts the theme for the second
/// reading exactly when it differs from the last value broadcast; after the
/// broadcast that value is the last one.
pub proof fn lemma_wakeup_broadcasts_changes(d: DaemonView, s: SunInfo, first: LocalTime, second: LocalTime)
    requires
        d.phase == Phase::Idle,
        d.sun_stats == SunStats::Calculated(s),
        day_of(first) <= day_of(s.sunset.local_spec()),
    ensures
        ({
            let (d1, a1) = step_spec(d, EventView::Start(Request::Wakeup { with_location: false }));
            let (d2, a2) = step_spec(d1, EventView::ClockRead(first));
            let (d3, a3) = step_spec(d2, EventView::ClockRead(second));
            let value = dark_mode_value(d.sun_stats, d.sunrise_offset, d.sunset_offset, second);
            &&& a1 == ActionView::ReadClock
            &&& a2 == ActionView::ReadClock
            &&& a3 == (if value != d.prev_broadcast_val { ActionView::Broadcast(value) } else { ActionView::Done })
            &&& (value != d.prev_broadcast_val ==> step_spec(d3, EventView::Broadcasted).0.prev_broadcast_val == value)
        }),
{
}

/// A flow never changes the location except with a fetched one.
pub proof fn lemma_location_changes_only_by_fetch(d: DaemonView, e: EventView)
    ensures
        step_spec(d, e).0.location != d.location ==> {
            &&& d.phase == Phase::AwaitLocation
            &&& e matches EventView::LocationFetched(Some(l))
            &&& step_spec(d, e).0.location == e->LocationFetched_0->0
        },
{
}

/// A wake-up without a location refresh run to its end, with the clock
/// reading `first` and then `second`: the state it leaves and the value it
/// broadcast, if any.
pub open spec fn same_day_wakeup(d: DaemonView, first: LocalTime, second: LocalTime) -> (DaemonView, Option<u32>) {
    let d1 = step_spec(d, EventView::Start(Request::Wakeup { with_location: false })).0;
    let d2 = step_spec(d1, EventView::ClockRead(first)).0;
    let (d3, a3) = step_spec(d2, EventView::ClockRead(second));
    match a3 {
        ActionView::Broadcast(v) => (step_spec(d3, EventView::Broadcasted).0, Some(v)),
        _ => (d3, None),
    }
}

/// Two wake-ups in a row on the day of the current sun times, with nothing
/// in between, that find the same theme: after the first, that theme is the
/// last value broadcast; the second broadcasts nothing and changes nothing.
pub proof fn lemma_repeated_wakeup_is_silent(
    d: DaemonView,
    s: SunInfo,
    t1: LocalTime,
    t2: LocalTime,
    t3: LocalTime,
    t4: LocalTime,
)
    requires
        d.phase == Phase::Idle,
        d.sun_stats == SunStats::Calculated(s),
        day_of(t1) <= day_of(s.sunset.local_spec()),
        day_of(t3) <= day_of(s.sunset.local_spec()),
        dark_mode_value(d.sun_stats, d.sunrise_offset, d.sunset_offset, t2)
            == dark_mode_value(d.sun_stats, d.sunrise_offset, d.sunset_offset, t4),
    ensures
        ({
            let (e1, b1) = same_day_wakeup(d, t1, t2);
            let (e2, b2) = same_day_wakeup(e1, t3, t4);
            &&& e1.prev_broadcast_val == dark_mode_value(d.sun_stats, d.sunrise_offset, d.sunset_offset, t2)
            &&& e1.phase == Phase::Idle
            &&& b2 is None
            &&& e2 == e1
        }),
{
}

/// A request is never lost: it starts its flow whatever flow was under way
/// (one whose caller gave up on it is abandoned).
pub proof fn lemma_request_always_starts(d: DaemonView, r: Request)
    ensures
        step_spec(d, EventView::Start(r)) == start_spec(DaemonView { phase: Phase::Idle, ..d }, r),
{
}

} // verus!
