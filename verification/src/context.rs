//! The daemon's state: where it is, today's sunrise and sunset or a manual
//! override, and how often to check.
use vstd::prelude::*;
use crate::cast::{cast_unsigned_i32, u32_of_i32, u64_of_i64};
use crate::clock::{LocalTime, day_of};
use crate::config::{Config, integer_or, integer_setting, location_ttl, sunset_check_frequency};
use crate::location::types::Location;
use crate::location::providers::manual::ManualLocationProvider;
use crate::location::providers::wrapper::{LocationProviderWrapper, ProviderKind, provider_order, providers_in_order};
use crate::sun::sun_info::SunInfo;
use crate::sun::sun_stats::SunStats;

verus! {

/// The dark-mode value: the override's value with its bits read as unsigned,
/// or the theme that today's sunrise and sunset, shifted by the configured
/// offsets (in minutes), call for at `now`.
pub open spec fn dark_mode_value(stats: SunStats, sunrise_offset: i64, sunset_offset: i64, now: LocalTime) -> u32 {
    match stats {
        SunStats::Override(mode) => u32_of_i32(mode) as u32,
        SunStats::Calculated(s) => s.theme_with_offsets_spec(sunrise_offset, sunset_offset, now),
    }
}

/// Whether today's sunrise and sunset have to be computed again at `now`:
/// only when they are followed (no override), and then when forced or when
/// `now` falls on a later day than the sunset.
pub open spec fn sun_update_due_spec(stats: SunStats, force_recalc: bool, now: LocalTime) -> bool {
    match stats {
        SunStats::Override(_) => false,
        SunStats::Calculated(s) => force_recalc || day_of(now) > day_of(s.sunset.local_spec()),
    }
}

/// Sunrise and sunset both at the epoch, as before anything is computed.
pub open spec fn is_unset_day(s: SunInfo) -> bool {
    &&& s.sunrise.utc_secs() == 0 && s.sunrise.nanos() == 0 && s.sunrise.offset_secs() == 0
    &&& s.sunset.utc_secs() == 0 && s.sunset.nanos() == 0 && s.sunset.offset_secs() == 0
}

/// The parts of the context that the flows never change: the providers and
/// the location cache in front of them, the configured coordinates and how
/// often to check.
pub open spec fn same_setup(before: Context, after: Context) -> bool {
    &&& after.providers == before.providers
    &&& after.location_provider == before.location_provider
    &&& after.manual_provider == before.manual_provider
    &&& after.sunset_check_frequency == before.sunset_check_frequency
}

/// Everything the daemon knows.
pub struct Context {
    /// The location providers, in the order they are tried; the cache asks
    /// them by their position here.
    pub providers: Vec<ProviderKind>,
    pub location_provider: LocationProviderWrapper,
    pub manual_provider: ManualLocationProvider,
    pub location: Location,
    /// Today's sunrise/sunset, or `Override(mode)` if there's a manual
    /// override in place.
    pub sun_stats: SunStats,
    pub sunset_check_frequency: u64,
    /// Minutes to shift the light-mode trigger, relative to sunrise.
    pub sunrise_offset: i64,
    /// Minutes to shift the dark-mode trigger, relative to sunset.
    pub sunset_offset: i64,
}

impl Context {
    /// The state at start-up, from the configuration `cfg`, the configured
    /// `override_lat`/`override_lon` (bit patterns of the doubles that
    /// `coordinate_setting` reads from `cfg`) and the location read from the
    /// cache file, if any. The providers are tried in `provider_order`: the
    /// manual one, holding those coordinates, then geolocation by IP.
    pub fn new(cfg: &Config, override_lat: Option<u64>, override_lon: Option<u64>, cached: Option<Location>) -> (r: Context)
        requires
            cfg.wf(),
        ensures
            r.location@ == Location::default_view(),
            r.sun_stats matches SunStats::Calculated(s) && is_unset_day(s),
            r.sunset_check_frequency == u64_of_i64(integer_or(cfg.view(), "sunset_check_frequency"@, 600)),
            r.sunrise_offset == integer_or(cfg.view(), "sunrise_offset"@, 0),
            r.sunset_offset == integer_or(cfg.view(), "sunset_offset"@, 0),
            r.location_provider.ttl == u64_of_i64(integer_or(cfg.view(), "location_ttl"@, 3600)),
            r.providers@ == provider_order(),
            r.location_provider.provider_count == r.providers@.len(),
            r.location_provider.asking is None,
            match cached {
                Some(c) => r.location_provider.latest_location@ == c@,
                None => r.location_provider.latest_location@ == Location::default_view(),
            },
            r.manual_provider.lat == override_lat,
            r.manual_provider.lon == override_lon,
    {
        let ttl = location_ttl(cfg);
        let frequency = sunset_check_frequency(cfg);
        let sunrise_offset = integer_setting(cfg, "sunrise_offset", 0);
        let sunset_offset = integer_setting(cfg, "sunset_offset", 0);
        let providers = providers_in_order();
        let count = providers.len();
        Context {
            providers,
            location_provider: LocationProviderWrapper::new(count, cached, ttl),
            manual_provider: ManualLocationProvider::new(override_lat, override_lon),
            location: Location::default(),
            sun_stats: SunStats::Calculated(SunInfo::default()),
            sunset_check_frequency: frequency,
            sunrise_offset,
            sunset_offset,
        }
    }

    /// Takes a newly fetched location, if the lookup gave one.
    pub fn update_location(&mut self, fetched: Option<Location>)
        ensures
            final(self).location@ == match fetched {
                Some(l) => l@,
                None => old(self).location@,
            },
            final(self).providers == old(self).providers,
            final(self).location_provider == old(self).location_provider,
            final(self).manual_provider == old(self).manual_provider,
            final(self).sun_stats == old(self).sun_stats,
            final(self).sunset_check_frequency == old(self).sunset_check_frequency,
            final(self).sunrise_offset == old(self).sunrise_offset,
            final(self).sunset_offset == old(self).sunset_offset,
    {
        match fetched {
            Some(l) => {
                self.location = l;
            },
            None => {},
        }
    }

    /// Whether today's sunrise and sunset must be computed again at `now`
    /// (`force_recalc` forces it, typically after the location changed).
    pub fn update_sunrise_due(&self, force_recalc: bool, now: LocalTime) -> (r: bool)
        ensures
            r == sun_update_due_spec(self.sun_stats, force_recalc, now),
    {
        match &self.sun_stats {
            SunStats::Override(_) => false,
            SunStats::Calculated(stats) => force_recalc || now.date() > stats.sunset.naive_local().date(),
        }
    }

    /// Takes newly computed sunrise and sunset, unless an override is set.
    pub fn apply_sun_times(&mut self, today: SunInfo)
        ensures
            final(self).sun_stats == match old(self).sun_stats {
                SunStats::Calculated(_) => SunStats::Calculated(today),
                SunStats::Override(m) => SunStats::Override(m),
            },
            final(self).providers == old(self).providers,
            final(self).location_provider == old(self).location_provider,
            final(self).manual_provider == old(self).manual_provider,
            final(self).location@ == old(self).location@,
            final(self).sunset_check_frequency == old(self).sunset_check_frequency,
            final(self).sunrise_offset == old(self).sunrise_offset,
            final(self).sunset_offset == old(self).sunset_offset,
    {
        if !self.sun_stats.has_override() {
            self.sun_stats = SunStats::Calculated(today);
        }
    }

    /// Sets a manual override: -1 goes back to following the sun (with
    /// `today`, the sunrise and sunset for the current location); any other
    /// mode is kept as the override.
    pub fn set_theme_override(&mut self, mode: i32, today: Option<SunInfo>)
        requires
            mode == -1 ==> today is Some,
        ensures
            mode == -1 ==> final(self).sun_stats == SunStats::Calculated(today->0),
            mode != -1 ==> final(self).sun_stats == SunStats::Override(mode),
            final(self).providers == old(self).providers,
            final(self).location_provider == old(self).location_provider,
            final(self).manual_provider == old(self).manual_provider,
            final(self).location@ == old(self).location@,
            final(self).sunset_check_frequency == old(self).sunset_check_frequency,
            final(self).sunrise_offset == old(self).sunrise_offset,
            final(self).sunset_offset == old(self).sunset_offset,
    {
        if mode == -1 {
            match today {
                Some(t) => {
                    self.sun_stats = SunStats::Calculated(t);
                },
                None => {},
            }
        } else {
            self.sun_stats = SunStats::Override(mode);
        }
    }

    /// The dark-mode value at `now`, once today's sunrise and sunset are up
    /// to date: the override's value, or 2 (light) between sunrise and
    /// sunset (each shifted by its configured offset) and 1 (dark) otherwise.
    pub fn calculate_dark_mode(&self, now: LocalTime) -> (r: u32)
        ensures
            r == dark_mode_value(self.sun_stats, self.sunrise_offset, self.sunset_offset, now),
    {
        match &self.sun_stats {
            SunStats::Override(mode) => cast_unsigned_i32(*mode),
            SunStats::Calculated(stats) => stats.calculate_theme_with_offsets(self.sunrise_offset, self.sunset_offset, now),
        }
    }

    /// Returns the location currently used for sunrise/sunset calculations.
    pub fn location(&self) -> (r: Location)
        ensures
            r@ == self.location@,
    {
        self.location.clone_location()
    }
}

/// While following the sun the dark-mode value is 1 or 2; an override of 0,
/// 1 or 2 gives that value.
pub proof fn lemma_dark_mode_values(stats: SunStats, sunrise_offset: i64, sunset_offset: i64, now: LocalTime)
    ensures
        stats is Calculated ==> (dark_mode_value(stats, sunrise_offset, sunset_offset, now) == 1
            || dark_mode_value(stats, sunrise_offset, sunset_offset, now) == 2),
        (stats matches SunStats::Override(m) && 0 <= m <= 2) ==> dark_mode_value(stats, sunrise_offset, sunset_offset, now)
            == stats->Override_0,
{
}

} // verus!
