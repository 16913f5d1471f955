//! A location set by hand in the configuration.
use vstd::prelude::*;
use crate::clock::SysTime;
use crate::location::types::{Location, LocationView};

verus! {

/// Why the manual provider gave no location.
pub enum ManualError {
    /// `override_lat` and `override_lon` are not both set.
    NotSet,
    /// The system time zone could not be detected; the message says why.
    Timezone(String),
}

/// The coordinates from `override_lat` / `override_lon` (as bit patterns of
/// IEEE 754 doubles), each optional.
pub struct ManualLocationProvider {
    pub lat: Option<u64>,
    pub lon: Option<u64>,
}

impl ManualLocationProvider {
    /// A provider for the configured coordinates.
    pub fn new(lat: Option<u64>, lon: Option<u64>) -> (r: Self)
        ensures
            r.lat == lat,
            r.lon == lon,
    {
        ManualLocationProvider { lat, lon }
    }

    /// Returns the manually set location, if both coordinates are set, in
    /// the system time zone `system_timezone`, taken at `now`. If no location
    /// is set this fails, and the next provider is asked.
    pub fn get_location(&self, system_timezone: Result<String, String>, now: SysTime) -> (r: Result<Location, ManualError>)
        ensures
            (self.lat is None || self.lon is None) ==> r matches Err(ManualError::NotSet),
            (self.lat is Some && self.lon is Some) ==> match system_timezone {
                Ok(tz) => r is Ok && r->Ok_0@ == (LocationView {
                    lat_bits: self.lat->0,
                    lon_bits: self.lon->0,
                    timezone: tz@,
                    last_updated: now,
                }),
                Err(m) => r matches Err(ManualError::Timezone(m2)) && m2@ == m@,
            },
    {
        match (self.lat, self.lon) {
            (Some(lat), Some(lon)) => match system_timezone {
                Ok(tz) => Ok(Location { lat_bits: lat, lon_bits: lon, timezone: tz, last_updated: now }),
                Err(m) => Err(ManualError::Timezone(m)),
            },
            _ => Err(ManualError::NotSet),
        }
    }
}

} // verus!
