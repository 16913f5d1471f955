//! A location fix: coordinates, time zone and when it was taken.
use vstd::prelude::*;
use vstd::string::StringExecFns;
use crate::clock::{SysTime, elapsed_secs_spec, sys_le};

verus! {

/// Where the daemon is: latitude and longitude (the bit patterns of the
/// IEEE 754 double values), the IANA name of the time zone, and when the fix
/// was taken.
pub struct Location {
    pub lat_bits: u64,
    pub lon_bits: u64,
    pub timezone: String,
    pub last_updated: SysTime,
}

/// A location with its time zone name as characters.
pub struct LocationView {
    pub lat_bits: u64,
    pub lon_bits: u64,
    pub timezone: Seq<char>,
    pub last_updated: SysTime,
}

impl View for Location {
    type V = LocationView;

    open spec fn view(&self) -> LocationView {
        LocationView {
            lat_bits: self.lat_bits,
            lon_bits: self.lon_bits,
            timezone: self.timezone@,
            last_updated: self.last_updated,
        }
    }
}

/// The bit pattern of 35.6887, the latitude of Shinjuku.
pub const SHINJUKU_LAT_BITS: u64 = 0x4041d827525460aa;

/// The bit pattern of 139.7007, the longitude of Shinjuku.
pub const SHINJUKU_LON_BITS: u64 = 0x4061766c226809d5;

/// Whether a fix taken at `last_updated` is still fresh at `now`: the clock
/// has not gone back behind the fix, and no more than `ttl` whole seconds
/// have passed.
pub open spec fn location_valid(l: LocationView, ttl: u64, now: SysTime) -> bool {
    sys_le(l.last_updated, now) && ttl >= elapsed_secs_spec(now, l.last_updated)
}

impl Location {
    /// The location used before any fix: Shinjuku, zone `Japan`, taken at
    /// the epoch.
    pub open spec fn default_view() -> LocationView {
        LocationView {
            lat_bits: SHINJUKU_LAT_BITS,
            lon_bits: SHINJUKU_LON_BITS,
            timezone: "Japan"@,
            last_updated: SysTime { secs: 0, nanos: 0 },
        }
    }

    /// The location used before any fix: Shinjuku, zone `Japan`, taken at
    /// the epoch (so it is never fresh).
    pub fn default() -> (r: Location)
        ensures
            r@ == Self::default_view(),
    {
        Location {
            lat_bits: SHINJUKU_LAT_BITS,
            lon_bits: SHINJUKU_LON_BITS,
            timezone: String::from_str("Japan"),
            last_updated: SysTime::unix_epoch(),
        }
    }

    /// Checks if the current location is still valid (based off the
    /// timestamp). Returns false if the location data is expired or if the
    /// clock has skewed backwards.
    pub fn validate(&self, ttl: u64, now: SysTime) -> (r: bool)
        ensures
            r == location_valid(self@, ttl, now),
    {
        let skewed_back = now.secs < self.last_updated.secs
            || (now.secs == self.last_updated.secs && now.nanos < self.last_updated.nanos);
        let elapsed = now.elapsed_since(&self.last_updated);
        !skewed_back && ttl >= elapsed
    }

    /// A copy of this location.
    pub fn clone_location(&self) -> (r: Location)
        ensures
            r@ == self@,
    {
        Location {
            lat_bits: self.lat_bits,
            lon_bits: self.lon_bits,
            timezone: self.timezone.clone(),
            last_updated: self.last_updated,
        }
    }
}

} // verus!
