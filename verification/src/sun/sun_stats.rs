//! Whether the theme follows the sun or a manual override.
use vstd::prelude::*;
use crate::sun::sun_info::SunInfo;

verus! {

/// The calculated sunrise/sunset of today, or a manual theme override.
pub enum SunStats {
    Calculated(SunInfo),
    Override(i32),
}

impl SunStats {
    /// Whether a manual override is in place.
    pub fn has_override(&self) -> (r: bool)
        ensures
            r == (*self is Override),
    {
        match self {
            SunStats::Override(_) => true,
            SunStats::Calculated(_) => false,
        }
    }
}

} // verus!
