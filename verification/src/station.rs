//! The station that an observation comes from.
use vstd::prelude::*;
use std::sync::Arc;
use crate::units::families::Altitude;
use crate::units::families::DistanceUnit;

verus! {

/// A place on the globe. Both angles count millionths of a degree, north and
/// east being positive.
#[derive(Clone, Copy, Debug, PartialEq, Eq, Structural)]
pub struct Coordinates {
    pub latitude: i64,
    pub longitude: i64,
}

impl From<(i64, i64)> for Coordinates {
    /// Latitude first, then longitude.
    fn from(value: (i64, i64)) -> (r: Self) {
        Coordinates { latitude: value.0, longitude: value.1 }
    }
}

impl vstd::std_specs::convert::FromSpecImpl<(i64, i64)> for Coordinates {
    open spec fn obeys_from_spec() -> bool {
        true
    }

    open spec fn from_spec(value: (i64, i64)) -> Self {
        Coordinates { latitude: value.0, longitude: value.1 }
    }
}

/// A station: its name, where it stands, how high, and the name of its time
/// zone in the tz database. A station does not change once it is made; the
/// observations that come from it share one copy.
#[derive(Debug)]
pub struct Station {
    pub name: String,
    pub altitude: Altitude,
    pub coords: Coordinates,
    pub time_zone: String,
}

impl Default for Station {
    /// A station at sea level where the equator meets the prime meridian.
    fn default() -> (r: Self)
        ensures
            r.name@ == "NULL Island"@,
            r.altitude.value == 0,
            r.altitude.unit == DistanceUnit::Meter,
            r.coords == (Coordinates { latitude: 0, longitude: 0 }),
            r.time_zone@ == "UTC"@,
    {
        Station {
            name: String::from_str("NULL Island"),
            altitude: Altitude::new(0, DistanceUnit::Meter),
            coords: Coordinates { latitude: 0, longitude: 0 },
            time_zone: String::from_str("UTC"),
        }
    }
}

impl Clone for Station {
    fn clone(&self) -> (r: Self)
        ensures
            r == *self,
    {
        Station {
            name: self.name.clone(),
            altitude: self.altitude,
            coords: self.coords,
            time_zone: self.time_zone.clone(),
        }
    }
}

/// Calls `Arc::clone`: another handle to the same station.
#[verifier::external_body]
pub(crate) fn share(station: &Arc<Station>) -> (r: Arc<Station>)
    ensures
        r == *station,
{
    Arc::clone(station)
}

} // verus!
