//! The vertical levels at which an observation is made.
use vstd::prelude::*;
use vstd::string::*;
use crate::fixed::mul_div;
use crate::fixed::scale;
use crate::fixed::MICRO;
use crate::units::families::Altitude;
use crate::units::families::DistanceUnit;
use crate::units::text::decimal;
use crate::units::text::push_decimal;

verus! {

/// The kinds of value that an observation can hold.
#[derive(Debug, Clone, Copy, Eq, Hash, PartialEq, Structural)]
pub enum Param {
    Temperature,
    Pressure,
    Visibility,
    Dewpoint,
    RelativeHumidity,
    WindSpeed,
    WindDirection,
    Wind,
    SkyCover,
    WxCodes,
    RawMetar,
    PrecipToday,
    Precip,
    Altimeter,
    Cape,
}

/// A vertical level. `All` stands for what holds of the whole observation;
/// `AGL` and `MSL` give metres above the ground and above sea level, `MBAR` a
/// pressure level in millibars.
#[derive(Debug, Clone, Copy, PartialEq, Eq, Hash, Structural)]
pub enum Layer {
    All,
    Indoor,
    NearSurface,
    SeaLevel,
    AGL(u64),
    MSL(u64),
    MBAR(u64),
}

/// A whole number of metres as a height.
pub open spec fn metres(a: u64) -> Altitude {
    Altitude { value: scale(a as int, MICRO as int, 1) as i64, unit: DistanceUnit::Meter }
}

impl Layer {
    /// The height of the level above the ground of a station at
    /// `station_altitude`.
    pub open spec fn spec_height_agl(&self, station_altitude: Altitude) -> Option<Altitude> {
        match self {
            Layer::All => Some(Altitude { value: 0, unit: DistanceUnit::Meter }),
            Layer::Indoor => Some(Altitude { value: 1_000_000, unit: DistanceUnit::Meter }),
            Layer::NearSurface => Some(Altitude { value: 2_000_000, unit: DistanceUnit::Meter }),
            Layer::SeaLevel => Some(station_altitude.spec_mul(-1_000_000i64)),
            Layer::AGL(a) => Some(metres(*a)),
            Layer::MSL(a) => Some(metres(*a).spec_sub(station_altitude)),
            Layer::MBAR(_) => None,
        }
    }

    /// The text of the level.
    pub open spec fn spec_to_text(&self) -> Seq<char> {
        match self {
            Layer::All => ""@,
            Layer::Indoor => "Indoor"@,
            Layer::NearSurface => "Near Surface"@,
            Layer::SeaLevel => "Sea Level"@,
            Layer::AGL(h) => decimal(*h as nat) + " ft AGL"@,
            Layer::MSL(h) => decimal(*h as nat) + " ft MSL"@,
            Layer::MBAR(p) => decimal(*p as nat) + " mb"@,
        }
    }

    /// The height of the level above the ground: one metre indoors, two near
    /// the surface, the station's altitude turned downwards at sea level, the
    /// given metres for `AGL`, and for `MSL` the given metres less the
    /// station's altitude. `All`, which stands for the observation as a
    /// whole, is taken at the ground. Only a pressure level has no height.
    pub fn height_agl(&self, station_altitude: Altitude) -> (r: Option<Altitude>)
        ensures
            r == self.spec_height_agl(station_altitude),
    {
        match self {
            Layer::All => Some(Altitude::new(0, DistanceUnit::Meter)),
            Layer::Indoor => Some(Altitude::new(1_000_000, DistanceUnit::Meter)),
            Layer::NearSurface => Some(Altitude::new(2_000_000, DistanceUnit::Meter)),
            Layer::SeaLevel => Some(station_altitude.mul(-1_000_000)),
            Layer::AGL(a) => Some(whole_metres(*a)),
            Layer::MSL(a) => Some(whole_metres(*a).sub(station_altitude)),
            Layer::MBAR(_) => None,
        }
    }

    /// The text of the level, as in `Near Surface` or `850 mb`.
    pub fn to_text(&self) -> (r: String)
        ensures
            r@ == self.spec_to_text(),
    {
        match self {
            Layer::All => String::from_str(""),
            Layer::Indoor => String::from_str("Indoor"),
            Layer::NearSurface => String::from_str("Near Surface"),
            Layer::SeaLevel => String::from_str("Sea Level"),
            Layer::AGL(h) => {
                let mut s = String::new();
                push_decimal(&mut s, *h);
                s.append(" ft AGL");
                proof {
                    assert(s@ =~= self.spec_to_text());
                }
                s
            },
            Layer::MSL(h) => {
                let mut s = String::new();
                push_decimal(&mut s, *h);
                s.append(" ft MSL");
                proof {
                    assert(s@ =~= self.spec_to_text());
                }
                s
            },
            Layer::MBAR(p) => {
                let mut s = String::new();
                push_decimal(&mut s, *p);
                s.append(" mb");
                proof {
                    assert(s@ =~= self.spec_to_text());
                }
                s
            },
        }
    }
}

/// A whole number of metres as a height; more metres than the range holds
/// give the greatest height.
pub fn whole_metres(a: u64) -> (r: Altitude)
    ensures
        r == metres(a),
{
    let value = if a > i64::MAX as u64 {
        proof {
            assert(scale(a as int, MICRO as int, 1) == i64::MAX) by {
                crate::fixed::lemma_div_round_exact(a * MICRO, 1);
                assert(a * MICRO > i64::MAX) by (nonlinear_arith)
                    requires
                        a > i64::MAX,
                        MICRO == 1_000_000,
                ;
            }
        }
        i64::MAX
    } else {
        mul_div(a as i64, MICRO, 1)
    };
    Altitude::new(value, DistanceUnit::Meter)
}

} // verus!
