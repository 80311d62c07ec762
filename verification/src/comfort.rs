//! A comfort index from 0 to 10: how pleasant the weather of an observation
//! is to be out in, and what spoils it most.
use vstd::prelude::*;
use crate::layer::Layer;
use crate::observation::dense::WxEntryStruct;
use crate::observation::entry_api::layer_at;
use crate::observation::entry_api::WxEntry;
use crate::observation::layer_api::WxEntryLayer;
use crate::observation::readings::Attributes;
use crate::observation::readings::Readings;
use crate::sky::SkyView;
use crate::sky::most_oktas;
use crate::units::families::FractionalUnit;
use crate::units::temperature::TemperatureUnit;
use crate::wx::Intensity;
use crate::wx::Wx;

verus! {

/// What a sub-score was made from.
#[derive(Debug, Clone, Copy, PartialEq, Eq, Structural)]
pub enum Factor {
    Temperature,
    CloudCover,
    Rain,
    HeatIndex,
    WindChill,
    Humidity,
    DryAir,
}

impl Factor {
    /// The name of the factor.
    pub open spec fn spec_name(&self) -> Seq<char> {
        match self {
            Factor::Temperature => "Temperature"@,
            Factor::CloudCover => "Cloud Cover"@,
            Factor::Rain => "Rain"@,
            Factor::HeatIndex => "Heat Index"@,
            Factor::WindChill => "Wind Chill"@,
            Factor::Humidity => "Humidity"@,
            Factor::DryAir => "Dry Air"@,
        }
    }

    /// The name of the factor, as in `Cloud Cover`.
    pub fn name(&self) -> (r: &'static str)
        ensures
            r@ == self.spec_name(),
    {
        match self {
            Factor::Temperature => "Temperature",
            Factor::CloudCover => "Cloud Cover",
            Factor::Rain => "Rain",
            Factor::HeatIndex => "Heat Index",
            Factor::WindChill => "Wind Chill",
            Factor::Humidity => "Humidity",
            Factor::DryAir => "Dry Air",
        }
    }
}

/// Sub-scores by temperature in millionths of a degree Fahrenheit: each
/// entry holds for values from its threshold upwards.
pub const TEMPERATURE_FACTORS: [(i64, u8); 14] = [
    (105_000_000, 0),
    (95_000_000, 2),
    (90_000_000, 4),
    (85_000_000, 5),
    (77_000_000, 8),
    (65_000_000, 10),
    (55_000_000, 9),
    (45_000_000, 7),
    (38_000_000, 4),
    (35_000_000, 3),
    (27_000_000, 4),
    (20_000_000, 2),
    (10_000_000, 1),
    (i64::MIN, 0),
];

/// Sub-scores by cloud cover at night, in millionths of an eighth.
pub const CLOUD_COVER_NIGHT_FACTORS: [(i64, u8); 4] = [
    (7_000_000, 8),
    (5_000_000, 9),
    (1_000_000, 10),
    (i64::MIN, 10),
];

/// Sub-scores by cloud cover by day, in millionths of an eighth. A sky
/// without any cloud scores 10.
pub const CLOUD_COVER_DAY_FACTORS: [(i64, u8); 4] = [
    (7_000_000, 8),
    (5_000_000, 9),
    (1_000_000, 10),
    (i64::MIN, 10),
];

/// Sub-scores by heat index in millionths of a degree Fahrenheit.
pub const HEAT_INDEX_FACTORS: [(i64, u8); 6] = [
    (105_000_000, 0),
    (100_000_000, 1),
    (95_000_000, 3),
    (85_000_000, 5),
    (80_000_000, 8),
    (i64::MIN, 10),
];

/// Sub-scores by wind chill in millionths of a degree Fahrenheit.
pub const WIND_CHILL_FACTORS: [(i64, u8); 8] = [
    (65_000_000, 10),
    (45_000_000, 8),
    (35_000_000, 5),
    (27_000_000, 4),
    (22_000_000, 3),
    (15_000_000, 2),
    (5_000_000, 1),
    (i64::MIN, 0),
];

/// Sub-scores by relative humidity in millionths of a percent.
pub const RELATIVE_HUMIDITY_FACTORS: [(i64, u8); 3] = [
    (20_000_000, 10),
    (10_000_000, 5),
    (0, 2),
];

/// Sub-scores by dewpoint in millionths of a degree Fahrenheit.
pub const DEWPOINT_FACTORS: [(i64, u8); 6] = [
    (75_000_000, 2),
    (70_000_000, 5),
    (65_000_000, 8),
    (20_000_000, 10),
    (0, 8),
    (i64::MIN, 3),
];

/// The score of the first entry of `table` whose threshold `value` reaches;
/// the score of the last entry where it reaches none.
pub open spec fn table_score(value: int, table: Seq<(i64, u8)>) -> u8
    decreases table.len(),
{
    if table.len() == 0 {
        0
    } else if value >= table[0].0 || table.len() == 1 {
        table[0].1
    } else {
        table_score(value, table.drop_first())
    }
}

/// Looks `value` up in `table`: the score of the first entry whose threshold
/// is not above `value`, and the score of the last entry where every
/// threshold is above it.
pub fn get_from_table(value: i64, table: &[(i64, u8)]) -> (r: u8)
    requires
        table@.len() > 0,
    ensures
        r == table_score(value as int, table@),
{
    let mut i: usize = 0;
    proof {
        assert(table@.skip(0) =~= table@);
    }
    while i < table.len()
        invariant
            i < table@.len(),
            table_score(value as int, table@) == table_score(value as int, table@.skip(i as int)),
        decreases table@.len() - i,
    {
        let entry = table[i];
        proof {
            assert(table@.skip(i as int)[0] == table@[i as int]);
            assert(table@.skip(i as int).drop_first() =~= table@.skip(i + 1));
        }
        if value >= entry.0 || i + 1 == table.len() {
            return entry.1;
        }
        i += 1;
    }
    0
}

/// The sub-score of rain: 0 for freezing rain that is more than nearby; else
/// 9 in fog; else by the intensity of the rain.
pub open spec fn rain_score(w: Wx) -> u8 {
    if w.freezing && !(w.rain == Intensity::Absent || w.rain == Intensity::Nearby) {
        0
    } else if w.fog {
        9
    } else {
        match w.rain {
            Intensity::Absent => 10,
            Intensity::Nearby => 10,
            Intensity::VeryLight => 7,
            Intensity::Light => 6,
            Intensity::Medium => 4,
            Intensity::Heavy => 5,
        }
    }
}

/// What a thunderstorm adds: 5.
pub open spec fn lightning_modifier(w: Wx) -> u8 {
    if w.thunderstorm {
        5
    } else {
        0
    }
}

/// What snow adds: nothing where it is absent or nearby; else 10 with a
/// thunderstorm or with squalls; else 1, 2, 3 or 5 by its intensity.
pub open spec fn snow_modifier(w: Wx) -> u8 {
    if w.snow == Intensity::Absent || w.snow == Intensity::Nearby {
        0
    } else if w.thunderstorm || w.squalls {
        10
    } else {
        match w.snow {
            Intensity::VeryLight => 1,
            Intensity::Light => 2,
            Intensity::Medium => 3,
            Intensity::Heavy => 5,
            _ => 0,
        }
    }
}

/// What a funnel cloud adds, whatever its intensity: 10.
pub open spec fn tornado_modifier(w: Wx) -> u8 {
    if w.funnel_cloud == Intensity::Absent {
        0
    } else {
        10
    }
}

/// The sum of the three modifiers; nothing without present weather.
pub open spec fn modifiers(wx: Option<Wx>) -> int {
    match wx {
        Some(w) => lightning_modifier(w) + snow_modifier(w) + tornado_modifier(w),
        None => 0,
    }
}

/// The seven sub-scores of an observation, in the order in which ties are
/// broken. A signal that is absent has no sub-score.
pub open spec fn sub_scores(a: Attributes, surface: Option<Readings>) -> Seq<
    (Option<u8>, Factor),
> {
    let temp = match surface {
        Some(s) => match s.temperature {
            Some(t) => Some(
                table_score(t.spec_value_in(TemperatureUnit::Fahrenheit), TEMPERATURE_FACTORS@),
            ),
            None => None,
        },
        None => None,
    };
    let cloud = match a.skycover {
        Some(SkyView::Clear) => Some(table_score(0, CLOUD_COVER_DAY_FACTORS@)),
        Some(SkyView::Cloudy(v)) => Some(
            table_score(most_oktas(v) * 1_000_000, CLOUD_COVER_DAY_FACTORS@),
        ),
        None => None,
    };
    let heat_index = match surface {
        Some(s) => match s.heat_index() {
            Some(t) => Some(
                table_score(t.spec_value_in(TemperatureUnit::Fahrenheit), HEAT_INDEX_FACTORS@),
            ),
            None => None,
        },
        None => None,
    };
    let wind_chill = match surface {
        Some(s) => match s.wind_chill() {
            Some(t) => Some(
                table_score(t.spec_value_in(TemperatureUnit::Fahrenheit), WIND_CHILL_FACTORS@),
            ),
            None => None,
        },
        None => None,
    };
    let rain = match a.wx() {
        Some(w) => Some(rain_score(w)),
        None => None,
    };
    let rh = match surface {
        Some(s) => match s.best_relative_humidity() {
            Some(x) => Some(
                table_score(x.spec_value_in(FractionalUnit::Percent), RELATIVE_HUMIDITY_FACTORS@),
            ),
            None => None,
        },
        None => None,
    };
    let dew_point = match surface {
        Some(s) => match s.best_dewpoint() {
            Some(t) => Some(
                table_score(t.spec_value_in(TemperatureUnit::Fahrenheit), DEWPOINT_FACTORS@),
            ),
            None => None,
        },
        None => None,
    };
    seq![
        (temp, Factor::Temperature),
        (cloud, Factor::CloudCover),
        (heat_index, Factor::HeatIndex),
        (wind_chill, Factor::WindChill),
        (rain, Factor::Rain),
        (rh, Factor::DryAir),
        (dew_point, Factor::Humidity),
    ]
}

/// The least of the sub-scores that are there, with its factor; of two equal
/// ones the earlier. Nothing where no sub-score is there.
pub open spec fn worst(scores: Seq<(Option<u8>, Factor)>) -> Option<(u8, Factor)>
    decreases scores.len(),
{
    if scores.len() == 0 {
        None
    } else {
        let before = worst(scores.drop_last());
        match (before, scores.last().0) {
            (Some(b), Some(x)) => if x < b.0 {
                Some((x, scores.last().1))
            } else {
                Some(b)
            },
            (Some(b), None) => Some(b),
            (None, Some(x)) => Some((x, scores.last().1)),
            (None, None) => None,
        }
    }
}

/// The comfort index of an observation: the least sub-score plus the
/// modifiers, but no more than 10; with the factor of that sub-score.
pub open spec fn spec_comfort_index(a: Attributes, surface: Option<Readings>) -> Option<
    (u8, Factor),
> {
    match worst(sub_scores(a, surface)) {
        Some((score, factor)) => {
            let sum = score + modifiers(a.wx());
            Some(
                (
                    if sum > 10 {
                        10u8
                    } else {
                        sum as u8
                    },
                    factor,
                ),
            )
        },
        None => None,
    }
}

/// [`worst`] is one of the sub-scores that are there, and none that is there
/// is less.
pub proof fn lemma_worst(scores: Seq<(Option<u8>, Factor)>)
    ensures
        match worst(scores) {
            Some(w) => (exists|i: int|
                0 <= i < scores.len() && #[trigger] scores[i] == (Some(w.0), w.1)) && forall|
                i: int,
            |
                0 <= i < scores.len() && (#[trigger] scores[i]).0 is Some ==> w.0 <= scores[i].0->0,
            None => forall|i: int| 0 <= i < scores.len() ==> (#[trigger] scores[i]).0 is None,
        },
    decreases scores.len(),
{
    if scores.len() > 0 {
        let front = scores.drop_last();
        lemma_worst(front);
        assert forall|i: int| 0 <= i < front.len() implies front[i] == scores[i] by {}
        match worst(front) {
            Some(b) => {
                let k = choose|k: int| 0 <= k < front.len() && #[trigger] front[k] == (Some(b.0), b.1);
                assert(scores[k] == (Some(b.0), b.1));
                assert(scores[scores.len() - 1] == scores.last());
            },
            None => {
                assert(scores[scores.len() - 1] == scores.last());
            },
        }
    }
}

/// The sub-score of rain.
pub fn rain_factor(w: &Wx) -> (r: u8)
    ensures
        r == rain_score(*w),
        r <= 10,
{
    if w.freezing && !matches!(w.rain, Intensity::Absent | Intensity::Nearby) {
        return 0;
    }
    if w.fog {
        return 9;
    }
    match w.rain {
        Intensity::Absent | Intensity::Nearby => 10,
        Intensity::VeryLight => 7,
        Intensity::Light => 6,
        Intensity::Medium => 4,
        Intensity::Heavy => 5,
    }
}

/// What snow adds to the index.
pub fn snow_factor(w: &Wx) -> (r: u8)
    ensures
        r == snow_modifier(*w),
        r <= 10,
{
    if matches!(w.snow, Intensity::Absent | Intensity::Nearby) {
        return 0;
    }
    if w.thunderstorm || w.squalls {
        return 10;
    }
    match w.snow {
        Intensity::VeryLight => 1,
        Intensity::Light => 2,
        Intensity::Medium => 3,
        Intensity::Heavy => 5,
        Intensity::Absent | Intensity::Nearby => 0,
    }
}

/// The least of the sub-scores that are there, with its factor.
pub fn worst_factor(factors: &[(Option<u8>, Factor)]) -> (r: Option<(u8, Factor)>)
    ensures
        r == worst(factors@),
{
    let mut best: Option<(u8, Factor)> = None;
    let mut i: usize = 0;
    while i < factors.len()
        invariant
            i <= factors@.len(),
            best == worst(factors@.take(i as int)),
        decreases factors@.len() - i,
    {
        proof {
            assert(factors@.take(i + 1).drop_last() == factors@.take(i as int));
        }
        let entry = factors[i];
        match (best, entry.0) {
            (Some(b), Some(x)) => {
                if x < b.0 {
                    best = Some((x, entry.1));
                }
            },
            (None, Some(x)) => {
                best = Some((x, entry.1));
            },
            _ => {},
        }
        i += 1;
    }
    proof {
        assert(factors@.take(factors@.len() as int) == factors@);
    }
    best
}

/// The comfort index of an observation and the factor that limits it.
///
/// Seven signals give a sub-score from 0 to 10 each, 10 being ideal: the
/// temperature, the cloud cover, the heat index, the wind chill, rain, dry
/// air (by relative humidity) and humidity (by dewpoint), all but cloud cover
/// and rain read from the layer near the surface. A signal that is absent
/// takes no part. The least sub-score is the score, and its signal the
/// limiting factor; of equal ones the first in the order just given.
/// To the score are added 5 for a thunderstorm, up to 10 for snow, and 10 for
/// a funnel cloud, and the sum is cut off at 10. There is no index where no
/// signal is there.
pub fn comfort_index(wx: WxEntryStruct) -> (r: Option<(u8, Factor)>)
    ensures
        r == spec_comfort_index(wx.attributes(), layer_at(wx.layer_map(), Layer::NearSurface)),
        r matches Some((score, _)) ==> score <= 10,
{
    let surface = wx.surface();
    let weather = wx.wx();

    let temp = match surface {
        Some(x) => match x.temperature() {
            Some(t) => Some(
                get_from_table(
                    t.value_in(TemperatureUnit::Fahrenheit),
                    TEMPERATURE_FACTORS.as_slice(),
                ),
            ),
            None => None,
        },
        None => None,
    };

    let cloud = match &wx.skycover {
        Some(x) => {
            let oktas = x.oktas();
            Some(get_from_table(oktas as i64 * 1_000_000, CLOUD_COVER_DAY_FACTORS.as_slice()))
        },
        None => None,
    };

    let rain = match &weather {
        Some(w) => Some(rain_factor(w)),
        None => None,
    };

    let lightning_modifier: u8 = match &weather {
        Some(w) => if w.thunderstorm {
            5
        } else {
            0
        },
        None => 0,
    };

    let snow_modifier: u8 = match &weather {
        Some(w) => snow_factor(w),
        None => 0,
    };

    let tornado_modifier: u8 = match &weather {
        Some(w) => if w.funnel_cloud.is_none() {
            0
        } else {
            10
        },
        None => 0,
    };

    let heat_index = match surface {
        Some(x) => match x.heat_index() {
            Some(t) => Some(
                get_from_table(
                    t.value_in(TemperatureUnit::Fahrenheit),
                    HEAT_INDEX_FACTORS.as_slice(),
                ),
            ),
            None => None,
        },
        None => None,
    };

    let wind_chill = match surface {
        Some(x) => match x.wind_chill() {
            Some(t) => Some(
                get_from_table(
                    t.value_in(TemperatureUnit::Fahrenheit),
                    WIND_CHILL_FACTORS.as_slice(),
                ),
            ),
            None => None,
        },
        None => None,
    };

    let rh = match surface {
        Some(x) => match x.relative_humidity() {
            Some(h) => Some(
                get_from_table(
                    h.value_in(FractionalUnit::Percent),
                    RELATIVE_HUMIDITY_FACTORS.as_slice(),
                ),
            ),
            None => None,
        },
        None => None,
    };

    let dew_point = match surface {
        Some(x) => match x.dewpoint() {
            Some(t) => Some(
                get_from_table(t.value_in(TemperatureUnit::Fahrenheit), DEWPOINT_FACTORS.as_slice()),
            ),
            None => None,
        },
        None => None,
    };

    let factors = [
        (temp, Factor::Temperature),
        (cloud, Factor::CloudCover),
        (heat_index, Factor::HeatIndex),
        (wind_chill, Factor::WindChill),
        (rain, Factor::Rain),
        (rh, Factor::DryAir),
        (dew_point, Factor::Humidity),
    ];
    proof {
        assert(factors@ =~= sub_scores(
            wx.attributes(),
            layer_at(wx.layer_map(), Layer::NearSurface),
        ));
    }

    match worst_factor(factors.as_slice()) {
        Some((index, worst_factor)) => {
            proof {
                lemma_worst(factors@);
            }
            let sum: u16 = index as u16 + lightning_modifier as u16 + snow_modifier as u16
                + tornado_modifier as u16;
            let index: u8 = if sum > 10 {
                10
            } else {
                sum as u8
            };
            Some((index, worst_factor))
        },
        None => None,
    }
}

} // verus!
