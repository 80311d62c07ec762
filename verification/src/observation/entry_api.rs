//! What a whole observation can be asked.
use vstd::prelude::*;
use std::sync::Arc;
use crate::clock::local_time;
use crate::clock::spec_local_time;
use crate::clock::LocalDateTime;
use crate::layer::Layer;
use crate::observation::dense::readings_of;
use crate::observation::dense::with_layer;
use crate::observation::dense::WxEntryStruct;
use crate::observation::layer_api::WxEntryLayer;
use crate::sky::sky_option_view;
use crate::observation::readings::text_option_view;
use crate::observation::readings::texts_option_view;
use crate::observation::readings::wx_of_codes;
use crate::observation::readings::Attributes;
use crate::observation::readings::EvaluatedEntry;
use crate::observation::readings::MslpInputs;
use crate::observation::readings::Precip;
use crate::observation::readings::Readings;
use crate::sky::SkyCoverage;
use crate::station::Station;
use crate::tokens::texts;
use crate::units::families::Altitude;
use crate::units::families::Fraction;
use crate::units::families::Pressure;
use crate::units::families::SpecEnergy;
use crate::wx::Wx;

verus! {

/// What is wrong with an observation.
#[derive(Debug, Clone, Copy, PartialEq, Eq, Structural)]
pub enum ModelError {
    /// A level that the observation lists but has no layer for.
    MissingLayer(Layer),
}

impl ModelError {
    /// The text of the error.
    pub fn message(&self) -> (r: String)
        ensures
            r@ == "Layer in layers() was not contained in layer(layer)."@,
    {
        String::from_str("Layer in layers() was not contained in layer(layer).")
    }
}

/// What a layer holds once its height above sea level is worked out.
pub open spec fn settled(r: Readings) -> Readings {
    Readings { height_msl: r.height_above_sea(), ..r }
}

/// The present weather that a list of coded groups reports.
pub fn wx_from_codes(codes: &Vec<String>) -> (r: Wx)
    ensures
        r == wx_of_codes(texts(codes@)),
{
    let mut wx = Wx::none();
    let mut i: usize = 0;
    while i < codes.len()
        invariant
            i <= codes.len(),
            wx == wx_of_codes(texts(codes@).take(i as int)),
        decreases codes.len() - i,
    {
        proof {
            assert(texts(codes@).take(i + 1).drop_last() == texts(codes@).take(i as int));
        }
        wx = wx.combine(Wx::parse_code(codes[i].as_str()));
        i += 1;
    }
    proof {
        assert(texts(codes@).take(codes.len() as int) == texts(codes@));
    }
    wx
}

/// What the layer at `tag` holds, if there is one.
pub open spec fn layer_at(table: Map<Layer, Readings>, tag: Layer) -> Option<Readings> {
    if table.contains_key(tag) {
        Some(table[tag])
    } else {
        None
    }
}

/// The first of the first `n` of `tags` for which `table` has no layer.
pub open spec fn first_missing(tags: Seq<Layer>, table: Map<Layer, Readings>, n: nat) -> Option<
    Layer,
>
    decreases n,
{
    if n == 0 {
        None
    } else {
        match first_missing(tags, table, (n - 1) as nat) {
            Some(t) => Some(t),
            None => if table.contains_key(tags[n - 1]) {
                None
            } else {
                Some(tags[n - 1])
            },
        }
    }
}

/// What the layers of the first `n` of `tags` hold, each put in at the level
/// that it names itself.
pub open spec fn gathered(tags: Seq<Layer>, table: Map<Layer, Readings>, n: nat) -> Seq<Readings>
    decreases n,
{
    if n == 0 {
        Seq::<Readings>::empty()
    } else {
        with_layer(gathered(tags, table, (n - 1) as nat), settled(table[tags[n - 1]]))
    }
}

/// Once a level is missing, reading further levels does not change which.
pub proof fn lemma_missing_stays(tags: Seq<Layer>, table: Map<Layer, Readings>, n: nat, m: nat)
    requires
        n <= m,
        first_missing(tags, table, n) is Some,
    ensures
        first_missing(tags, table, m) == first_missing(tags, table, n),
    decreases m,
{
    if n < m {
        lemma_missing_stays(tags, table, n, (m - 1) as nat);
    }
}

/// An observation. A type that stands for one says what it holds and hands
/// out its layers; the derived quantities are the same for every such type.
pub trait WxEntry<'a, L: WxEntryLayer> {
    /// Everything that the observation holds beside its layers.
    spec fn attributes(&self) -> Attributes;

    /// The levels that the observation lists.
    spec fn layer_tags(&self) -> Seq<Layer>;

    /// The layers of the observation by their level.
    spec fn layer_map(&self) -> Map<Layer, Readings>;

    /// The instant of the observation, in seconds since 1970-01-01 00:00 UTC.
    fn date_time(&self) -> (r: i64)
        ensures
            r == self.attributes().date_time,
    ;

    /// The station that the observation comes from.
    fn station(&self) -> (r: Arc<Station>)
        ensures
            *r == self.attributes().station,
    ;

    /// The layer at `layer`, if there is one.
    fn layer(&'a self, layer: Layer) -> (r: Option<L>)
        ensures
            r is Some <==> layer_at(self.layer_map(), layer) is Some,
            r matches Some(l) ==> Some(l.readings()) == layer_at(self.layer_map(), layer),
    ;

    /// The levels that the observation lists.
    fn layers(&self) -> (r: Vec<Layer>)
        ensures
            r@ == self.layer_tags(),
    ;

    /// A copy of the sky cover.
    fn skycover(&self) -> (r: Option<SkyCoverage>)
        ensures
            sky_option_view(r) == self.attributes().skycover,
    ;

    /// A copy of the coded groups of present weather.
    fn wx_codes(&self) -> (r: Option<Vec<String>>)
        ensures
            texts_option_view(r) == self.attributes().wx_codes,
    ;

    /// A copy of the raw report.
    fn raw_metar(&self) -> (r: Option<String>)
        ensures
            text_option_view(r) == self.attributes().raw_metar,
    ;

    /// The precipitation of the day so far.
    fn precip_today(&self) -> (r: Option<Precip>)
        ensures
            r == self.attributes().precip_today,
    ;

    /// The probability of precipitation.
    fn precip_probability(&self) -> (r: Option<Fraction>)
        ensures
            r == self.attributes().precip_probability,
    ;

    /// The precipitation of the observation's period.
    fn precip(&self) -> (r: Option<Precip>)
        ensures
            r == self.attributes().precip,
    ;

    /// The altimeter setting.
    fn altimeter(&self) -> (r: Option<Pressure>)
        ensures
            r == self.attributes().altimeter,
    ;

    /// The convective available potential energy.
    fn cape(&self) -> (r: Option<SpecEnergy>)
        ensures
            r == self.attributes().cape,
    ;

    /// The values of the formulas, as far as they were evaluated.
    fn evaluated(&self) -> (r: EvaluatedEntry)
        ensures
            r == self.attributes().evaluated,
    ;

    /// The present weather: what the coded groups report, taken together;
    /// absent without a list of groups.
    fn wx(&self) -> (r: Option<Wx>)
        ensures
            r == self.attributes().wx(),
    {
        match self.wx_codes() {
            Some(codes) => Some(wx_from_codes(&codes)),
            None => None,
        }
    }

    /// The station's latitude in millionths of a degree.
    fn latitude(&self) -> (r: i64)
        ensures
            r == self.attributes().station.coords.latitude,
    {
        let station = self.station();
        station.coords.latitude
    }

    /// The instant of the observation on the clocks of the station's time
    /// zone; absent where the zone's name is not known.
    fn date_time_local(&self) -> (r: Option<LocalDateTime>)
        ensures
            r == spec_local_time(
                self.attributes().station.time_zone@,
                self.attributes().date_time,
            ),
    {
        let station = self.station();
        local_time(station.time_zone.as_str(), self.date_time())
    }

    /// The best sea-level pressure there is, by rank: the pressure of the
    /// layer at sea level; the pressure of the layer near the surface,
    /// reduced; that of the layer indoors, reduced; the one that the
    /// altimeter setting implies. The first that is there is returned.
    fn best_slp(&'a self) -> (r: Option<Pressure>)
        ensures
            r == self.attributes().best_slp(
                layer_at(self.layer_map(), Layer::SeaLevel),
                layer_at(self.layer_map(), Layer::NearSurface),
                layer_at(self.layer_map(), Layer::Indoor),
            ),
    {
        let option_1 = match self.layer(Layer::SeaLevel) {
            Some(x) => x.pressure(),
            None => None,
        };
        if option_1.is_some() {
            return option_1;
        }
        let option_2 = match self.layer(Layer::NearSurface) {
            Some(x) => x.slp(),
            None => None,
        };
        if option_2.is_some() {
            return option_2;
        }
        let option_3 = match self.layer(Layer::Indoor) {
            Some(x) => x.slp(),
            None => None,
        };
        if option_3.is_some() {
            return option_3;
        }
        self.mslp_from_altimeter()
    }

    /// The layer at sea level.
    fn sealevel(&'a self) -> (r: Option<L>)
        ensures
            r is Some <==> layer_at(self.layer_map(), Layer::SeaLevel) is Some,
            r matches Some(l) ==> Some(l.readings()) == layer_at(self.layer_map(), Layer::SeaLevel),
    {
        self.layer(Layer::SeaLevel)
    }

    /// The layer near the surface.
    fn surface(&'a self) -> (r: Option<L>)
        ensures
            r is Some <==> layer_at(self.layer_map(), Layer::NearSurface) is Some,
            r matches Some(l) ==> Some(l.readings()) == layer_at(self.layer_map(), Layer::NearSurface),
    {
        self.layer(Layer::NearSurface)
    }

    /// The layer indoors.
    fn indoor(&'a self) -> (r: Option<L>)
        ensures
            r is Some <==> layer_at(self.layer_map(), Layer::Indoor) is Some,
            r matches Some(l) ==> Some(l.readings()) == layer_at(self.layer_map(), Layer::Indoor),
    {
        self.layer(Layer::Indoor)
    }

    /// The observation as a plain record: every listed level's layer as a
    /// plain record, and every value beside the layers. Fails only where a
    /// listed level has no layer, and names the first such level.
    fn to_struct(&'a self) -> (r: Result<WxEntryStruct, ModelError>)
        ensures
            match first_missing(self.layer_tags(), self.layer_map(), self.layer_tags().len()) {
                Some(t) => r == Err::<WxEntryStruct, ModelError>(ModelError::MissingLayer(t)),
                None => r matches Ok(s) && s.wf() && s.attributes() == self.attributes()
                    && readings_of(s.layers@) == gathered(
                    self.layer_tags(),
                    self.layer_map(),
                    self.layer_tags().len(),
                ),
            },
    {
        let tags = self.layers();
        self.to_struct_of(&tags)
    }

    /// The observation as a plain record that holds the layers of the levels
    /// `tags`, in that order, and every value beside the layers. Fails only
    /// where one of `tags` has no layer, and names the first such level.
    fn to_struct_of(&'a self, tags: &Vec<Layer>) -> (r: Result<WxEntryStruct, ModelError>)
        ensures
            match first_missing(tags@, self.layer_map(), tags@.len()) {
                Some(t) => r == Err::<WxEntryStruct, ModelError>(ModelError::MissingLayer(t)),
                None => r matches Ok(s) && s.wf() && s.attributes() == self.attributes()
                    && readings_of(s.layers@) == gathered(tags@, self.layer_map(), tags@.len()),
            },
    {
        let mut out = WxEntryStruct::new(self.date_time(), self.station());
        let mut i: usize = 0;
        while i < tags.len()
            invariant
                i <= tags.len(),
                out.wf(),
                first_missing(tags@, self.layer_map(), i as nat) is None,
                readings_of(out.layers@) == gathered(tags@, self.layer_map(), i as nat),
                out.date_time == self.attributes().date_time,
                *out.station == self.attributes().station,
                out.skycover is None,
                out.wx_codes is None,
                out.raw_metar is None,
                out.precip_today is None,
                out.precip_probability is None,
                out.precip is None,
                out.altimeter is None,
                out.cape is None,
            decreases tags.len() - i,
        {
            let ghost before = out.attributes();
            match self.layer(tags[i]) {
                Some(layer) => {
                    let l = layer.to_struct();
                    out.insert_layer(l);
                    proof {
                        assert(out.attributes() == before);
                    }
                },
                None => {
                    proof {
                        lemma_missing_stays(tags@, self.layer_map(), (i + 1) as nat, tags@.len());
                    }
                    return Err(ModelError::MissingLayer(tags[i]));
                },
            }
            i += 1;
        }
        out.skycover = self.skycover();
        out.wx_codes = self.wx_codes();
        out.raw_metar = self.raw_metar();
        out.precip_today = self.precip_today();
        out.precip_probability = self.precip_probability();
        out.precip = self.precip();
        out.altimeter = self.altimeter();
        out.cape = self.cape();
        out.evaluated = self.evaluated();
        Ok(out)
    }

    /// What the pressure at the station is evaluated from: the altimeter
    /// setting and the station's altitude.
    fn station_pressure_inputs(&self) -> (r: Option<(Pressure, Altitude)>)
        ensures
            r == self.attributes().station_pressure_inputs(),
    {
        match self.altimeter() {
            Some(a) => {
                let station = self.station();
                Some((a, station.altitude))
            },
            None => None,
        }
    }

    /// The pressure at the station that the altimeter setting implies: the
    /// evaluated value where there is a setting, and absent otherwise.
    fn station_pressure_from_altimeter(&self) -> (r: Option<Pressure>)
        ensures
            r == self.attributes().station_pressure_from_altimeter(),
    {
        match self.station_pressure_inputs() {
            Some(_) => self.evaluated().station_pressure,
            None => None,
        }
    }

    /// What the sea-level pressure is evaluated from where an altimeter
    /// setting is used: the setting, the station's altitude and the
    /// temperature near the surface.
    fn mslp_inputs(&'a self) -> (r: Option<MslpInputs>)
        ensures
            r == self.attributes().mslp_inputs(layer_at(self.layer_map(), Layer::NearSurface)),
    {
        let surface = match self.layer(Layer::NearSurface) {
            Some(s) => s,
            None => return None,
        };
        let altimeter = match self.altimeter() {
            Some(a) => a,
            None => return None,
        };
        match surface.temperature() {
            Some(temperature) => {
                let station = self.station();
                Some(MslpInputs { altimeter, height: station.altitude, temperature })
            },
            None => None,
        }
    }

    /// The sea-level pressure that the altimeter setting implies: the
    /// evaluated value where there are a setting and a temperature near the
    /// surface, and absent otherwise.
    fn mslp_from_altimeter(&'a self) -> (r: Option<Pressure>)
        ensures
            r == self.attributes().mslp_from_altimeter(layer_at(self.layer_map(), Layer::NearSurface)),
    {
        match self.mslp_inputs() {
            Some(_) => self.evaluated().mslp,
            None => None,
        }
    }
}

} // verus!
