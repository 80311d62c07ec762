//! The record of an observation as it comes off the wire: the shape of the
//! plain record, each part carrying its own copy of the station.
use vstd::prelude::*;
use std::sync::Arc;
use crate::layer::Layer;
use crate::observation::dense::copy_sky;
use crate::observation::dense::copy_text;
use crate::observation::dense::copy_texts;
use crate::observation::entry_api::layer_at;
use crate::observation::entry_api::WxEntry;
use crate::observation::layer_api::WxEntryLayer;
use crate::observation::projection::plain_wind;
use crate::observation::projection::WindExpanded;
use crate::sky::sky_option_view;
use crate::observation::readings::text_option_view;
use crate::observation::readings::texts_option_view;
use crate::observation::readings::Attributes;
use crate::observation::readings::Evaluated;
use crate::observation::readings::EvaluatedEntry;
use crate::observation::readings::Precip;
use crate::observation::readings::Readings;
use crate::observation::readings::Wind;
use crate::observation::table::first_index;
use crate::observation::table::lemma_first_index;
use crate::sky::SkyCoverage;
use crate::station::Station;
use crate::units::families::Altitude;
use crate::units::families::Distance;
use crate::units::families::Fraction;
use crate::units::families::Pressure;
use crate::units::families::SpecEnergy;
use crate::units::temperature::Temperature;

verus! {

/// One layer as it comes off the wire.
#[derive(Debug)]
pub struct WxStructDeserializedLayer {
    pub layer: Layer,
    pub station: Station,
    pub temperature: Option<Temperature>,
    pub pressure: Option<Pressure>,
    pub visibility: Option<Distance>,
    pub wind: Option<WindExpanded>,
    pub dewpoint: Option<Temperature>,
    /// The values of the formulas; none when the layer has just come off the
    /// wire.
    pub evaluated: Evaluated,
}

impl WxStructDeserializedLayer {
    /// Everything that the layer holds.
    pub open spec fn readings(&self) -> Readings {
        Readings {
            layer: self.layer,
            station: self.station,
            temperature: self.temperature,
            pressure: self.pressure,
            visibility: self.visibility,
            wind: plain_wind(self.wind),
            dewpoint: self.dewpoint,
            relative_humidity: None,
            height_msl: None,
            evaluated: self.evaluated,
        }
    }
}

impl WxEntryLayer for &WxStructDeserializedLayer {
    open spec fn readings(&self) -> Readings {
        (**self).readings()
    }

    fn layer(&self) -> (r: Layer) {
        self.layer
    }

    fn station(&self) -> (r: Arc<Station>) {
        Arc::new(self.station.clone())
    }

    fn temperature(&self) -> (r: Option<Temperature>) {
        self.temperature
    }

    fn pressure(&self) -> (r: Option<Pressure>) {
        self.pressure
    }

    fn visibility(&self) -> (r: Option<Distance>) {
        self.visibility
    }

    fn wind(&self) -> (r: Option<Wind>) {
        match self.wind {
            Some(w) => Some(Wind { direction: w.direction.direction, speed: w.speed }),
            None => None,
        }
    }

    fn reported_dewpoint(&self) -> (r: Option<Temperature>) {
        self.dewpoint
    }

    fn reported_relative_humidity(&self) -> (r: Option<Fraction>) {
        None
    }

    fn reported_height_msl(&self) -> (r: Option<Altitude>) {
        None
    }

    fn evaluated(&self) -> (r: Evaluated) {
        self.evaluated
    }
}

/// An observation as it comes off the wire. Each layer stands under the
/// level that it was filed under; of two layers under one level the first
/// counts.
#[derive(Debug)]
pub struct WxStructDeserialized {
    /// The instant of the observation, in seconds since 1970-01-01 00:00 UTC.
    pub date_time: i64,
    pub station: Station,
    pub layers: Vec<(Layer, WxStructDeserializedLayer)>,
    pub skycover: Option<SkyCoverage>,
    pub wx_codes: Option<Vec<String>>,
    pub raw_metar: Option<String>,
    pub precip_today: Option<Precip>,
    pub precip: Option<Precip>,
    pub altimeter: Option<Pressure>,
    pub cape: Option<SpecEnergy>,
    /// The values of the formulas; none when the record has just come off
    /// the wire.
    pub evaluated: EvaluatedEntry,
}

/// The levels that some layers are filed under, in order.
pub open spec fn filed_under(layers: Seq<(Layer, WxStructDeserializedLayer)>) -> Seq<Layer> {
    layers.map_values(|l: (Layer, WxStructDeserializedLayer)| l.0)
}

impl WxStructDeserialized {
    /// Everything that the record holds beside its layers.
    pub open spec fn attributes(&self) -> Attributes {
        Attributes {
            date_time: self.date_time,
            station: self.station,
            skycover: sky_option_view(self.skycover),
            wx_codes: texts_option_view(self.wx_codes),
            raw_metar: text_option_view(self.raw_metar),
            precip_today: self.precip_today,
            precip_probability: None,
            precip: self.precip,
            altimeter: self.altimeter,
            cape: self.cape,
            evaluated: self.evaluated,
        }
    }

    /// The layers of the record by the level that they are filed under.
    pub open spec fn layer_map(&self) -> Map<Layer, Readings> {
        Map::new(
            |tag: Layer| first_index(filed_under(self.layers@), tag) is Some,
            |tag: Layer| self.layers@[first_index(filed_under(self.layers@), tag)->0].1.readings(),
        )
    }

    /// The layer filed under `tag`, if there is one.
    pub fn find_layer(&self, tag: Layer) -> (r: Option<&WxStructDeserializedLayer>)
        ensures
            r is Some <==> layer_at(self.layer_map(), tag) is Some,
            r matches Some(l) ==> Some(l.readings()) == layer_at(self.layer_map(), tag),
    {
        let ghost tags = filed_under(self.layers@);
        let mut i: usize = 0;
        while i < self.layers.len()
            invariant
                i <= self.layers@.len(),
                tags == filed_under(self.layers@),
                forall|j: int| 0 <= j < i ==> tags[j] != tag,
            decreases self.layers@.len() - i,
        {
            if self.layers[i].0 == tag {
                proof {
                    lemma_first_index(tags, tag);
                    assert(tags[i as int] == tag);
                }
                return Some(&self.layers[i].1);
            }
            i += 1;
        }
        proof {
            lemma_first_index(tags, tag);
        }
        None
    }
}

impl<'a> WxEntry<'a, &'a WxStructDeserializedLayer> for WxStructDeserialized {
    open spec fn attributes(&self) -> Attributes {
        WxStructDeserialized::attributes(self)
    }

    open spec fn layer_tags(&self) -> Seq<Layer> {
        filed_under(self.layers@)
    }

    open spec fn layer_map(&self) -> Map<Layer, Readings> {
        WxStructDeserialized::layer_map(self)
    }

    fn date_time(&self) -> (r: i64) {
        self.date_time
    }

    fn station(&self) -> (r: Arc<Station>) {
        Arc::new(self.station.clone())
    }

    fn layer(&'a self, layer: Layer) -> (r: Option<&'a WxStructDeserializedLayer>) {
        self.find_layer(layer)
    }

    fn layers(&self) -> (r: Vec<Layer>) {
        let mut out: Vec<Layer> = Vec::new();
        let mut i: usize = 0;
        while i < self.layers.len()
            invariant
                i <= self.layers@.len(),
                out@ == filed_under(self.layers@).take(i as int),
            decreases self.layers@.len() - i,
        {
            out.push(self.layers[i].0);
            proof {
                assert(out@ =~= filed_under(self.layers@).take(i + 1));
            }
            i += 1;
        }
        proof {
            assert(filed_under(self.layers@).take(self.layers@.len() as int) == filed_under(
                self.layers@,
            ));
        }
        out
    }

    fn skycover(&self) -> (r: Option<SkyCoverage>) {
        copy_sky(&self.skycover)
    }

    fn wx_codes(&self) -> (r: Option<Vec<String>>) {
        copy_texts(&self.wx_codes)
    }

    fn raw_metar(&self) -> (r: Option<String>) {
        copy_text(&self.raw_metar)
    }

    fn precip_today(&self) -> (r: Option<Precip>) {
        self.precip_today
    }

    fn precip_probability(&self) -> (r: Option<Fraction>) {
        None
    }

    fn precip(&self) -> (r: Option<Precip>) {
        self.precip
    }

    fn altimeter(&self) -> (r: Option<Pressure>) {
        self.altimeter
    }

    fn cape(&self) -> (r: Option<SpecEnergy>) {
        self.cape
    }

    fn evaluated(&self) -> (r: EvaluatedEntry) {
        self.evaluated
    }
}

} // verus!
