//! The plain record of an observation: one slot for every value.
use vstd::prelude::*;
use std::sync::Arc;
use crate::layer::Layer;
use crate::observation::entry_api::WxEntry;
use crate::observation::layer_api::WxEntryLayer;
use crate::observation::table::distinct;
use crate::observation::table::first_index;
use crate::observation::table::lemma_first_index;
use crate::sky::sky_option_view;
use crate::observation::readings::text_option_view;
use crate::observation::readings::texts_option_view;
use crate::observation::readings::Attributes;
use crate::observation::readings::Evaluated;
use crate::observation::readings::EvaluatedEntry;
use crate::observation::readings::Precip;
use crate::observation::readings::Readings;
use crate::observation::readings::Wind;
use crate::sky::SkyCoverage;
use crate::station::share;
use crate::station::Station;
use crate::tokens::texts;
use crate::units::families::Altitude;
use crate::units::families::Distance;
use crate::units::families::Fraction;
use crate::units::families::Pressure;
use crate::units::families::SpecEnergy;
use crate::units::temperature::Temperature;

verus! {

/// One layer as a plain record.
#[derive(Debug)]
pub struct WxEntryLayerStruct {
    pub layer: Layer,
    pub station: Arc<Station>,
    pub temperature: Option<Temperature>,
    pub pressure: Option<Pressure>,
    pub visibility: Option<Distance>,
    pub wind: Option<Wind>,
    pub dewpoint: Option<Temperature>,
    pub relative_humidity: Option<Fraction>,
    pub height_msl: Option<Altitude>,
    pub evaluated: Evaluated,
}

impl WxEntryLayerStruct {
    /// Everything that the record holds.
    pub open spec fn readings(&self) -> Readings {
        Readings {
            layer: self.layer,
            station: *self.station,
            temperature: self.temperature,
            pressure: self.pressure,
            visibility: self.visibility,
            wind: self.wind,
            dewpoint: self.dewpoint,
            relative_humidity: self.relative_humidity,
            height_msl: self.height_msl,
            evaluated: self.evaluated,
        }
    }

    /// A layer of `station` at `layer` that holds nothing yet.
    pub fn new(layer: Layer, station: Arc<Station>) -> (r: Self)
        ensures
            r.layer == layer,
            r.station == station,
            r.temperature is None,
            r.pressure is None,
            r.visibility is None,
            r.wind is None,
            r.dewpoint is None,
            r.relative_humidity is None,
            r.height_msl is None,
            r.evaluated == Evaluated::spec_none(),
    {
        WxEntryLayerStruct {
            layer,
            station,
            temperature: None,
            pressure: None,
            visibility: None,
            wind: None,
            dewpoint: None,
            relative_humidity: None,
            height_msl: None,
            evaluated: Evaluated::none(),
        }
    }
}

impl Clone for WxEntryLayerStruct {
    fn clone(&self) -> (r: Self)
        ensures
            r == *self,
    {
        WxEntryLayerStruct {
            layer: self.layer,
            station: share(&self.station),
            temperature: self.temperature,
            pressure: self.pressure,
            visibility: self.visibility,
            wind: self.wind,
            dewpoint: self.dewpoint,
            relative_humidity: self.relative_humidity,
            height_msl: self.height_msl,
            evaluated: self.evaluated,
        }
    }
}

impl WxEntryLayer for &WxEntryLayerStruct {
    open spec fn readings(&self) -> Readings {
        (**self).readings()
    }

    fn layer(&self) -> (r: Layer) {
        self.layer
    }

    fn station(&self) -> (r: Arc<Station>) {
        share(&self.station)
    }

    fn temperature(&self) -> (r: Option<Temperature>) {
        self.temperature
    }

    fn pressure(&self) -> (r: Option<Pressure>) {
        self.pressure
    }

    fn visibility(&self) -> (r: Option<Distance>) {
        self.visibility
    }

    fn wind(&self) -> (r: Option<Wind>) {
        self.wind
    }

    fn reported_dewpoint(&self) -> (r: Option<Temperature>) {
        self.dewpoint
    }

    fn reported_relative_humidity(&self) -> (r: Option<Fraction>) {
        self.relative_humidity
    }

    fn reported_height_msl(&self) -> (r: Option<Altitude>) {
        self.height_msl
    }

    fn evaluated(&self) -> (r: Evaluated) {
        self.evaluated
    }
}

/// The levels of some layers, in order.
pub open spec fn tags_of(layers: Seq<WxEntryLayerStruct>) -> Seq<Layer> {
    layers.map_values(|l: WxEntryLayerStruct| l.layer)
}

/// What some layers hold, in order.
pub open spec fn readings_of(layers: Seq<WxEntryLayerStruct>) -> Seq<Readings> {
    layers.map_values(|l: WxEntryLayerStruct| l.readings())
}

/// The levels of some readings, in order.
pub open spec fn levels_of(readings: Seq<Readings>) -> Seq<Layer> {
    readings.map_values(|r: Readings| r.layer)
}

/// `readings` with `new` at the place of the layer of the same level, or at
/// the end where there is none.
pub open spec fn with_layer(readings: Seq<Readings>, new: Readings) -> Seq<Readings> {
    match first_index(levels_of(readings), new.layer) {
        Some(i) => readings.update(i, new),
        None => readings.push(new),
    }
}

/// Putting a layer in leaves every level where it was, and no level twice.
pub proof fn lemma_with_layer_distinct(readings: Seq<Readings>, new: Readings)
    requires
        distinct(levels_of(readings)),
    ensures
        distinct(levels_of(with_layer(readings, new))),
        first_index(levels_of(with_layer(readings, new)), new.layer) is Some,
        with_layer(readings, new)[first_index(
            levels_of(with_layer(readings, new)),
            new.layer,
        )->0] == new,
{
    let tags = levels_of(readings);
    let after = levels_of(with_layer(readings, new));
    lemma_first_index(tags, new.layer);
    lemma_first_index(after, new.layer);
    match first_index(tags, new.layer) {
        Some(i) => {
            assert(after =~= tags);
            assert(with_layer(readings, new)[i] == new);
        },
        None => {
            assert(after =~= tags.push(new.layer));
            assert(after[tags.len() as int] == new.layer);
        },
    }
}

/// An observation as a plain record. The layers are kept in the order in
/// which their levels were first put in; no level occurs twice.
#[derive(Debug)]
pub struct WxEntryStruct {
    /// The instant of the observation, in seconds since 1970-01-01 00:00 UTC.
    pub date_time: i64,
    pub station: Arc<Station>,
    pub layers: Vec<WxEntryLayerStruct>,
    pub skycover: Option<SkyCoverage>,
    pub wx_codes: Option<Vec<String>>,
    pub raw_metar: Option<String>,
    pub precip_today: Option<Precip>,
    pub precip_probability: Option<Fraction>,
    pub precip: Option<Precip>,
    pub altimeter: Option<Pressure>,
    pub cape: Option<SpecEnergy>,
    pub evaluated: EvaluatedEntry,
}

impl WxEntryStruct {
    /// Everything that the record holds beside its layers.
    pub open spec fn attributes(&self) -> Attributes {
        Attributes {
            date_time: self.date_time,
            station: *self.station,
            skycover: sky_option_view(self.skycover),
            wx_codes: texts_option_view(self.wx_codes),
            raw_metar: text_option_view(self.raw_metar),
            precip_today: self.precip_today,
            precip_probability: self.precip_probability,
            precip: self.precip,
            altimeter: self.altimeter,
            cape: self.cape,
            evaluated: self.evaluated,
        }
    }

    /// The levels of the record's layers, in order.
    pub open spec fn layer_tags(&self) -> Seq<Layer> {
        tags_of(self.layers@)
    }

    /// What the layer at `tag` holds, if there is one.
    pub open spec fn layer_readings(&self, tag: Layer) -> Option<Readings> {
        match first_index(self.layer_tags(), tag) {
            Some(i) => Some(self.layers@[i].readings()),
            None => None,
        }
    }

    /// No level occurs twice among the layers.
    pub open spec fn wf(&self) -> bool {
        distinct(self.layer_tags())
    }

    /// An observation of `station` at `date_time` that holds nothing yet.
    pub fn new(date_time: i64, station: Arc<Station>) -> (r: Self)
        ensures
            r.wf(),
            r.layers@.len() == 0,
            r.date_time == date_time,
            r.station == station,
            r.skycover is None,
            r.wx_codes is None,
            r.raw_metar is None,
            r.precip_today is None,
            r.precip_probability is None,
            r.precip is None,
            r.altimeter is None,
            r.cape is None,
            r.evaluated == EvaluatedEntry::spec_none(),
    {
        WxEntryStruct {
            date_time,
            station,
            layers: Vec::new(),
            skycover: None,
            wx_codes: None,
            raw_metar: None,
            precip_today: None,
            precip_probability: None,
            precip: None,
            altimeter: None,
            cape: None,
            evaluated: EvaluatedEntry::none(),
        }
    }

    /// Where the layer at `tag` stands among the layers.
    pub fn position(&self, tag: Layer) -> (r: Option<usize>)
        ensures
            r is Some <==> first_index(self.layer_tags(), tag) is Some,
            r matches Some(i) ==> first_index(self.layer_tags(), tag) == Some(i as int) && i
                < self.layers@.len(),
    {
        let mut i: usize = 0;
        while i < self.layers.len()
            invariant
                i <= self.layers@.len(),
                first_index(self.layer_tags().take(i as int), tag) is None,
            decreases self.layers@.len() - i,
        {
            proof {
                assert(self.layer_tags().take(i + 1).drop_last() == self.layer_tags().take(
                    i as int,
                ));
                lemma_first_index(self.layer_tags(), tag);
                lemma_first_index(self.layer_tags().take(i as int), tag);
            }
            if self.layers[i].layer == tag {
                proof {
                    assert(self.layer_tags()[i as int] == tag);
                    assert forall|j: int| 0 <= j < i implies self.layer_tags()[j] != tag by {
                        assert(self.layer_tags().take(i as int)[j] == self.layer_tags()[j]);
                    }
                }
                return Some(i);
            }
            i += 1;
        }
        proof {
            assert(self.layer_tags().take(self.layers@.len() as int) == self.layer_tags());
        }
        None
    }

    /// The layer at `tag`, if there is one.
    pub fn find_layer(&self, tag: Layer) -> (r: Option<&WxEntryLayerStruct>)
        ensures
            r is Some <==> self.layer_readings(tag) is Some,
            r matches Some(l) ==> Some(l.readings()) == self.layer_readings(tag) && l.layer == tag
                && first_index(self.layer_tags(), tag) is Some && *l == self.layers@[first_index(
                self.layer_tags(),
                tag,
            )->0],
    {
        match self.position(tag) {
            Some(i) => {
                proof {
                    lemma_first_index(self.layer_tags(), tag);
                }
                Some(&self.layers[i])
            },
            None => None,
        }
    }

    /// Puts `layer` in: in place of the layer of the same level where there
    /// is one, and else after the last.
    pub fn insert_layer(&mut self, layer: WxEntryLayerStruct)
        ensures
            old(self).wf() ==> final(self).wf(),
            final(self).layers@ == (match first_index(old(self).layer_tags(), layer.layer) {
                Some(i) => old(self).layers@.update(i, layer),
                None => old(self).layers@.push(layer),
            }),
            readings_of(final(self).layers@) == with_layer(
                readings_of(old(self).layers@),
                layer.readings(),
            ),
            final(self).layer_readings(layer.layer) == Some(layer.readings()),
            final(self).attributes() == old(self).attributes(),
            forall|tag: Layer|
                tag != layer.layer ==> final(self).layer_readings(tag) == old(self).layer_readings(
                    tag,
                ),
    {
        let ghost before = readings_of(self.layers@);
        let ghost new = layer.readings();
        let ghost tag0 = layer.layer;
        proof {
            assert(levels_of(before) =~= self.layer_tags());
            if self.wf() {
                lemma_with_layer_distinct(before, new);
            }
            lemma_first_index(self.layer_tags(), tag0);
        }
        match self.position(layer.layer) {
            Some(i) => {
                self.layers.set(i, layer);
            },
            None => {
                self.layers.push(layer);
            },
        }
        proof {
            assert(readings_of(self.layers@) =~= with_layer(before, new));
            assert(levels_of(readings_of(self.layers@)) =~= self.layer_tags());
            lemma_first_index(self.layer_tags(), tag0);
            let tags = old(self).layer_tags();
            if first_index(tags, tag0) is Some {
                assert(self.layer_tags() =~= tags);
            } else {
                assert(self.layer_tags() =~= tags.push(tag0));
                assert(self.layer_tags().drop_last() =~= tags);
            }
            assert forall|tag: Layer| tag != tag0 implies self.layer_readings(tag) == old(
                self,
            ).layer_readings(tag) by {
                lemma_first_index(tags, tag);
                match first_index(tags, tag) {
                    Some(k) => {
                        assert(tags[k] == tag);
                        assert(self.layers@[k] == old(self).layers@[k]);
                    },
                    None => {},
                }
            }
        }
    }
}

/// A copy of a sky, if there is one.
pub fn copy_sky(sky: &Option<SkyCoverage>) -> (r: Option<SkyCoverage>)
    ensures
        sky_option_view(r) == sky_option_view(*sky),
{
    match sky {
        Some(s) => Some(s.clone()),
        None => None,
    }
}

/// A copy of a list of texts, if there is one.
pub fn copy_texts(list: &Option<Vec<String>>) -> (r: Option<Vec<String>>)
    ensures
        texts_option_view(r) == texts_option_view(*list),
{
    match list {
        Some(v) => {
            let mut out: Vec<String> = Vec::new();
            let mut i: usize = 0;
            while i < v.len()
                invariant
                    i <= v.len(),
                    out@.len() == i,
                    forall|j: int| 0 <= j < i ==> out@[j]@ == v@[j]@,
                decreases v.len() - i,
            {
                out.push(v[i].clone());
                i += 1;
            }
            proof {
                assert(texts(out@) =~= texts(v@));
            }
            Some(out)
        },
        None => None,
    }
}

/// A copy of a text, if there is one.
pub fn copy_text(text: &Option<String>) -> (r: Option<String>)
    ensures
        text_option_view(r) == text_option_view(*text),
{
    match text {
        Some(s) => Some(s.clone()),
        None => None,
    }
}

impl WxEntryStruct {
    /// The layers of the record by their level.
    pub open spec fn layer_map(&self) -> Map<Layer, Readings> {
        Map::new(
            |tag: Layer| first_index(self.layer_tags(), tag) is Some,
            |tag: Layer| self.layers@[first_index(self.layer_tags(), tag)->0].readings(),
        )
    }
}

impl Clone for WxEntryStruct {
    fn clone(&self) -> (r: Self)
        ensures
            r.attributes() == self.attributes(),
            r.layers@ == self.layers@,
            r.layer_tags() == self.layer_tags(),
            r.layer_map() == self.layer_map(),
            r.wf() == self.wf(),
    {
        let mut layers: Vec<WxEntryLayerStruct> = Vec::new();
        let mut i: usize = 0;
        while i < self.layers.len()
            invariant
                i <= self.layers@.len(),
                layers@ == self.layers@.take(i as int),
            decreases self.layers@.len() - i,
        {
            layers.push(self.layers[i].clone());
            proof {
                assert(layers@ =~= self.layers@.take(i + 1));
            }
            i += 1;
        }
        proof {
            assert(self.layers@.take(self.layers@.len() as int) == self.layers@);
        }
        WxEntryStruct {
            date_time: self.date_time,
            station: share(&self.station),
            layers,
            skycover: copy_sky(&self.skycover),
            wx_codes: copy_texts(&self.wx_codes),
            raw_metar: copy_text(&self.raw_metar),
            precip_today: self.precip_today,
            precip_probability: self.precip_probability,
            precip: self.precip,
            altimeter: self.altimeter,
            cape: self.cape,
            evaluated: self.evaluated,
        }
    }
}

impl<'a> WxEntry<'a, &'a WxEntryLayerStruct> for WxEntryStruct {
    open spec fn attributes(&self) -> Attributes {
        WxEntryStruct::attributes(self)
    }

    open spec fn layer_tags(&self) -> Seq<Layer> {
        WxEntryStruct::layer_tags(self)
    }

    open spec fn layer_map(&self) -> Map<Layer, Readings> {
        WxEntryStruct::layer_map(self)
    }

    fn date_time(&self) -> (r: i64) {
        self.date_time
    }

    fn station(&self) -> (r: Arc<Station>) {
        share(&self.station)
    }

    fn layer(&'a self, layer: Layer) -> (r: Option<&'a WxEntryLayerStruct>) {
        self.find_layer(layer)
    }

    fn layers(&self) -> (r: Vec<Layer>) {
        let mut out: Vec<Layer> = Vec::new();
        let mut i: usize = 0;
        while i < self.layers.len()
            invariant
                i <= self.layers@.len(),
                out@ == WxEntryStruct::layer_tags(self).take(i as int),
            decreases self.layers@.len() - i,
        {
            out.push(self.layers[i].layer);
            proof {
                assert(out@ =~= WxEntryStruct::layer_tags(self).take(i + 1));
            }
            i += 1;
        }
        proof {
            assert(WxEntryStruct::layer_tags(self).take(self.layers@.len() as int)
                == WxEntryStruct::layer_tags(self));
        }
        out
    }

    fn skycover(&self) -> (r: Option<SkyCoverage>) {
        copy_sky(&self.skycover)
    }

    fn wx_codes(&self) -> (r: Option<Vec<String>>) {
        copy_texts(&self.wx_codes)
    }

    fn raw_metar(&self) -> (r: Option<String>) {
        copy_text(&self.raw_metar)
    }

    fn precip_today(&self) -> (r: Option<Precip>) {
        self.precip_today
    }

    fn precip_probability(&self) -> (r: Option<Fraction>) {
        self.precip_probability
    }

    fn precip(&self) -> (r: Option<Precip>) {
        self.precip
    }

    fn altimeter(&self) -> (r: Option<Pressure>) {
        self.altimeter
    }

    fn cape(&self) -> (r: Option<SpecEnergy>) {
        self.cape
    }

    fn evaluated(&self) -> (r: EvaluatedEntry) {
        self.evaluated
    }
}

} // verus!
