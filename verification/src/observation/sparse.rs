//! The sparse store of an observation: only what was observed is put in,
//! each value under its level and its kind.
use vstd::prelude::*;
use std::sync::Arc;
use crate::layer::Layer;
use crate::layer::Param;
use crate::observation::dense::copy_sky;
use crate::observation::dense::copy_text;
use crate::observation::dense::copy_texts;
use crate::observation::entry_api::WxEntry;
use crate::observation::layer_api::WxEntryLayer;
use crate::sky::sky_option_view;
use crate::sky::sky_view;
use crate::observation::readings::text_option_view;
use crate::observation::readings::texts_option_view;
use crate::observation::readings::Attributes;
use crate::observation::readings::Evaluated;
use crate::observation::readings::EvaluatedEntry;
use crate::observation::readings::Precip;
use crate::observation::readings::Readings;
use crate::sky::SkyView;
use crate::observation::readings::Wind;
use crate::observation::table::distinct;
use crate::observation::table::first_index;
use crate::observation::table::lemma_first_index;
use crate::sky::SkyCoverage;
use crate::station::share;
use crate::station::Station;
use crate::tokens::texts;
use crate::units::direction::Direction;
use crate::units::families::Altitude;
use crate::units::families::Distance;
use crate::units::families::Fraction;
use crate::units::families::Pressure;
use crate::units::families::SpecEnergy;
use crate::units::families::Speed;
use crate::units::temperature::Temperature;

verus! {

/// A value of one of the types that an observation can hold.
#[derive(Debug)]
pub enum Value {
    Temperature(Temperature),
    Pressure(Pressure),
    Distance(Distance),
    Fraction(Fraction),
    Speed(Speed),
    Direction(Direction),
    Wind(Wind),
    SkyCover(SkyCoverage),
    Codes(Vec<String>),
    Text(String),
    Precip(Precip),
    Energy(SpecEnergy),
}

impl Value {
    pub open spec fn spec_temperature(value: Option<Value>) -> Option<Temperature> {
        match value {
            Some(Value::Temperature(x)) => Some(x),
            _ => None,
        }
    }

    pub open spec fn spec_pressure(value: Option<Value>) -> Option<Pressure> {
        match value {
            Some(Value::Pressure(x)) => Some(x),
            _ => None,
        }
    }

    pub open spec fn spec_distance(value: Option<Value>) -> Option<Distance> {
        match value {
            Some(Value::Distance(x)) => Some(x),
            _ => None,
        }
    }

    pub open spec fn spec_fraction(value: Option<Value>) -> Option<Fraction> {
        match value {
            Some(Value::Fraction(x)) => Some(x),
            _ => None,
        }
    }

    pub open spec fn spec_speed(value: Option<Value>) -> Option<Speed> {
        match value {
            Some(Value::Speed(x)) => Some(x),
            _ => None,
        }
    }

    pub open spec fn spec_direction(value: Option<Value>) -> Option<Direction> {
        match value {
            Some(Value::Direction(x)) => Some(x),
            _ => None,
        }
    }

    pub open spec fn spec_wind(value: Option<Value>) -> Option<Wind> {
        match value {
            Some(Value::Wind(x)) => Some(x),
            _ => None,
        }
    }

    pub open spec fn spec_skycover(value: Option<Value>) -> Option<SkyView> {
        match value {
            Some(Value::SkyCover(x)) => Some(sky_view(x)),
            _ => None,
        }
    }

    pub open spec fn spec_codes(value: Option<Value>) -> Option<Seq<Seq<char>>> {
        match value {
            Some(Value::Codes(x)) => Some(texts(x@)),
            _ => None,
        }
    }

    pub open spec fn spec_text(value: Option<Value>) -> Option<Seq<char>> {
        match value {
            Some(Value::Text(x)) => Some(x@),
            _ => None,
        }
    }

    pub open spec fn spec_precip(value: Option<Value>) -> Option<Precip> {
        match value {
            Some(Value::Precip(x)) => Some(x),
            _ => None,
        }
    }

    pub open spec fn spec_energy(value: Option<Value>) -> Option<SpecEnergy> {
        match value {
            Some(Value::Energy(x)) => Some(x),
            _ => None,
        }
    }
}

/// One value of the store, under its level and kind.
#[derive(Debug)]
pub struct Slot {
    pub layer: Layer,
    pub param: Param,
    pub value: Value,
}

/// The keys of some slots, in order.
pub open spec fn keys_of(slots: Seq<Slot>) -> Seq<(Layer, Param)> {
    slots.map_values(|s: Slot| (s.layer, s.param))
}

/// The values of some slots by their keys; of two slots under one key the
/// first counts.
pub open spec fn table_of(slots: Seq<Slot>) -> Map<(Layer, Param), Value> {
    Map::new(
        |k: (Layer, Param)| first_index(keys_of(slots), k) is Some,
        |k: (Layer, Param)| slots[first_index(keys_of(slots), k)->0].value,
    )
}

/// The levels that occur in `keys`, each once, in the order in which they
/// first occur.
pub open spec fn levels_in(keys: Seq<(Layer, Param)>) -> Seq<Layer>
    decreases keys.len(),
{
    if keys.len() == 0 {
        Seq::<Layer>::empty()
    } else {
        let front = levels_in(keys.drop_last());
        if front.contains(keys.last().0) {
            front
        } else {
            front.push(keys.last().0)
        }
    }
}

/// [`levels_in`] holds no level twice, and holds exactly the levels of the
/// keys.
pub proof fn lemma_levels_in(keys: Seq<(Layer, Param)>)
    ensures
        distinct(levels_in(keys)),
        forall|l: Layer|
            levels_in(keys).contains(l) <==> exists|i: int|
                0 <= i < keys.len() && (#[trigger] keys[i]).0 == l,
    decreases keys.len(),
{
    if keys.len() > 0 {
        let front_keys = keys.drop_last();
        let front = levels_in(front_keys);
        let last = keys.last().0;
        lemma_levels_in(front_keys);
        assert forall|i: int| 0 <= i < front_keys.len() implies front_keys[i] == keys[i] by {}
        assert forall|l: Layer| levels_in(keys).contains(l) <==> exists|i: int|
            0 <= i < keys.len() && (#[trigger] keys[i]).0 == l by {
            if levels_in(keys).contains(l) {
                if front.contains(l) {
                    let i = choose|i: int| 0 <= i < front_keys.len() && (#[trigger] front_keys[i]).0
                        == l;
                    assert(keys[i].0 == l);
                } else {
                    let j = choose|j: int| 0 <= j < levels_in(keys).len() && levels_in(keys)[j]
                        == l;
                    assert(l == last);
                    assert(keys[keys.len() - 1].0 == l);
                }
            }
            if exists|i: int| 0 <= i < keys.len() && (#[trigger] keys[i]).0 == l {
                let i = choose|i: int| 0 <= i < keys.len() && (#[trigger] keys[i]).0 == l;
                if i < front_keys.len() {
                    assert(front_keys[i].0 == l);
                    assert(front.contains(l));
                    let j = choose|j: int| 0 <= j < front.len() && front[j] == l;
                    assert(levels_in(keys)[j] == l);
                } else {
                    assert(l == last);
                    if front.contains(l) {
                    } else {
                        assert(levels_in(keys)[front.len() as int] == l);
                    }
                }
            }
        }
    }
}

/// `levels` with `layer` after the last, unless it is among them already.
pub open spec fn with_level(levels: Seq<Layer>, layer: Layer) -> Seq<Layer> {
    if levels.contains(layer) {
        levels
    } else {
        levels.push(layer)
    }
}

/// The sparse store of an observation. The levels under which it holds
/// something are listed in the order in which they were first used.
#[derive(Debug)]
pub struct HashMapWx {
    date_time: i64,
    station: Arc<Station>,
    data: Vec<Slot>,
    formulas: Vec<(Layer, Evaluated)>,
    evaluated: EvaluatedEntry,
}

/// The levels of some evaluated values, in order.
pub open spec fn formula_keys(formulas: Seq<(Layer, Evaluated)>) -> Seq<Layer> {
    formulas.map_values(|f: (Layer, Evaluated)| f.0)
}

impl HashMapWx {
    /// The instant of the observation.
    pub closed spec fn spec_date_time(&self) -> i64 {
        self.date_time
    }

    /// The station of the observation.
    pub closed spec fn spec_station(&self) -> Station {
        *self.station
    }

    /// What the store holds, by level and kind.
    pub closed spec fn table(&self) -> Map<(Layer, Param), Value> {
        table_of(self.data@)
    }

    /// The levels under which the store holds something, each once.
    pub closed spec fn layer_order(&self) -> Seq<Layer> {
        levels_in(keys_of(self.data@))
    }

    /// The evaluated formulas of the level `layer`.
    pub closed spec fn formulas_at(&self, layer: Layer) -> Evaluated {
        match first_index(formula_keys(self.formulas@), layer) {
            Some(i) => self.formulas@[i].1,
            None => Evaluated::spec_none(),
        }
    }

    /// The evaluated formulas of the whole observation.
    pub closed spec fn spec_evaluated(&self) -> EvaluatedEntry {
        self.evaluated
    }

    /// What stands under `layer` and `param`, if anything.
    pub open spec fn at(&self, layer: Layer, param: Param) -> Option<Value> {
        if self.table().contains_key((layer, param)) {
            Some(self.table()[(layer, param)])
        } else {
            None
        }
    }

    /// The levels of the store are those under which it holds a value, and
    /// none of them is listed twice.
    pub proof fn lemma_layer_order(&self)
        ensures
            distinct(self.layer_order()),
            forall|l: Layer|
                self.layer_order().contains(l) <==> exists|p: Param| #[trigger]
                    self.table().contains_key((l, p)),
    {
        let keys = keys_of(self.data@);
        lemma_levels_in(keys);
        assert forall|l: Layer| self.layer_order().contains(l) <==> exists|p: Param| #[trigger]
            self.table().contains_key((l, p)) by {
            if self.layer_order().contains(l) {
                let i = choose|i: int| 0 <= i < keys.len() && (#[trigger] keys[i]).0 == l;
                lemma_first_index(keys, keys[i]);
                assert(self.table().contains_key((l, keys[i].1)));
            }
            if exists|p: Param| #[trigger] self.table().contains_key((l, p)) {
                let p = choose|p: Param| #[trigger] self.table().contains_key((l, p));
                lemma_first_index(keys, (l, p));
                let i = first_index(keys, (l, p))->0;
                assert(keys[i].0 == l);
            }
        }
    }

    /// An empty store for an observation of `station` at `date_time`.
    pub fn new(date_time: i64, station: Arc<Station>) -> (r: HashMapWx)
        ensures
            r.spec_date_time() == date_time,
            r.spec_station() == *station,
            r.table() == Map::<(Layer, Param), Value>::empty(),
            r.layer_order() == Seq::<Layer>::empty(),
            forall|l: Layer| r.formulas_at(l) == Evaluated::spec_none(),
            r.spec_evaluated() == EvaluatedEntry::spec_none(),
    {
        let r = HashMapWx {
            date_time,
            station,
            data: Vec::new(),
            formulas: Vec::new(),
            evaluated: EvaluatedEntry::none(),
        };
        proof {
            assert(r.table() =~= Map::<(Layer, Param), Value>::empty());
        }
        r
    }

    fn position(&self, layer: Layer, param: Param) -> (r: Option<usize>)
        ensures
            r is Some <==> first_index(keys_of(self.data@), (layer, param)) is Some,
            r matches Some(i) ==> first_index(keys_of(self.data@), (layer, param)) == Some(
                i as int,
            ) && i < self.data@.len(),
    {
        let ghost keys = keys_of(self.data@);
        let mut i: usize = 0;
        while i < self.data.len()
            invariant
                i <= self.data@.len(),
                keys == keys_of(self.data@),
                forall|j: int| 0 <= j < i ==> keys[j] != (layer, param),
            decreases self.data@.len() - i,
        {
            if self.data[i].layer == layer && self.data[i].param == param {
                proof {
                    assert(keys[i as int] == (layer, param));
                    lemma_first_index(keys, (layer, param));
                }
                return Some(i);
            }
            i += 1;
        }
        proof {
            lemma_first_index(keys, (layer, param));
        }
        None
    }

    /// Puts `data` under `layer` and `param`, in place of what stood there.
    pub fn put(&mut self, layer: Layer, param: Param, data: Value)
        ensures
            final(self).table() == old(self).table().insert((layer, param), data),
            final(self).at(layer, param) == Some(data),
            final(self).layer_order() == with_level(old(self).layer_order(), layer),
            final(self).spec_date_time() == old(self).spec_date_time(),
            final(self).spec_station() == old(self).spec_station(),
            final(self).spec_evaluated() == old(self).spec_evaluated(),
            forall|l: Layer| final(self).formulas_at(l) == old(self).formulas_at(l),
    {
        let ghost keys = keys_of(self.data@);
        let ghost key = (layer, param);
        proof {
            lemma_first_index(keys, key);
        }
        match self.position(layer, param) {
            Some(i) => {
                self.data.set(i, Slot { layer, param, value: data });
                proof {
                    assert(keys_of(self.data@) =~= keys);
                    lemma_levels_in(keys);
                    assert(keys[i as int].0 == layer);
                    assert(levels_in(keys).contains(layer));
                }
            },
            None => {
                self.data.push(Slot { layer, param, value: data });
                proof {
                    assert(keys_of(self.data@) =~= keys.push(key));
                    assert(keys_of(self.data@).drop_last() =~= keys);
                }
            },
        }
        proof {
            let after = keys_of(self.data@);
            assert forall|k: (Layer, Param)|
                self.table().contains_key(k) <==> old(self).table().insert(key, data).contains_key(
                    k,
                ) by {
                lemma_first_index(keys, k);
                lemma_first_index(after, k);
            }
            assert forall|k: (Layer, Param)| self.table().contains_key(k) implies self.table()[k]
                == old(self).table().insert(key, data)[k] by {
                lemma_first_index(keys, k);
                lemma_first_index(after, k);
            }
            assert(self.table() =~= old(self).table().insert(key, data));
        }
    }

    /// Puts `data` under `layer` and `param` where there is a value to put,
    /// and changes nothing where there is none.
    pub fn put_opt(&mut self, layer: Layer, param: Param, data: Option<Value>)
        ensures
            data matches Some(d) ==> final(self).table() == old(self).table().insert(
                (layer, param),
                d,
            ),
            data is Some ==> final(self).layer_order() == with_level(
                old(self).layer_order(),
                layer,
            ),
            data is None ==> final(self).table() == old(self).table(),
            data is None ==> final(self).layer_order() == old(self).layer_order(),
            final(self).spec_date_time() == old(self).spec_date_time(),
            final(self).spec_station() == old(self).spec_station(),
            final(self).spec_evaluated() == old(self).spec_evaluated(),
            forall|l: Layer| final(self).formulas_at(l) == old(self).formulas_at(l),
    {
        if let Some(d) = data {
            self.put(layer, param, d);
        }
    }

    /// What stands under `layer` and `param`, if anything.
    pub fn get(&self, layer: Layer, param: Param) -> (r: Option<&Value>)
        ensures
            r is Some <==> self.at(layer, param) is Some,
            r matches Some(v) ==> self.at(layer, param) == Some(*v),
    {
        match self.position(layer, param) {
            Some(i) => Some(&self.data[i].value),
            None => None,
        }
    }

    /// Keeps the evaluated formulas of the level `layer`.
    pub fn set_formulas(&mut self, layer: Layer, evaluated: Evaluated)
        ensures
            final(self).formulas_at(layer) == evaluated,
            forall|l: Layer| l != layer ==> final(self).formulas_at(l) == old(self).formulas_at(l),
            final(self).table() == old(self).table(),
            final(self).layer_order() == old(self).layer_order(),
            final(self).spec_date_time() == old(self).spec_date_time(),
            final(self).spec_station() == old(self).spec_station(),
            final(self).spec_evaluated() == old(self).spec_evaluated(),
    {
        let ghost keys = formula_keys(self.formulas@);
        let found = self.formula_position(layer);
        proof {
            lemma_first_index(keys, layer);
        }
        match found {
            Some(k) => {
                self.formulas.set(k, (layer, evaluated));
                proof {
                    assert(formula_keys(self.formulas@) =~= keys);
                }
            },
            None => {
                self.formulas.push((layer, evaluated));
                proof {
                    assert(formula_keys(self.formulas@) =~= keys.push(layer));
                    assert(formula_keys(self.formulas@).drop_last() =~= keys);
                }
            },
        }
        proof {
            let after = formula_keys(self.formulas@);
            lemma_first_index(after, layer);
            assert(self.formulas_at(layer) == evaluated);
            assert forall|l: Layer| l != layer implies self.formulas_at(l) == old(
                self,
            ).formulas_at(l) by {
                lemma_first_index(keys, l);
                lemma_first_index(after, l);
            }
        }
    }

    /// Keeps the evaluated formulas of the whole observation.
    pub fn set_evaluated(&mut self, evaluated: EvaluatedEntry)
        ensures
            final(self).spec_evaluated() == evaluated,
            forall|l: Layer| final(self).formulas_at(l) == old(self).formulas_at(l),
            final(self).table() == old(self).table(),
            final(self).layer_order() == old(self).layer_order(),
            final(self).spec_date_time() == old(self).spec_date_time(),
            final(self).spec_station() == old(self).spec_station(),
    {
        self.evaluated = evaluated;
    }

    fn formula_position(&self, layer: Layer) -> (r: Option<usize>)
        ensures
            r is Some <==> first_index(formula_keys(self.formulas@), layer) is Some,
            r matches Some(i) ==> first_index(formula_keys(self.formulas@), layer) == Some(
                i as int,
            ) && i < self.formulas@.len(),
    {
        let ghost keys = formula_keys(self.formulas@);
        let mut i: usize = 0;
        while i < self.formulas.len()
            invariant
                i <= self.formulas@.len(),
                keys == formula_keys(self.formulas@),
                forall|j: int| 0 <= j < i ==> keys[j] != layer,
            decreases self.formulas@.len() - i,
        {
            if self.formulas[i].0 == layer {
                proof {
                    assert(keys[i as int] == layer);
                    lemma_first_index(keys, layer);
                }
                return Some(i);
            }
            i += 1;
        }
        proof {
            lemma_first_index(keys, layer);
        }
        None
    }

    fn formulas_of(&self, layer: Layer) -> (r: Evaluated)
        ensures
            r == self.formulas_at(layer),
    {
        match self.formula_position(layer) {
            Some(i) => self.formulas[i].1,
            None => Evaluated::none(),
        }
    }

    /// The temperature under `layer` and `param`; absent where nothing
    /// stands there or what stands there is no temperature.
    pub fn get_temperature(&self, layer: Layer, param: Param) -> (r: Option<Temperature>)
        ensures
            r == Value::spec_temperature(self.at(layer, param)),
    {
        match self.get(layer, param) {
            Some(Value::Temperature(x)) => Some(*x),
            _ => None,
        }
    }

    /// The pressure under `layer` and `param`, if one stands there.
    pub fn get_pressure(&self, layer: Layer, param: Param) -> (r: Option<Pressure>)
        ensures
            r == Value::spec_pressure(self.at(layer, param)),
    {
        match self.get(layer, param) {
            Some(Value::Pressure(x)) => Some(*x),
            _ => None,
        }
    }

    /// The distance under `layer` and `param`, if one stands there.
    pub fn get_distance(&self, layer: Layer, param: Param) -> (r: Option<Distance>)
        ensures
            r == Value::spec_distance(self.at(layer, param)),
    {
        match self.get(layer, param) {
            Some(Value::Distance(x)) => Some(*x),
            _ => None,
        }
    }

    /// The share under `layer` and `param`, if one stands there.
    pub fn get_fraction(&self, layer: Layer, param: Param) -> (r: Option<Fraction>)
        ensures
            r == Value::spec_fraction(self.at(layer, param)),
    {
        match self.get(layer, param) {
            Some(Value::Fraction(x)) => Some(*x),
            _ => None,
        }
    }

    /// The speed under `layer` and `param`, if one stands there.
    pub fn get_speed(&self, layer: Layer, param: Param) -> (r: Option<Speed>)
        ensures
            r == Value::spec_speed(self.at(layer, param)),
    {
        match self.get(layer, param) {
            Some(Value::Speed(x)) => Some(*x),
            _ => None,
        }
    }

    /// The direction under `layer` and `param`, if one stands there.
    pub fn get_direction(&self, layer: Layer, param: Param) -> (r: Option<Direction>)
        ensures
            r == Value::spec_direction(self.at(layer, param)),
    {
        match self.get(layer, param) {
            Some(Value::Direction(x)) => Some(*x),
            _ => None,
        }
    }

    /// The wind under `layer` and `param`, if one stands there.
    pub fn get_wind(&self, layer: Layer, param: Param) -> (r: Option<Wind>)
        ensures
            r == Value::spec_wind(self.at(layer, param)),
    {
        match self.get(layer, param) {
            Some(Value::Wind(x)) => Some(*x),
            _ => None,
        }
    }

    /// A copy of the sky under `layer` and `param`, if one stands there.
    pub fn get_skycover(&self, layer: Layer, param: Param) -> (r: Option<SkyCoverage>)
        ensures
            sky_option_view(r) == Value::spec_skycover(self.at(layer, param)),
    {
        match self.get(layer, param) {
            Some(Value::SkyCover(x)) => Some(x.clone()),
            _ => None,
        }
    }

    /// A copy of the list of texts under `layer` and `param`, if one stands
    /// there.
    pub fn get_codes(&self, layer: Layer, param: Param) -> (r: Option<Vec<String>>)
        ensures
            texts_option_view(r) == Value::spec_codes(self.at(layer, param)),
    {
        match self.get(layer, param) {
            Some(Value::Codes(x)) => {
                let mut out: Vec<String> = Vec::new();
                let mut i: usize = 0;
                while i < x.len()
                    invariant
                        i <= x.len(),
                        out@.len() == i,
                        forall|j: int| 0 <= j < i ==> out@[j]@ == x@[j]@,
                    decreases x.len() - i,
                {
                    out.push(x[i].clone());
                    i += 1;
                }
                proof {
                    assert(texts(out@) =~= texts(x@));
                }
                Some(out)
            },
            _ => None,
        }
    }

    /// A copy of the text under `layer` and `param`, if one stands there.
    pub fn get_text(&self, layer: Layer, param: Param) -> (r: Option<String>)
        ensures
            text_option_view(r) == Value::spec_text(self.at(layer, param)),
    {
        match self.get(layer, param) {
            Some(Value::Text(x)) => Some(x.clone()),
            _ => None,
        }
    }

    /// The precipitation under `layer` and `param`, if one stands there.
    pub fn get_precip(&self, layer: Layer, param: Param) -> (r: Option<Precip>)
        ensures
            r == Value::spec_precip(self.at(layer, param)),
    {
        match self.get(layer, param) {
            Some(Value::Precip(x)) => Some(*x),
            _ => None,
        }
    }

    /// The energy under `layer` and `param`, if one stands there.
    pub fn get_energy(&self, layer: Layer, param: Param) -> (r: Option<SpecEnergy>)
        ensures
            r == Value::spec_energy(self.at(layer, param)),
    {
        match self.get(layer, param) {
            Some(Value::Energy(x)) => Some(*x),
            _ => None,
        }
    }

    /// What the layer at `layer` holds: each value under its kind, the wind
    /// as stored or else put together from a stored speed and direction.
    pub open spec fn readings_at(&self, layer: Layer) -> Readings {
        Readings {
            layer,
            station: self.spec_station(),
            temperature: Value::spec_temperature(self.at(layer, Param::Temperature)),
            pressure: Value::spec_pressure(self.at(layer, Param::Pressure)),
            visibility: Value::spec_distance(self.at(layer, Param::Visibility)),
            wind: match Value::spec_wind(self.at(layer, Param::Wind)) {
                Some(w) => Some(w),
                None => match Value::spec_speed(self.at(layer, Param::WindSpeed)) {
                    Some(speed) => Some(
                        Wind {
                            direction: Value::spec_direction(self.at(layer, Param::WindDirection)),
                            speed,
                        },
                    ),
                    None => None,
                },
            },
            dewpoint: Value::spec_temperature(self.at(layer, Param::Dewpoint)),
            relative_humidity: Value::spec_fraction(self.at(layer, Param::RelativeHumidity)),
            height_msl: None,
            evaluated: self.formulas_at(layer),
        }
    }

    /// Everything that the store holds beside its layers: what stands under
    /// the level `All`.
    pub open spec fn attributes(&self) -> Attributes {
        Attributes {
            date_time: self.spec_date_time(),
            station: self.spec_station(),
            skycover: Value::spec_skycover(self.at(Layer::All, Param::SkyCover)),
            wx_codes: Value::spec_codes(self.at(Layer::All, Param::WxCodes)),
            raw_metar: Value::spec_text(self.at(Layer::All, Param::RawMetar)),
            precip_today: Value::spec_precip(self.at(Layer::All, Param::PrecipToday)),
            precip_probability: None,
            precip: Value::spec_precip(self.at(Layer::All, Param::Precip)),
            altimeter: Value::spec_pressure(self.at(Layer::All, Param::Altimeter)),
            cape: Value::spec_energy(self.at(Layer::All, Param::Cape)),
            evaluated: self.spec_evaluated(),
        }
    }
}

/// One level of a sparse store, seen as a layer.
pub struct LayerHash<'a> {
    layer: Layer,
    data: &'a HashMapWx,
}

impl<'a> WxEntryLayer for LayerHash<'a> {
    closed spec fn readings(&self) -> Readings {
        self.data.readings_at(self.layer)
    }

    fn layer(&self) -> (r: Layer) {
        self.layer
    }

    fn station(&self) -> (r: Arc<Station>) {
        share(&self.data.station)
    }

    fn temperature(&self) -> (r: Option<Temperature>) {
        self.data.get_temperature(self.layer, Param::Temperature)
    }

    fn pressure(&self) -> (r: Option<Pressure>) {
        self.data.get_pressure(self.layer, Param::Pressure)
    }

    fn visibility(&self) -> (r: Option<Distance>) {
        self.data.get_distance(self.layer, Param::Visibility)
    }

    fn wind(&self) -> (r: Option<Wind>) {
        match self.data.get_wind(self.layer, Param::Wind) {
            Some(w) => Some(w),
            None => match self.data.get_speed(self.layer, Param::WindSpeed) {
                Some(speed) => Some(
                    Wind {
                        direction: self.data.get_direction(self.layer, Param::WindDirection),
                        speed,
                    },
                ),
                None => None,
            },
        }
    }

    fn reported_dewpoint(&self) -> (r: Option<Temperature>) {
        self.data.get_temperature(self.layer, Param::Dewpoint)
    }

    fn reported_relative_humidity(&self) -> (r: Option<Fraction>) {
        self.data.get_fraction(self.layer, Param::RelativeHumidity)
    }

    fn reported_height_msl(&self) -> (r: Option<Altitude>) {
        None
    }

    fn evaluated(&self) -> (r: Evaluated) {
        self.data.formulas_of(self.layer)
    }
}

impl<'a> WxEntry<'a, LayerHash<'a>> for HashMapWx {
    open spec fn attributes(&self) -> Attributes {
        HashMapWx::attributes(self)
    }

    open spec fn layer_tags(&self) -> Seq<Layer> {
        self.layer_order()
    }

    /// Every level can be looked at, also one under which nothing stands.
    open spec fn layer_map(&self) -> Map<Layer, Readings> {
        Map::total(|tag: Layer| self.readings_at(tag))
    }

    fn date_time(&self) -> (r: i64) {
        self.date_time
    }

    fn station(&self) -> (r: Arc<Station>) {
        share(&self.station)
    }

    fn layer(&'a self, layer: Layer) -> (r: Option<LayerHash<'a>>) {
        Some(LayerHash { layer, data: self })
    }

    fn layers(&self) -> (r: Vec<Layer>) {
        let ghost keys = keys_of(self.data@);
        let mut out: Vec<Layer> = Vec::new();
        let mut i: usize = 0;
        while i < self.data.len()
            invariant
                i <= self.data@.len(),
                keys == keys_of(self.data@),
                out@ == levels_in(keys.take(i as int)),
            decreases self.data@.len() - i,
        {
            let layer = self.data[i].layer;
            let mut seen = false;
            let mut j: usize = 0;
            while j < out.len()
                invariant
                    j <= out@.len(),
                    seen <==> exists|k: int| 0 <= k < j && out@[k] == layer,
                decreases out@.len() - j,
            {
                if out[j] == layer {
                    seen = true;
                }
                j += 1;
            }
            proof {
                assert(keys.take(i + 1).drop_last() == keys.take(i as int));
                assert(keys.take(i + 1).last().0 == layer);
            }
            if !seen {
                out.push(layer);
            }
            i += 1;
        }
        proof {
            assert(keys.take(self.data@.len() as int) == keys);
        }
        out
    }

    fn skycover(&self) -> (r: Option<SkyCoverage>) {
        self.get_skycover(Layer::All, Param::SkyCover)
    }

    fn wx_codes(&self) -> (r: Option<Vec<String>>) {
        self.get_codes(Layer::All, Param::WxCodes)
    }

    fn raw_metar(&self) -> (r: Option<String>) {
        self.get_text(Layer::All, Param::RawMetar)
    }

    fn precip_today(&self) -> (r: Option<Precip>) {
        self.get_precip(Layer::All, Param::PrecipToday)
    }

    fn precip_probability(&self) -> (r: Option<Fraction>) {
        None
    }

    fn precip(&self) -> (r: Option<Precip>) {
        self.get_precip(Layer::All, Param::Precip)
    }

    fn altimeter(&self) -> (r: Option<Pressure>) {
        self.get_pressure(Layer::All, Param::Altimeter)
    }

    fn cape(&self) -> (r: Option<SpecEnergy>) {
        self.get_energy(Layer::All, Param::Cape)
    }

    fn evaluated(&self) -> (r: EvaluatedEntry) {
        self.evaluated
    }
}

} // verus!
