//! The observations of one station, kept by their instant.
use vstd::prelude::*;
use vstd::string::*;
use std::collections::BTreeMap;
use vstd::std_specs::btree::spec_keys_iter;
use vstd::std_specs::iter::IteratorSpec;
use crate::clock::calendar_day;
use crate::clock::day_of;
use crate::clock::day_text;
use crate::clock::spec_day_of;
use crate::clock::DAY;
use crate::fixed::saturate;
use crate::fixed::sub_saturating;
use crate::observation::dense::WxEntryStruct;
use crate::station::Station;

verus! {

/// Observations by their instant, in seconds since 1970-01-01 00:00 UTC.
pub type StationData = BTreeMap<i64, WxEntryStruct>;

/// How long an observation is kept: two days, in seconds.
pub const KEPT: i64 = 172_800;

/// A station and its observations.
#[derive(Debug)]
pub struct StationDatabaseInternal {
    pub station: Station,
    pub data: StationData,
}

/// Whether two records hold the same.
pub open spec fn same_entry(a: WxEntryStruct, b: WxEntryStruct) -> bool {
    a.attributes() == b.attributes() && a.layers@ == b.layers@
}

/// `kept` with the entries of `given`: every entry of `given` where
/// `replace` is set, and else those at instants that `kept` does not hold.
pub open spec fn merged(
    kept: Map<i64, WxEntryStruct>,
    given: Map<i64, WxEntryStruct>,
    replace: bool,
) -> Map<i64, WxEntryStruct> {
    if replace {
        kept.union_prefer_right(given)
    } else {
        given.union_prefer_right(kept)
    }
}

/// The instants that fall on the same calendar day in UTC as `date`.
pub open spec fn on_day(date: i64) -> Set<i64> {
    Set::new(|k: i64| spec_day_of(k as int) == spec_day_of(date as int))
}

/// The instants more than two days before `now`.
pub open spec fn expired(now: i64) -> Set<i64> {
    Set::new(|k: i64| k < saturate(now - KEPT))
}

/// The path of the file that holds the observations of the station `name`
/// on the day of `date`.
pub open spec fn spec_export_path(name: Seq<char>, date: i64) -> Option<Seq<char>> {
    match calendar_day(date as int) {
        Some(day) => Some("data/"@ + name + "_"@ + day + ".json"@),
        None => None,
    }
}

/// The instants of a collection, each once.
pub fn keys_of(data: &StationData) -> (r: Vec<i64>)
    ensures
        r@.to_set() == data@.dom(),
        r@.no_duplicates(),
{
    broadcast use vstd::std_specs::btree::group_btree_axioms;

    let mut out: Vec<i64> = Vec::new();
    for k in iter: data.keys()
        invariant
            out@.len() == iter.index(),
            forall|j: int| 0 <= j < out@.len() ==> out@[j] == *iter.seq()[j],
            iter.seq() == spec_keys_iter(data).remaining(),
    {
        out.push(*k);
    }
    proof {
        vstd::std_specs::btree::axiom_spec_keys_iter(data);
        assert(out@ =~= spec_keys_iter(data).remaining().unref());
    }
    out
}

impl StationDatabaseInternal {
    /// A station without observations.
    pub fn new(station: Station) -> (r: Self)
        ensures
            r.station == station,
            r.data@ == Map::<i64, WxEntryStruct>::empty(),
    {
        StationDatabaseInternal { station, data: BTreeMap::new() }
    }

    /// Takes the observations of `child` in. Where an instant is held
    /// already, the held observation stays, unless `replace` is set.
    pub fn add(&mut self, child: StationData, replace: bool)
        ensures
            final(self).data@ == merged(old(self).data@, child@, replace),
            final(self).station == old(self).station,
    {
        broadcast use vstd::std_specs::btree::group_btree_axioms;

        let mut child = child;
        let ghost given = child@;
        let ghost kept = self.data@;
        let keys = keys_of(&child);
        let mut i: usize = 0;
        while i < keys.len()
            invariant
                i <= keys@.len(),
                keys@.to_set() == given.dom(),
                keys@.no_duplicates(),
                self.station == old(self).station,
                child@ == given.remove_keys(keys@.take(i as int).to_set()),
                self.data@ == merged(
                    kept,
                    given.restrict(keys@.take(i as int).to_set()),
                    replace,
                ),
            decreases keys@.len() - i,
        {
            let k = keys[i];
            let ghost done = keys@.take(i as int).to_set();
            let ghost next = keys@.take(i + 1).to_set();
            proof {
                assert(keys@.take(i + 1) =~= keys@.take(i as int).push(k));
                keys@.take(i as int).lemma_push_to_set_commute(k);
                assert(next =~= done.insert(k));
                assert(keys@.contains(k));
                assert(given.dom().contains(k));
                assert(!done.contains(k)) by {
                    if done.contains(k) {
                        let j = choose|j: int| 0 <= j < i && keys@.take(i as int)[j] == k;
                        assert(keys@[j] == keys@[i as int]);
                    }
                }
            }
            match child.remove(&k) {
                Some(v) => {
                    if replace || !self.data.contains_key(&k) {
                        self.data.insert(k, v);
                    }
                },
                None => {},
            }
            proof {
                assert(child@ =~= given.remove_keys(next));
                assert(self.data@ =~= merged(kept, given.restrict(next), replace));
            }
            i += 1;
        }
        proof {
            assert(keys@.take(keys@.len() as int) == keys@);
            assert(given.restrict(given.dom()) =~= given);
        }
    }

    /// Copies of the observations of the calendar day in UTC that `date`
    /// falls on.
    pub fn entries_on(&self, date: i64) -> (r: StationData)
        ensures
            r@.dom() == self.data@.dom().intersect(on_day(date)),
            forall|k: i64| #[trigger] r@.contains_key(k) ==> same_entry(r@[k], self.data@[k]),
    {
        broadcast use vstd::std_specs::btree::group_btree_axioms;

        let day = day_of(date);
        let mut write_tree: StationData = BTreeMap::new();
        let keys = keys_of(&self.data);
        let mut i: usize = 0;
        while i < keys.len()
            invariant
                i <= keys@.len(),
                keys@.to_set() == self.data@.dom(),
                day == spec_day_of(date as int),
                write_tree@.dom() == keys@.take(i as int).to_set().intersect(on_day(date)),
                forall|k: i64| #[trigger]
                    write_tree@.contains_key(k) ==> same_entry(write_tree@[k], self.data@[k]),
            decreases keys@.len() - i,
        {
            let k = keys[i];
            proof {
                assert(keys@.take(i + 1) =~= keys@.take(i as int).push(k));
                keys@.take(i as int).lemma_push_to_set_commute(k);
                assert(keys@.take(i + 1).to_set() =~= keys@.take(i as int).to_set().insert(k));
                assert(keys@.contains(k));
                assert(self.data@.dom().contains(k));
            }
            if day_of(k) == day {
                match self.data.get(&k) {
                    Some(entry) => {
                        write_tree.insert(k, entry.clone());
                    },
                    None => {},
                }
            }
            proof {
                assert(write_tree@.dom() =~= keys@.take(i + 1).to_set().intersect(on_day(date)));
            }
            i += 1;
        }
        proof {
            assert(keys@.take(keys@.len() as int) == keys@);
        }
        write_tree
    }

    /// The path of the file for the observations of the station `name` on
    /// the day of `date`, as in `data/KALB_2024-03-09.json`; absent for an
    /// instant that has no calendar day.
    pub fn export_path(name: &str, date: i64) -> (r: Option<String>)
        ensures
            r is Some <==> spec_export_path(name@, date) is Some,
            r matches Some(p) ==> spec_export_path(name@, date) == Some(p@),
    {
        match day_text(date) {
            Some(day) => {
                let mut s = String::from_str("data/");
                s.append(name);
                s.append("_");
                s.append(day.as_str());
                s.append(".json");
                Some(s)
            },
            None => None,
        }
    }

    /// Drops the observations made more than two days before `now`.
    pub fn trim(&mut self, now: i64)
        ensures
            final(self).data@ == old(self).data@.remove_keys(expired(now)),
            final(self).station == old(self).station,
    {
        broadcast use vstd::std_specs::btree::group_btree_axioms;

        let cutoff = sub_saturating(now, KEPT);
        let ghost start = self.data@;
        let keys = keys_of(&self.data);
        let mut i: usize = 0;
        while i < keys.len()
            invariant
                i <= keys@.len(),
                keys@.to_set() == start.dom(),
                cutoff == saturate(now - KEPT),
                self.station == old(self).station,
                self.data@ == start.remove_keys(
                    keys@.take(i as int).to_set().intersect(expired(now)),
                ),
            decreases keys@.len() - i,
        {
            let e = keys[i];
            proof {
                assert(keys@.take(i + 1) =~= keys@.take(i as int).push(e));
                keys@.take(i as int).lemma_push_to_set_commute(e);
                assert(keys@.take(i + 1).to_set() =~= keys@.take(i as int).to_set().insert(e));
            }
            if e < cutoff {
                self.data.remove(&e);
            }
            proof {
                assert(self.data@ =~= start.remove_keys(
                    keys@.take(i + 1).to_set().intersect(expired(now)),
                ));
            }
            i += 1;
        }
        proof {
            assert(keys@.take(keys@.len() as int) == keys@);
            assert(self.data@ =~= start.remove_keys(expired(now)));
        }
    }
}

} // verus!
