use std::collections::BTreeMap;
use std::sync::Arc;
use wxcore::clock::day_of;
use wxcore::clock::local_time;
use wxcore::store::keys_of;
use wxcore::Altitude;
use wxcore::DataType;
use wxcore::Meter;
use wxcore::ModelRun;
use wxcore::Station;
use wxcore::StationData;
use wxcore::StationDatabaseInternal;
use wxcore::WeatherModel;
use wxcore::WxEntryStruct;

fn station() -> Station {
    Station {
        name: String::from("KALB"),
        altitude: Altitude::new(89_000_000, Meter),
        coords: (42_750_000, -73_800_000).into(),
        time_zone: String::from("US/Eastern"),
    }
}

fn entry(at: i64, metar: &str) -> WxEntryStruct {
    let mut e = WxEntryStruct::new(at, Arc::new(station()));
    e.raw_metar = Some(metar.to_string());
    e
}

fn data(list: &[(i64, &str)]) -> StationData {
    let mut d = BTreeMap::new();
    for (at, metar) in list.iter() {
        d.insert(*at, entry(*at, metar));
    }
    d
}

fn metars(db: &StationDatabaseInternal) -> Vec<(i64, String)> {
    db.data.iter().map(|(k, v)| (*k, v.raw_metar.clone().unwrap())).collect()
}

const NOON: i64 = 1_709_985_600;

#[test]
fn a_new_store_is_empty() {
    let db = StationDatabaseInternal::new(station());
    assert!(db.data.is_empty());
    assert_eq!(db.station.name, "KALB");
}

#[test]
fn add_keeps_what_is_held_unless_told_to_replace() {
    let mut db = StationDatabaseInternal::new(station());
    db.add(data(&[(10, "a"), (20, "b")]), false);
    assert_eq!(metars(&db), vec![(10, "a".to_string()), (20, "b".to_string())]);

    db.add(data(&[(20, "c"), (30, "d")]), false);
    assert_eq!(
        metars(&db),
        vec![(10, "a".to_string()), (20, "b".to_string()), (30, "d".to_string())]
    );

    db.add(data(&[(20, "e"), (5, "f")]), true);
    assert_eq!(
        metars(&db),
        vec![
            (5, "f".to_string()),
            (10, "a".to_string()),
            (20, "e".to_string()),
            (30, "d".to_string())
        ]
    );

    db.add(data(&[]), true);
    assert_eq!(db.data.len(), 4);
}

#[test]
fn entries_of_one_day() {
    let mut db = StationDatabaseInternal::new(station());
    let midnight = NOON - 43_200;
    db.add(
        data(&[
            (midnight - 1, "before"),
            (midnight, "first"),
            (NOON, "noon"),
            (midnight + 86_399, "last"),
            (midnight + 86_400, "after"),
        ]),
        false,
    );
    let day = db.entries_on(NOON + 5);
    let found: Vec<(i64, String)> =
        day.iter().map(|(k, v)| (*k, v.raw_metar.clone().unwrap())).collect();
    assert_eq!(
        found,
        vec![
            (midnight, "first".to_string()),
            (NOON, "noon".to_string()),
            (midnight + 86_399, "last".to_string())
        ]
    );
    assert_eq!(db.entries_on(midnight - 1).len(), 1);
    assert_eq!(db.entries_on(NOON + 10 * 86_400).len(), 0);
    assert_eq!(db.data.len(), 5);
}

#[test]
fn trim_drops_what_is_older_than_two_days() {
    let mut db = StationDatabaseInternal::new(station());
    let cutoff = NOON - 172_800;
    db.add(
        data(&[(cutoff - 1, "old"), (cutoff, "edge"), (NOON - 10, "new"), (NOON + 10, "ahead")]),
        false,
    );
    db.trim(NOON);
    assert_eq!(
        metars(&db),
        vec![(cutoff, "edge".to_string()), (NOON - 10, "new".to_string()), (NOON + 10, "ahead".to_string())]
    );
    db.trim(NOON);
    assert_eq!(db.data.len(), 3);
    db.trim(i64::MIN);
    assert_eq!(db.data.len(), 3);
    db.trim(i64::MAX);
    assert_eq!(db.data.len(), 0);
}

#[test]
fn export_path_names_the_station_and_the_day() {
    assert_eq!(
        StationDatabaseInternal::export_path("KALB", NOON),
        Some("data/KALB_2024-03-09.json".to_string())
    );
    assert_eq!(
        StationDatabaseInternal::export_path("KALB", NOON - 86_400),
        Some("data/KALB_2024-03-08.json".to_string())
    );
    assert_eq!(
        StationDatabaseInternal::export_path("", 0),
        Some("data/_1970-01-01.json".to_string())
    );
    assert_eq!(
        StationDatabaseInternal::export_path("x", -1),
        Some("data/x_1969-12-31.json".to_string())
    );
    assert_eq!(StationDatabaseInternal::export_path("x", i64::MAX), None);
}

#[test]
fn days_are_counted_from_the_epoch() {
    assert_eq!(day_of(0), 0);
    assert_eq!(day_of(86_399), 0);
    assert_eq!(day_of(86_400), 1);
    assert_eq!(day_of(-1), -1);
    assert_eq!(day_of(-86_400), -1);
    assert_eq!(day_of(-86_401), -2);
    assert_eq!(day_of(NOON), 19_791);
}

#[test]
fn local_time_follows_the_zone() {
    assert_eq!(local_time("UTC", NOON).unwrap().offset_seconds, 0);
    assert_eq!(local_time("US/Eastern", NOON).unwrap().offset_seconds, -18_000);
    assert_eq!(local_time("America/New_York", NOON + 86_400).unwrap().offset_seconds, -14_400);
    assert_eq!(local_time("Asia/Kolkata", NOON).unwrap().offset_seconds, 19_800);
    assert_eq!(local_time("Asia/Kolkata", NOON).unwrap().utc_seconds, NOON);
    assert_eq!(local_time("Nowhere", NOON), None);
    assert_eq!(local_time("", NOON), None);
    assert_eq!(local_time("UTC", i64::MAX), None);
}

#[test]
fn keys_come_out_once_each() {
    let d = data(&[(3, "c"), (1, "a"), (2, "b")]);
    let mut keys = keys_of(&d);
    keys.sort();
    assert_eq!(keys, vec![1, 2, 3]);
}

#[test]
fn names_of_models_and_quantities() {
    assert_eq!(DataType::Temperature2m.to_str(), "temperature_2m");
    assert_eq!(DataType::Dewpoint2m.to_str(), "dewpoint_2m");
    assert_eq!(DataType::ApparentTemperature.to_str(), "apparent_temperature");
    assert_eq!(DataType::Cape.to_str(), "cape");
    assert_eq!(WeatherModel::BestMatch.to_str(), "best_match");
    assert_eq!(WeatherModel::GFSSeamless.to_str(), "gfs_seamless");
    assert_eq!(WeatherModel::EcmwfIFS.to_str(), "ecmwf_ifs04");
    let run = ModelRun { model: WeatherModel::BestMatch, date: NOON };
    assert_eq!(run, ModelRun { model: WeatherModel::BestMatch, date: NOON });
}
