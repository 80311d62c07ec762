use wxcore::skycover_from_vecs;
use wxcore::CloudLayer;
use wxcore::CloudLayerCoverage;
use wxcore::SkyCoverage;
use wxcore::SkyError;

fn layer(coverage: CloudLayerCoverage, height: u32) -> CloudLayer {
    CloudLayer { coverage, height }
}

fn codes(list: &[Option<&str>]) -> Vec<Option<String>> {
    list.iter().map(|c| c.map(|s| s.to_string())).collect()
}

#[test]
fn cloud_layer_from_code() {
    assert_eq!(CloudLayer::from_code("SKC", 100).unwrap(), None);
    assert_eq!(CloudLayer::from_code("CLR", 100).unwrap(), None);
    assert_eq!(
        CloudLayer::from_code("FEW", 1200).unwrap(),
        Some(layer(CloudLayerCoverage::Few, 1200))
    );
    assert_eq!(
        CloudLayer::from_code("SCT", 0).unwrap(),
        Some(layer(CloudLayerCoverage::Scattered, 0))
    );
    assert_eq!(
        CloudLayer::from_code("BKN", 2500).unwrap(),
        Some(layer(CloudLayerCoverage::Broken, 2500))
    );
    assert_eq!(
        CloudLayer::from_code("OVC", u32::MAX).unwrap(),
        Some(layer(CloudLayerCoverage::Overcast, u32::MAX))
    );
}

#[test]
fn cloud_layer_from_unknown_code_is_an_error() {
    for code in ["", "few", "OVCX", "VV", "OV"] {
        match CloudLayer::from_code(code, 10) {
            Err(SkyError::UnknownCover(c)) => assert_eq!(c, code),
            _ => panic!("no error for {}", code),
        }
    }
    let e = CloudLayer::from_code("VV", 10).unwrap_err();
    assert_eq!(e.message(), "Unknown cloud cover string 'VV'");
    assert_eq!(
        SkyError::Mismatched.message(),
        "Mismatched skycover and skylevel values"
    );
}

#[test]
fn coverage_codes_and_oktas() {
    assert_eq!(CloudLayerCoverage::Few.str(), "FEW");
    assert_eq!(CloudLayerCoverage::Scattered.str(), "SCT");
    assert_eq!(CloudLayerCoverage::Broken.str(), "BKN");
    assert_eq!(CloudLayerCoverage::Overcast.str(), "OVC");
    assert_eq!(CloudLayerCoverage::Few.oktas(), 1);
    assert_eq!(CloudLayerCoverage::Scattered.oktas(), 3);
    assert_eq!(CloudLayerCoverage::Broken.oktas(), 6);
    assert_eq!(CloudLayerCoverage::Overcast.oktas(), 8);
}

#[test]
fn oktas_of_the_sky_are_those_of_the_layer_that_covers_most() {
    assert_eq!(SkyCoverage::Clear.oktas(), 0);
    assert_eq!(SkyCoverage::Cloudy(vec![]).oktas(), 0);
    assert_eq!(SkyCoverage::Cloudy(vec![layer(CloudLayerCoverage::Few, 10)]).oktas(), 1);
    assert_eq!(
        SkyCoverage::Cloudy(vec![
            layer(CloudLayerCoverage::Few, 10),
            layer(CloudLayerCoverage::Broken, 20),
            layer(CloudLayerCoverage::Scattered, 30),
        ])
        .oktas(),
        6
    );
    assert_eq!(
        SkyCoverage::Cloudy(vec![
            layer(CloudLayerCoverage::Overcast, 10),
            layer(CloudLayerCoverage::Few, 20),
        ])
        .oktas(),
        8
    );
}

#[test]
fn text_of_the_sky() {
    assert_eq!(SkyCoverage::Clear.to_text(), "CLR");
    assert_eq!(SkyCoverage::Cloudy(vec![]).to_text(), "");
    assert_eq!(layer(CloudLayerCoverage::Broken, 2500).to_text(), "BKN@2500 ft");
    assert_eq!(
        SkyCoverage::Cloudy(vec![
            layer(CloudLayerCoverage::Few, 1200),
            layer(CloudLayerCoverage::Overcast, 4000),
        ])
        .to_text(),
        "FEW@1200 ft, OVC@4000 ft"
    );
}

#[test]
fn sky_without_heights_is_clear() {
    let sky = skycover_from_vecs(codes(&[Some("OVC"), None]), vec![None, None]).unwrap();
    assert!(matches!(sky, SkyCoverage::Clear));
    let sky = skycover_from_vecs(vec![], vec![]).unwrap();
    assert!(matches!(sky, SkyCoverage::Clear));
    let sky = skycover_from_vecs(codes(&[Some("nonsense")]), vec![]).unwrap();
    assert!(matches!(sky, SkyCoverage::Clear));
}

#[test]
fn sky_from_pairs_of_codes_and_heights() {
    let sky = skycover_from_vecs(
        codes(&[Some("FEW"), Some("BKN"), None, Some("CLR")]),
        vec![Some(1200), Some(2500), None, Some(9000)],
    )
    .unwrap();
    match sky {
        SkyCoverage::Cloudy(v) => assert_eq!(
            v,
            vec![layer(CloudLayerCoverage::Few, 1200), layer(CloudLayerCoverage::Broken, 2500)]
        ),
        SkyCoverage::Clear => panic!("clear"),
    }
}

#[test]
fn sky_of_clear_codes_with_heights_is_cloudy_without_layers() {
    let sky = skycover_from_vecs(codes(&[Some("CLR")]), vec![Some(0)]).unwrap();
    match sky {
        SkyCoverage::Cloudy(v) => assert!(v.is_empty()),
        SkyCoverage::Clear => panic!("clear"),
    }
}

#[test]
fn sky_reads_only_as_many_pairs_as_both_lists_have() {
    let sky = skycover_from_vecs(codes(&[Some("FEW")]), vec![Some(100), Some(200), None]).unwrap();
    match sky {
        SkyCoverage::Cloudy(v) => assert_eq!(v, vec![layer(CloudLayerCoverage::Few, 100)]),
        SkyCoverage::Clear => panic!("clear"),
    }
    let sky = skycover_from_vecs(codes(&[None, Some("OVC"), Some("junk")]), vec![None, Some(5)])
        .unwrap();
    match sky {
        SkyCoverage::Cloudy(v) => assert_eq!(v, vec![layer(CloudLayerCoverage::Overcast, 5)]),
        SkyCoverage::Clear => panic!("clear"),
    }
}

#[test]
fn sky_with_a_half_pair_is_an_error() {
    let r = skycover_from_vecs(codes(&[Some("FEW"), None]), vec![Some(100), Some(200)]);
    assert!(matches!(r, Err(SkyError::Mismatched)));
    let r = skycover_from_vecs(codes(&[Some("FEW"), Some("OVC")]), vec![Some(100), None]);
    assert!(matches!(r, Err(SkyError::Mismatched)));
}

#[test]
fn sky_reports_the_first_pair_that_is_wrong() {
    let r = skycover_from_vecs(
        codes(&[Some("FEW"), Some("QQQ"), None]),
        vec![Some(100), Some(200), Some(300)],
    );
    match r {
        Err(SkyError::UnknownCover(c)) => assert_eq!(c, "QQQ"),
        _ => panic!("no error"),
    }
    let r = skycover_from_vecs(
        codes(&[Some("FEW"), None, Some("QQQ")]),
        vec![Some(100), Some(200), Some(300)],
    );
    assert!(matches!(r, Err(SkyError::Mismatched)));
}
