use wxcore::heat::heat_index_of;
use wxcore::heat::rothfusz_micro;
use wxcore::Celsius;
use wxcore::Decimal;
use wxcore::Fahrenheit;
use wxcore::Fraction;
use wxcore::Percent;
use wxcore::Temperature;

#[test]
fn regression_is_rounded_to_the_millionth() {
    assert_eq!(rothfusz_micro(0, 0), Some(-42_379_000));
    assert_eq!(rothfusz_micro(90_000_000, 60_000_000), Some(99_677_718));
    assert_eq!(rothfusz_micro(100_000_000, 60_000_000), Some(129_489_027));
    assert_eq!(rothfusz_micro(81_000_000, 58_000_000), Some(82_775_940));
    assert_eq!(rothfusz_micro(81_000_000, 58_349_000), Some(82_824_831));
    assert_eq!(rothfusz_micro(95_000_000, 50_000_000), Some(105_215_772));
    assert_eq!(rothfusz_micro(80_000_001, 40_000_100), Some(79_929_382));
}

#[test]
fn regression_is_worked_out_up_to_its_limits() {
    assert_eq!(rothfusz_micro(1_000_000_000, 300_000_000), Some(192_127_437_311));
    assert_eq!(rothfusz_micro(-1_000_000_000, -300_000_000), Some(-708_808_191_911));
    assert_eq!(rothfusz_micro(1_000_000_000, -300_000_000), Some(-416_349_315_451));
    assert_eq!(rothfusz_micro(1_000_000_001, 50_000_000), None);
    assert_eq!(rothfusz_micro(-1_000_000_001, 50_000_000), None);
    assert_eq!(rothfusz_micro(90_000_000, 300_000_001), None);
    assert_eq!(rothfusz_micro(90_000_000, -300_000_001), None);
    assert_eq!(rothfusz_micro(i64::MAX, i64::MAX), None);
    assert_eq!(rothfusz_micro(i64::MIN, i64::MIN), None);
}

#[test]
fn heat_index_takes_any_units() {
    let hot = Temperature::new(35_000_000, Celsius);
    let moist = Fraction::new(500_000, Decimal);
    let felt = heat_index_of(hot, moist).unwrap();
    assert_eq!(felt.unit(), Fahrenheit);
    assert_eq!(felt.value_in(Fahrenheit), 105_215_772);
    assert_eq!(
        heat_index_of(Temperature::new(95_000_000, Fahrenheit), Fraction::new(50_000_000, Percent)),
        Some(felt)
    );
    assert_eq!(heat_index_of(Temperature::new(600_000_000, Celsius), moist), None);
    assert_eq!(heat_index_of(hot, Fraction::new(3_100_000, Decimal)), None);
}
