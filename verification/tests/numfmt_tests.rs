use cosmolith::numfmt::clamp_speed;
use cosmolith::numfmt::milli_dec_chars;
use cosmolith::numfmt::u32_dec_chars;

fn rendered(v: Vec<char>) -> String {
    v.into_iter().collect()
}

#[test]
fn clamp_speed_clamps_below() {
    // -5.0 in thousandths clamps to -1.0.
    assert_eq!(clamp_speed(-5000), -1000);
}

#[test]
fn clamp_speed_clamps_above() {
    // 5.0 in thousandths clamps to 1.0.
    assert_eq!(clamp_speed(5000), 1000);
}

#[test]
fn clamp_speed_keeps_in_range_values() {
    assert_eq!(clamp_speed(250), 250);
    assert_eq!(clamp_speed(-1000), -1000);
    assert_eq!(clamp_speed(1000), 1000);
    assert_eq!(clamp_speed(0), 0);
}

#[test]
fn u32_decimal_rendering() {
    assert_eq!(rendered(u32_dec_chars(0)), "0");
    assert_eq!(rendered(u32_dec_chars(42)), "42");
    assert_eq!(rendered(u32_dec_chars(600)), "600");
    assert_eq!(rendered(u32_dec_chars(4294967295)), "4294967295");
}

#[test]
fn milli_decimal_rendering() {
    assert_eq!(rendered(milli_dec_chars(1250)), "1.250");
    assert_eq!(rendered(milli_dec_chars(-1000)), "-1.000");
    assert_eq!(rendered(milli_dec_chars(0)), "0.000");
    assert_eq!(rendered(milli_dec_chars(-5)), "-0.005");
    assert_eq!(rendered(milli_dec_chars(1000)), "1.000");
    assert_eq!(rendered(milli_dec_chars(10500)), "10.500");
}
