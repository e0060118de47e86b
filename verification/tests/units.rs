use netspeed::display_speed_unit;
use netspeed::units::format_bits_per_second;

#[test]
fn zero_speed_is_plain_bits() {
    assert_eq!(display_speed_unit(0), "0 b/s");
}

#[test]
fn bits_band_upper_boundary() {
    assert_eq!(format_bits_per_second(999), "999 b/s");
}

#[test]
fn kilobit_band_lower_boundary() {
    assert_eq!(format_bits_per_second(1000), "1.0 kb/s");
}

#[test]
fn kilobit_band_upper_boundary() {
    assert_eq!(format_bits_per_second(999_999), "1000.0 kb/s");
}

#[test]
fn megabit_band_lower_boundary() {
    assert_eq!(format_bits_per_second(1_000_000), "1.0 Mb/s");
}

#[test]
fn megabit_band_upper_boundary() {
    assert_eq!(format_bits_per_second(999_999_999), "1000.0 Mb/s");
}

#[test]
fn gigabit_band_lower_boundary() {
    assert_eq!(format_bits_per_second(1_000_000_000), "1.0 Gb/s");
}

#[test]
fn one_decimal_digit_in_banded_values() {
    assert_eq!(format_bits_per_second(1500), "1.5 kb/s");
    assert_eq!(format_bits_per_second(123_456), "123.5 kb/s");
    assert_eq!(format_bits_per_second(64_000_000), "64.0 Mb/s");
    assert_eq!(format_bits_per_second(2_750_000_000), "2.8 Gb/s");
}

#[test]
fn bytes_are_eight_bits() {
    assert_eq!(display_speed_unit(124), "992 b/s");
    assert_eq!(display_speed_unit(125), "1.0 kb/s");
    assert_eq!(display_speed_unit(8_000_000), "64.0 Mb/s");
}
