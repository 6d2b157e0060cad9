use debuglog::timestamp::{format_timestamp, get_timestamp};

fn assert_timestamp_shape(s: &str) {
    assert_eq!(s.len(), 19);
    for (i, c) in s.chars().enumerate() {
        if i == 8 || i == 15 {
            assert_eq!(c, '_');
        } else {
            assert!(c.is_ascii_digit());
        }
    }
}

#[test]
fn epoch_formats_as_year_1970() {
    assert_eq!(format_timestamp(0, 0), "19700000_000000_000");
}

#[test]
fn known_instant_formats_exactly() {
    // 1234567890 s = 39 fixed years + 1 fixed month + 23 days + 23:31:30.
    assert_eq!(format_timestamp(1234567890, 987654321), "20090123_233130_987");
}

#[test]
fn month_field_can_reach_twelve() {
    // 12 fixed months of 30 days exceed nothing within the fixed 365-day year.
    assert_eq!(format_timestamp(31104000, 0), "19701200_000000_000");
}

#[test]
fn nanoseconds_truncate_to_milliseconds() {
    assert_eq!(format_timestamp(0, 999999999), "19700000_000000_999");
    assert_eq!(format_timestamp(0, 1000000), "19700000_000000_001");
    assert_eq!(format_timestamp(0, 999999), "19700000_000000_000");
}

#[test]
fn last_second_of_year_9999_keeps_the_shape() {
    let s = format_timestamp(253234079999, 999999999);
    assert_timestamp_shape(&s);
    assert_eq!(s, "99991204_235959_999");
}

#[test]
fn formatted_instants_have_the_fixed_shape() {
    assert_timestamp_shape(&format_timestamp(0, 0));
    assert_timestamp_shape(&format_timestamp(1234567890, 987654321));
    assert_timestamp_shape(&format_timestamp(86400 * 45, 1));
    assert_timestamp_shape(&format_timestamp(253234079999, 0));
}

#[test]
fn the_clock_reading_has_the_fixed_shape() {
    let s = get_timestamp();
    assert_timestamp_shape(&s);
    // The wall clock stands well past 2020 and well before the year 10000.
    assert!(s.as_str() > "20200101_000000_000");
    assert!(s.as_str() < "99991204_235959_999");
}
