use filedrop::calendar::{format_timestamp, Civil};
use filedrop::decimal::{parse_bounded, push_int, push_nat};
use filedrop::file::FileInfo;
use filedrop::size::{format_size, Unit};

fn info_of_len(len: Option<i64>) -> FileInfo {
    FileInfo::new(1, "a".to_string(), len, None)
}

#[test]
fn size_of_five_megabytes() {
    assert_eq!(info_of_len(Some(5_127_123)).size_formatted(), "5.1 MB");
}

#[test]
fn size_below_a_kilobyte_is_in_bytes() {
    assert_eq!(info_of_len(Some(999)).size_formatted(), "999 B");
}

#[test]
fn size_equal_to_a_threshold_stays_in_the_lower_unit() {
    assert_eq!(info_of_len(Some(1000)).size_formatted(), "1000 B");
    assert_eq!(info_of_len(Some(1_000_000)).size_formatted(), "1000 kB");
    assert_eq!(info_of_len(Some(1_000_000_000)).size_formatted(), "1000 MB");
}

#[test]
fn size_just_over_a_megabyte_has_no_fraction() {
    assert_eq!(info_of_len(Some(1_000_001)).size_formatted(), "1 MB");
}

#[test]
fn size_unknown_is_empty() {
    assert_eq!(info_of_len(None).size_formatted(), "");
}

#[test]
fn size_units_and_rounding() {
    assert_eq!(format_size(Some(0)), "0 B");
    assert_eq!(format_size(Some(1)), "1 B");
    assert_eq!(format_size(Some(1001)), "1 kB");
    assert_eq!(format_size(Some(1049)), "1 kB");
    assert_eq!(format_size(Some(1050)), "1.1 kB");
    assert_eq!(format_size(Some(1150)), "1.2 kB");
    assert_eq!(format_size(Some(2700)), "2.7 kB");
    assert_eq!(format_size(Some(999_949)), "999.9 kB");
    assert_eq!(format_size(Some(999_950)), "1000 kB");
    assert_eq!(format_size(Some(1_950_000)), "2 MB");
    assert_eq!(format_size(Some(1_000_000_001)), "1 GB");
    assert_eq!(format_size(Some(1_500_000_000)), "1.5 GB");
    assert_eq!(format_size(Some(i64::MAX)), "9223372036.9 GB");
    assert_eq!(format_size(Some(5_000_000_000_049_999_999)), "5000000000 GB");
    assert_eq!(format_size(Some(5_000_000_000_050_000_000)), "5000000000.1 GB");
    assert_eq!(format_size(Some(-5)), "-5 B");
    assert_eq!(format_size(Some(i64::MIN)), "-9223372036854775808 B");
}

#[test]
fn size_agrees_with_floating_point_rounding() {
    let mut n: i64 = 1;
    while n < 4_000_000_000_000 {
        let (div, unit) = if n > 1_000_000_000 {
            (1_000_000_000, "GB")
        } else if n > 1_000_000 {
            (1_000_000, "MB")
        } else if n > 1_000 {
            (1_000, "kB")
        } else {
            (1, "B")
        };
        let size = (n as f64 / div as f64 * 10.0).round() / 10.0;
        assert_eq!(format_size(Some(n)), format!("{} {}", size, unit));
        n = n + n / 7 + 13;
    }
}

#[test]
fn unit_selection_is_strict() {
    assert_eq!(Unit::select(1_000), Unit::Byte);
    assert_eq!(Unit::select(1_001), Unit::Kilo);
    assert_eq!(Unit::select(1_000_000), Unit::Kilo);
    assert_eq!(Unit::select(1_000_001), Unit::Mega);
    assert_eq!(Unit::select(1_000_000_000), Unit::Mega);
    assert_eq!(Unit::select(1_000_000_001), Unit::Giga);
    let mut s = String::from("x");
    Unit::Kilo.push_symbol(&mut s);
    assert_eq!(s, "xkB");
}

#[test]
fn integers_are_written_in_decimal() {
    let mut s = String::new();
    push_nat(&mut s, 0);
    push_nat(&mut s, 7);
    push_nat(&mut s, 10);
    push_nat(&mut s, u64::MAX);
    assert_eq!(s, "071018446744073709551615");
    let mut t = String::from("id ");
    push_int(&mut t, -42);
    push_int(&mut t, 0);
    push_int(&mut t, i64::MIN);
    push_int(&mut t, i64::MAX);
    assert_eq!(t, "id -420-92233720368547758089223372036854775807");
}

#[test]
fn numbers_are_read_as_the_standard_library_reads_them() {
    let texts = [
        "", "0", "7", "+7", "-7", "+", "-", "++7", "+-7", "007", "65535", "65536", "0065535", " 7",
        "7 ", "7a", "a7", "1_000", "٣", "12345678901234567890123", "18446744073709551615",
        "18446744073709551616", "+0", "0x10", "1e3", "１２",
    ];
    for text in texts {
        assert_eq!(parse_bounded(text, 65_535), text.parse::<u16>().ok().map(u64::from), "{text:?}");
        assert_eq!(parse_bounded(text, u64::MAX), text.parse::<u64>().ok(), "{text:?}");
    }
    assert_eq!(parse_bounded("10", 9), None);
    assert_eq!(parse_bounded("9", 9), Some(9));
    assert_eq!(parse_bounded("0", 0), Some(0));
}

#[test]
fn timestamps_are_written_in_the_fixed_form() {
    assert_eq!(format_timestamp(0).as_deref(), Some("1970-01-01 00:00:00"));
    assert_eq!(format_timestamp(-1).as_deref(), Some("1969-12-31 23:59:59"));
    assert_eq!(format_timestamp(86_399).as_deref(), Some("1970-01-01 23:59:59"));
    assert_eq!(format_timestamp(951_782_400).as_deref(), Some("2000-02-29 00:00:00"));
    assert_eq!(format_timestamp(951_868_800).as_deref(), Some("2000-03-01 00:00:00"));
    assert_eq!(format_timestamp(1_700_000_000).as_deref(), Some("2023-11-14 22:13:20"));
    assert_eq!(format_timestamp(4_107_542_399).as_deref(), Some("2100-02-28 23:59:59"));
    assert_eq!(format_timestamp(4_107_542_400).as_deref(), Some("2100-03-01 00:00:00"));
    assert_eq!(format_timestamp(-2_208_988_800).as_deref(), Some("1900-01-01 00:00:00"));
}

#[test]
fn timestamps_outside_the_calendar_have_no_text() {
    assert_eq!(format_timestamp(-62_167_219_200).as_deref(), Some("0000-01-01 00:00:00"));
    assert_eq!(format_timestamp(-62_167_219_201), None);
    assert_eq!(format_timestamp(253_402_300_799).as_deref(), Some("9999-12-31 23:59:59"));
    assert_eq!(format_timestamp(253_402_300_800), None);
    assert_eq!(format_timestamp(i64::MIN), None);
    assert_eq!(format_timestamp(i64::MAX), None);
}

#[test]
fn calendar_days_follow_one_another() {
    let lengths = [31u8, 28, 31, 30, 31, 30, 31, 31, 30, 31, 30, 31];
    let mut epoch: i64 = -62_167_219_200 + 12 * 3600 + 34 * 60 + 56;
    for year in 0u16..=9999 {
        let leap = year % 4 == 0 && (year % 100 != 0 || year % 400 == 0);
        for month in 1u8..=12 {
            let length = if month == 2 && leap { 29 } else { lengths[(month - 1) as usize] };
            for day in [1u8, length] {
                let at = epoch + (day as i64 - 1) * 86_400;
                let civil = Civil::from_epoch(at).unwrap();
                assert_eq!(
                    civil,
                    Civil { year, month, day, hour: 12, minute: 34, second: 56 }
                );
            }
            epoch += length as i64 * 86_400;
        }
    }
    assert_eq!(epoch, 253_402_300_800 + 12 * 3600 + 34 * 60 + 56);
    let civil = Civil { year: 2024, month: 2, day: 29, hour: 1, minute: 2, second: 3 };
    assert_eq!(civil.to_text(), "2024-02-29 01:02:03");
}

#[test]
fn listing_line_gives_back_what_it_was_made_of() {
    let with_time = FileInfo::new(7, "a b.txt".to_string(), Some(12), Some(1_704_164_645));
    assert_eq!(with_time.id(), 7);
    assert_eq!(with_time.name(), "a b.txt");
    assert_eq!(with_time.modified(), "2024-01-02 03:04:05");
    assert_eq!(with_time.size_formatted(), "12 B");
    let without = FileInfo::new(-3, String::new(), None, None);
    assert_eq!(without.id(), -3);
    assert_eq!(without.name(), "");
    assert_eq!(without.modified(), "");
    assert_eq!(without.size_formatted(), "");
    let beyond = FileInfo::new(1, String::new(), Some(1), Some(253_402_300_800));
    assert_eq!(beyond.modified(), "");
}
