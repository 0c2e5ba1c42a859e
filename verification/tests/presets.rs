use error_log::presets::{dialog_kind, dialog_line, log_line, println_line, DialogKind};
use error_log::{format_unix_timestamp, FormatMode, LevelFilter};

#[test]
fn timestamps_are_written_as_rfc3339_in_utc() {
    assert_eq!(format_unix_timestamp(0), Some("1970-01-01T00:00:00Z".to_string()));
    assert_eq!(format_unix_timestamp(1_546_300_800), Some("2019-01-01T00:00:00Z".to_string()));
    assert_eq!(format_unix_timestamp(-1), Some("1969-12-31T23:59:59Z".to_string()));
    assert_eq!(format_unix_timestamp(951_827_696), Some("2000-02-29T12:34:56Z".to_string()));
}

#[test]
fn timestamps_outside_four_digit_years_have_no_text() {
    assert_eq!(format_unix_timestamp(-62_167_219_200), Some("0000-01-01T00:00:00Z".to_string()));
    assert_eq!(format_unix_timestamp(-62_167_219_201), None);
    assert_eq!(format_unix_timestamp(253_402_300_799), Some("9999-12-31T23:59:59Z".to_string()));
    assert_eq!(format_unix_timestamp(253_402_300_800), None);
    assert_eq!(format_unix_timestamp(i64::MAX), None);
    assert_eq!(format_unix_timestamp(i64::MIN), None);
}

#[test]
fn a_line_for_standard_output() {
    assert_eq!(
        println_line(LevelFilter::Warn, 0, "disk is full"),
        Some("WARN 1970-01-01T00:00:00Z: disk is full".to_string())
    );
    assert_eq!(
        println_line(LevelFilter::Error, 1_546_300_800, ""),
        Some("ERROR 2019-01-01T00:00:00Z: ".to_string())
    );
    assert_eq!(println_line(LevelFilter::Error, i64::MAX, "x"), None);
}

#[test]
fn a_line_for_the_logging_facade() {
    assert_eq!(log_line(0, "disk is full"), Some("1970-01-01T00:00:00Z disk is full".to_string()));
    assert_eq!(log_line(i64::MIN, "x"), None);
}

#[test]
fn a_text_for_a_dialog() {
    assert_eq!(
        dialog_line(0, "disk is full"),
        Some("1970-01-01T00:00:00Z: disk is full".to_string())
    );
    assert_eq!(dialog_line(i64::MAX, "x"), None);
}

#[test]
fn the_kind_of_a_dialog_goes_by_severity() {
    assert_eq!(dialog_kind(LevelFilter::Off), None);
    assert_eq!(dialog_kind(LevelFilter::Error), Some(DialogKind::Error));
    assert_eq!(dialog_kind(LevelFilter::Warn), Some(DialogKind::Warning));
    assert_eq!(dialog_kind(LevelFilter::Info), Some(DialogKind::Info));
    assert_eq!(dialog_kind(LevelFilter::Debug), Some(DialogKind::Info));
    assert_eq!(dialog_kind(LevelFilter::Trace), Some(DialogKind::Info));
}

#[test]
fn levels_are_ordered_by_verbosity() {
    let levels = [
        LevelFilter::Off,
        LevelFilter::Error,
        LevelFilter::Warn,
        LevelFilter::Info,
        LevelFilter::Debug,
        LevelFilter::Trace,
    ];
    for (i, low) in levels.iter().enumerate() {
        assert_eq!(low.verbosity() as usize, i);
        for (j, high) in levels.iter().enumerate() {
            assert_eq!(low < high, i < j);
            assert_eq!(low <= high, i <= j);
            assert_eq!(low == high, i == j);
            assert_eq!(low.cmp(high), i.cmp(&j));
            assert_eq!(low.partial_cmp(high), Some(i.cmp(&j)));
        }
    }
}

#[test]
fn levels_have_upper_case_names() {
    assert_eq!(LevelFilter::Off.as_str(), "OFF");
    assert_eq!(LevelFilter::Error.as_str(), "ERROR");
    assert_eq!(LevelFilter::Warn.as_str(), "WARN");
    assert_eq!(LevelFilter::Info.as_str(), "INFO");
    assert_eq!(LevelFilter::Debug.as_str(), "DEBUG");
    assert_eq!(LevelFilter::Trace.as_str(), "TRACE");
}

#[test]
fn the_default_format_mode_is_normal() {
    assert_eq!(FormatMode::default(), FormatMode::Normal);
}
