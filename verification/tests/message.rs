use error_log::{Entries, EntriesExt, Entry, ErrorLog, LevelFilter};
use std::num::ParseIntError;

#[test]
fn no_filter() {
    test_message(
        None,
        vec![
            Entry::new_message(LevelFilter::Error, String::from("error")),
            Entry::new_message(LevelFilter::Warn, String::from("warn")),
            Entry::new_message(LevelFilter::Info, String::from("info")),
            Entry::new_message(LevelFilter::Debug, String::from("debug")),
            Entry::new_message(LevelFilter::Trace, String::from("trace")),
        ],
    )
}

#[test]
fn messages_max_level() {
    test_message(
        Some(LevelFilter::Warn),
        vec![
            Entry::new_message(LevelFilter::Error, String::from("error")),
            Entry::new_message(LevelFilter::Warn, String::from("warn")),
        ],
    )
}

fn test_message(max_level: Option<LevelFilter>, expected: Entries<ParseIntError>) {
    let mut err_log = ErrorLog::<i32, ParseIntError>::new();
    if let Some(max) = max_level {
        err_log.max_level(max);
    }
    err_log.push_message(LevelFilter::Error, format!("error"));
    err_log.push_message(LevelFilter::Warn, format!("warn"));
    err_log.push_message(LevelFilter::Info, format!("info"));
    err_log.push_message(LevelFilter::Debug, format!("debug"));
    err_log.push_message(LevelFilter::Trace, format!("trace"));
    assert_eq!(
        expected.clear_timestamps(),
        err_log.entries_cloned().clear_timestamps()
    );
    assert!(err_log.display_ok().0.is_none());
}
