use error_log::{Entries, EntriesExt, Entry, EntryContent, ErrorLog, LevelFilter};
use std::num::ParseIntError;

fn message(level: LevelFilter, text: &str) -> EntryContent<String> {
    EntryContent::Message { level, message: text.to_string() }
}

fn error(text: &str) -> EntryContent<String> {
    EntryContent::Error(text.to_string())
}

fn contents(entries: &Entries<String>) -> Vec<&EntryContent<String>> {
    entries.iter().map(|entry| &entry.content).collect()
}

fn mixed() -> ErrorLog<i32, String> {
    let mut log = ErrorLog::new();
    log.push_message(LevelFilter::Error, "error");
    log.push_err("first");
    log.push_message(LevelFilter::Warn, "warn");
    log.push_message(LevelFilter::Info, "info");
    log.push_err("second");
    log.push_message(LevelFilter::Debug, "debug");
    log.push_message(LevelFilter::Trace, "trace");
    log
}

#[test]
fn a_new_log_is_empty() {
    let log = ErrorLog::<i32, String>::new();
    assert!(log.entries().is_empty());
    assert_eq!(log.ok(), &None);
    assert_eq!(log.get_max_level(), &LevelFilter::Trace);
    assert!(!log.get_instant_display());
    assert!(log.rendered().is_empty());
    assert_eq!(log, ErrorLog::default());
}

#[test]
fn pushed_errors_are_counted() {
    let mut log = ErrorLog::<i32, String>::new();
    for n in 0..25 {
        log.push_err(format!("error {n}"));
        assert_eq!(log.entries().len(), n + 1);
    }
    assert_eq!(log.ok(), &None);
    assert_eq!(log.display_ok().0, None);
}

#[test]
fn push_result_passes_a_success_through() {
    let mut log = mixed();
    let before = log.entries_cloned();
    assert_eq!(log.push_result::<u8, String>(Ok(5)), Some(5));
    assert_eq!(log.entries(), &before);
    assert_eq!(log.ok(), &None);
}

#[test]
fn push_result_stores_one_error() {
    let mut log = mixed();
    assert_eq!(log.push_result::<u8, &str>(Err("third")), None);
    assert_eq!(log.entries().len(), 8);
    assert_eq!(log.entries()[7].content, error("third"));
    assert_eq!(log.entries()[7].get_level(), LevelFilter::Error);
}

#[test]
fn merge_result_keeps_the_last_success_and_every_error() {
    let mut log = ErrorLog::<i32, String>::new();
    assert!(log.merge_result::<i32, String>(Ok(1)));
    assert!(!log.merge_result::<i32, &str>(Err("a")));
    assert!(log.merge_result::<i32, String>(Ok(2)));
    assert!(!log.merge_result::<i32, &str>(Err("b")));
    assert!(log.merge_result::<i32, String>(Ok(3)));
    assert!(!log.merge_result::<i32, &str>(Err("c")));
    assert_eq!(log.ok(), &Some(3));
    assert_eq!(log.errors_cloned(), vec!["a", "b", "c"]);
}

#[test]
fn merge_result_converts_the_value() {
    let mut log = ErrorLog::<i64, String>::new();
    assert!(log.merge_result::<i32, String>(Ok(-4)));
    assert_eq!(log.ok(), &Some(-4i64));
}

#[test]
fn parse_failure_then_success() {
    let mut log = ErrorLog::<i32, ParseIntError>::new();
    assert_eq!(log.push_result("abc".parse::<i32>()), None);
    assert!(log.merge_result("123".parse::<i32>()));
    assert_eq!(log.entries().len(), 1);
    assert!(matches!(log.entries()[0].content, EntryContent::Error(_)));
    assert_eq!(log.ok(), &Some(123));
}

#[test]
fn messages_are_stored_whatever_the_threshold() {
    let mut log = ErrorLog::<i32, String>::new();
    log.max_level(LevelFilter::Off);
    log.push_message(LevelFilter::Trace, "trace");
    assert_eq!(log.entries().len(), 1);
    assert_eq!(log.entries()[0].content, message(LevelFilter::Trace, "trace"));
    assert_eq!(log.entries()[0].get_level(), LevelFilter::Trace);
}

#[test]
fn threshold_warn_shows_errors_and_warnings() {
    let mut log = ErrorLog::<i32, String>::new();
    log.max_level(LevelFilter::Warn);
    log.push_message(LevelFilter::Error, "error");
    log.push_message(LevelFilter::Warn, "warn");
    log.push_message(LevelFilter::Info, "info");
    log.push_message(LevelFilter::Debug, "debug");
    log.push_message(LevelFilter::Trace, "trace");
    let shown = log.entries_cloned();
    assert_eq!(
        contents(&shown),
        vec![&message(LevelFilter::Error, "error"), &message(LevelFilter::Warn, "warn")]
    );
    assert_eq!(log.entries().len(), 5);
}

#[test]
fn a_lower_threshold_shows_a_part_of_what_a_higher_shows() {
    let levels = [
        LevelFilter::Off,
        LevelFilter::Error,
        LevelFilter::Warn,
        LevelFilter::Info,
        LevelFilter::Debug,
        LevelFilter::Trace,
    ];
    let mut log = mixed();
    let mut before: Vec<Entry<String>> = Vec::new();
    for level in levels {
        log.max_level(level);
        let shown = log.entries_cloned();
        let mut rest = shown.iter();
        assert!(before.iter().all(|entry| rest.any(|other| other == entry)));
        assert!(shown.iter().any(|entry| entry.content == error("first")));
        assert!(shown.iter().any(|entry| entry.content == error("second")));
        before = shown;
    }
    assert_eq!(before.len(), 7);
    log.max_level(LevelFilter::Off);
    assert_eq!(contents(&log.entries_cloned()), vec![&error("first"), &error("second")]);
}

#[test]
fn entries_owned_empties_the_log_and_drops_what_is_hidden() {
    let mut log = mixed();
    log.max_level(LevelFilter::Warn);
    log.set_ok(1);
    let taken = log.entries_owned();
    assert_eq!(
        contents(&taken),
        vec![
            &message(LevelFilter::Error, "error"),
            &error("first"),
            &message(LevelFilter::Warn, "warn"),
            &error("second"),
        ]
    );
    assert_eq!(log.entries().len(), 0);
    assert_eq!(log.ok(), &Some(1));
    log.max_level(LevelFilter::Trace);
    assert!(log.entries_owned().is_empty());
    assert!(log.entries_cloned().is_empty());
}

#[test]
fn filter_entries_goes_by_the_threshold_of_the_log() {
    let mut log = ErrorLog::<i32, String>::new();
    log.max_level(LevelFilter::Info);
    let mut entries = mixed().entries_owned();
    log.filter_entries(&mut entries);
    assert_eq!(entries.len(), 5);
    log.filter_entries(&mut entries);
    assert_eq!(entries.len(), 5);
    log.max_level(LevelFilter::Off);
    log.filter_entries(&mut entries);
    assert_eq!(contents(&entries), vec![&error("first"), &error("second")]);
}

#[test]
fn errors_cloned_ignores_the_threshold() {
    let mut log = mixed();
    log.max_level(LevelFilter::Off);
    assert_eq!(log.errors_cloned(), vec!["first", "second"]);
    assert!(ErrorLog::<i32, String>::new().errors_cloned().is_empty());
}

#[test]
fn messages_clone_gives_the_visible_messages() {
    let mut log = mixed();
    log.max_level(LevelFilter::Info);
    let messages = log.messages_clone();
    assert_eq!(
        contents(&messages),
        vec![
            &message(LevelFilter::Error, "error"),
            &message(LevelFilter::Warn, "warn"),
            &message(LevelFilter::Info, "info"),
        ]
    );
    assert_eq!(log.entries().len(), 7);
    log.max_level(LevelFilter::Off);
    assert!(log.messages_clone().is_empty());
}

#[test]
fn messages_owned_gives_the_visible_messages() {
    let mut log = mixed();
    log.max_level(LevelFilter::Debug);
    let messages = log.messages_owned();
    assert_eq!(
        contents(&messages),
        vec![
            &message(LevelFilter::Error, "error"),
            &message(LevelFilter::Warn, "warn"),
            &message(LevelFilter::Info, "info"),
            &message(LevelFilter::Debug, "debug"),
        ]
    );
}

#[test]
fn append_entries_keeps_both_orders() {
    let mut first = ErrorLog::<i32, String>::new();
    first.push_err("a");
    first.push_err("b");
    let mut second = ErrorLog::<String, String>::new();
    second.push_err("c");
    second.push_err("d");
    second.set_ok("kept");
    first.append_entries(&mut second);
    assert_eq!(first.errors_cloned(), vec!["a", "b", "c", "d"]);
    assert!(second.entries().is_empty());
    assert_eq!(second.ok(), &Some("kept".to_string()));
    assert_eq!(first.ok(), &None);
}

#[test]
fn append_errors_keeps_both_orders() {
    let mut first = ErrorLog::<i32, String>::new();
    first.instant_display(true);
    let mut second = ErrorLog::<i32, String>::new();
    second.push_err("c");
    first.append_errors(&mut second);
    assert_eq!(first.errors_cloned(), vec!["c"]);
    assert!(second.entries().is_empty());
    assert!(first.rendered().is_empty());
}

#[test]
fn prepend_entries_puts_the_others_first() {
    let mut first = ErrorLog::<i32, String>::new();
    first.push_err("a");
    first.push_err("b");
    let mut second = ErrorLog::<i32, String>::new();
    second.push_err("c");
    second.push_err("d");
    first.prepend_entries(&mut second);
    assert_eq!(first.errors_cloned(), vec!["c", "d", "a", "b"]);
    assert!(second.entries().is_empty());
}

#[test]
fn clear_entries_keeps_the_success_value() {
    let mut log = mixed();
    log.set_ok(3);
    log.clear_entries();
    assert!(log.entries().is_empty());
    assert_eq!(log.ok(), &Some(3));
}

#[test]
fn the_success_value_can_be_set_taken_and_cleared() {
    let mut log = mixed();
    assert_eq!(log.ok_take(), None);
    log.set_ok(1).set_ok(2);
    assert_eq!(log.ok(), &Some(2));
    assert_eq!(log.ok_take(), Some(2));
    assert_eq!(log.ok(), &None);
    log.set_ok(3);
    log.clear_ok();
    assert_eq!(log.ok(), &None);
    *log.ok_mut() = Some(4);
    assert_eq!(log.entries().len(), 7);
    assert_eq!(log.ok_discard_err(), Some(4));
}

#[test]
fn map_error_log_hands_the_log_over() {
    let mut log = mixed();
    log.set_ok(3);
    let mapped: ErrorLog<String, usize> = log.map_error_log(|old| {
        let mut new = ErrorLog::new();
        for err in old.errors_cloned() {
            new.push_err(err.len());
        }
        if let Some(value) = old.ok_discard_err() {
            new.set_ok(value.to_string());
        }
        new
    });
    assert_eq!(mapped.errors_cloned(), vec![5, 6]);
    assert_eq!(mapped.ok(), &Some("3".to_string()));
    let same: ErrorLog<i32, String> = mixed().map(|old| old);
    assert_eq!(same.entries().len(), 7);
}

#[test]
fn max_level_debug_goes_by_the_kind_of_build() {
    let mut log = ErrorLog::<i32, String>::new();
    log.max_level_debug(LevelFilter::Warn, LevelFilter::Debug, true);
    assert_eq!(log.get_max_level(), &LevelFilter::Debug);
    log.max_level_debug(LevelFilter::Warn, LevelFilter::Debug, false);
    assert_eq!(log.get_max_level(), &LevelFilter::Warn);
}

#[test]
fn entries_are_stamped_with_the_present() {
    let before = 1_600_000_000;
    let entry = Entry::<String>::new_error("late".to_string());
    assert!(entry.timestamp > before);
    assert_eq!(entry.content, error("late"));
    let entry = Entry::<String>::new_message(LevelFilter::Info, "now".to_string());
    assert!(entry.timestamp > before);
    assert_eq!(entry.content, message(LevelFilter::Info, "now"));
    let mut log = ErrorLog::<i32, String>::new();
    log.push_err("x");
    assert!(log.entries()[0].timestamp > before);
}

#[test]
fn an_entry_can_be_made_for_a_given_time() {
    let entry = Entry::at(error("x"), -5);
    assert_eq!(entry.timestamp, -5);
    assert_eq!(entry.content, error("x"));
    assert_eq!(entry.get_level(), LevelFilter::Error);
    assert_eq!(Entry::at(message(LevelFilter::Off, "x"), 0).get_level(), LevelFilter::Off);
}

#[test]
fn clear_timestamps_sets_every_time_to_zero() {
    let entries: Entries<String> =
        vec![Entry::at(error("a"), 5), Entry::at(message(LevelFilter::Info, "b"), -7)];
    let cleared = entries.clear_timestamps();
    assert_eq!(cleared, vec![Entry::at(error("a"), 0), Entry::at(message(LevelFilter::Info, "b"), 0)]);
    assert!(Entries::<String>::new().clear_timestamps().is_empty());
}

#[test]
fn a_cloned_entry_is_equal() {
    let entry = Entry::at(error("a"), 5);
    assert_eq!(entry.clone(), entry);
    let entry = Entry::at(message(LevelFilter::Debug, "b"), 6);
    assert_eq!(entry.clone(), entry);
    assert_eq!(entry.content.clone(), message(LevelFilter::Debug, "b"));
}

#[test]
fn take_rendered_empties_the_queue() {
    let mut log = mixed();
    log.display_take();
    assert_eq!(log.take_rendered().len(), 7);
    assert!(log.take_rendered().is_empty());
    assert_eq!(log.entries().len(), 7);
}

#[test]
fn an_error_converts_into_an_entry() {
    let entry: Entry<String> = "x".to_string().into();
    assert_eq!(entry.content, error("x"));
    assert!(entry.timestamp > 1_600_000_000);
}

#[test]
fn a_cloned_log_is_equal() {
    let mut log = mixed();
    log.set_ok(5);
    log.delimiter("; ");
    log.max_level(LevelFilter::Info);
    log.join_on_display(true);
    log.display_take();
    log.set_ok(6);
    let copy = log.clone();
    assert_eq!(copy, log);
    assert_eq!(copy.ok(), &Some(6));
    assert_eq!(copy.rendered().len(), 1);
    assert_eq!(copy.entries().len(), 7);
}
