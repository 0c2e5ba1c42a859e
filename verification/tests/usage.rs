use error_log::ErrorLog;
use std::num::ParseIntError;

#[test]
fn usage() {
    let out = run();
    assert_eq!(out.ok(), &Some(123));
    assert!(!out.entries().is_empty());
    // Get the number; the errors are rendered on the way.
    let (num, rendered): (i32, _) = out.display_unwrap();
    assert_eq!(rendered.len(), 2);
    println!("Out: {}", num);
}

fn run() -> ErrorLog<i32, ParseIntError> {
    let mut err_log = ErrorLog::new();
    // Add the potential error of a function.
    err_log.push_result(task());
    assert_eq!(err_log.entries().len(), 1);
    // A success would become the success value; this is a failure.
    err_log.merge_result("ab123".parse::<i32>());
    assert_eq!(err_log.ok(), &None);
    // Set the success value.
    err_log.set_ok(123);
    assert_eq!(err_log.ok(), &Some(123));
    assert_eq!(err_log.entries().len(), 2);
    err_log
}

fn task() -> Result<(), ParseIntError> {
    let num: i32 = "a17".parse()?;
    println!("{}", num * 2);
    Ok(())
}

#[test]
fn manuelly_add_no_std_error() {
    let err_log = ErrorLog::<i32, String>::new();
    assert!(err_log.display_ok().0.is_none());
}

#[test]
fn shorthand_operators() {
    let mut err_log = ErrorLog::<i32, ParseIntError>::new();
    err_log += task();
    assert_eq!(err_log.entries().len(), 1);
    err_log += "x".parse::<i32>().unwrap_err();
    assert_eq!(err_log.entries().len(), 2);
    err_log *= "42".parse::<i32>();
    err_log *= "a42".parse::<i32>();
    assert_eq!(*err_log, Some(42));
    assert_eq!(err_log.entries().len(), 3);
    err_log *= Some(7);
    assert_eq!(*err_log, Some(7));
    err_log *= None::<i32>;
    assert_eq!(*err_log, Some(7));
    *err_log.ok_mut() = Some(123);
    assert_eq!(err_log.ok(), &Some(123));
}

#[test]
fn manually_added_error_is_stored() {
    let mut err_log = ErrorLog::<i32, String>::new();
    err_log += String::from("Manually added error");
    assert_eq!(err_log.entries().len(), 1);
    assert!(err_log.display_ok().0.is_none());
}

#[test]
fn deref_reads_the_success_value() {
    let mut out = ErrorLog::<i32, ParseIntError>::new();
    assert_eq!(0, out.entries().len());
    out *= "ab12".parse::<i32>();
    assert_eq!(*out, None);
    assert_eq!(1, out.entries().len());
}

#[test]
fn into_iter_goes_through_all_entries() {
    let mut err_log = ErrorLog::<i32, String>::new();
    err_log.max_level(error_log::LevelFilter::Off);
    err_log.push_err("first");
    err_log.push_message(error_log::LevelFilter::Info, "second");
    let levels: Vec<_> = err_log.into_iter().map(|e| e.get_level()).collect();
    assert_eq!(levels, vec![error_log::LevelFilter::Error, error_log::LevelFilter::Info]);
}
