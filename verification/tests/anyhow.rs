use anyhow::Context;
use error_log::presets::ErrorLogAnyhow;
use error_log::{FormatMode, Output};

#[test]
fn anyhow() {
    let mut err_log = ErrorLogAnyhow::<String>::new_anyhow();
    err_log += "abc".parse::<i32>().context("Error");
    assert_eq!(err_log.entries().len(), 1);
    assert!(err_log.display_ok().0.is_none());
}

#[test]
fn anyhow_log_renders_the_chain_of_causes() {
    let mut err_log = ErrorLogAnyhow::<String>::new_anyhow();
    assert_eq!(err_log.get_format_mode(), &FormatMode::Debug);
    err_log.push_result("abc".parse::<i32>().context("Error"));
    let (_, rendered) = err_log.display_ok();
    assert_eq!(rendered.len(), 1);
    match &rendered[0] {
        Output::Record { text, .. } => {
            assert!(text.starts_with("Error"));
            assert!(text.contains("Caused by"));
            assert!(text.contains("invalid digit found in string"));
        }
        Output::Delimiter(_) => panic!("a record was expected"),
    }
}
