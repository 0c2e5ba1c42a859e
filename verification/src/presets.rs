//! Ready-made settings: the choice of a sink, what each sink makes of a
//! record, and a log for `anyhow` errors.

use crate::helper::{format_unix_timestamp, rfc3339_utc};
use crate::{DisplayFn, ErrorLog, FormatMode, LevelFilter, LogView};
use std::fmt::Debug;
use vstd::prelude::*;
use vstd::string::StringExecFns;

verus! {

/// `anyhow::Error`: an error of any kind with its chain of causes. Nothing
/// is read from it here.
#[verifier::external_type_specification]
#[verifier::external_body]
pub struct ExAnyhowError(anyhow::Error);

/// A log whose failures are `anyhow` errors.
pub type ErrorLogAnyhow<T> = ErrorLog<T, anyhow::Error>;

impl<T: Debug> ErrorLog<T, anyhow::Error> {
    /// An empty log that renders failures in their debug form, which for an
    /// `anyhow` error holds the chain of causes.
    pub fn new_anyhow() -> (r: Self)
        ensures
            r@ == (LogView { format_mode: FormatMode::Debug, ..LogView::<T, anyhow::Error>::empty() }),
    {
        let mut out = Self::new();
        out.display_mode(FormatMode::Debug);
        out
    }
}

impl<T, E> ErrorLog<T, E> {
    /// Chooses the logging facade as the sink.
    pub fn display_fn_log(&mut self) -> (r: &mut Self)
        ensures
            r@ == (LogView { display_fn: DisplayFn::Log, ..old(self)@ }),
            *final(self) == *final(r),
    {
        self.set_print_fn(DisplayFn::Log)
    }

    /// Chooses standard output as the sink, as a new log has it.
    pub fn display_fn_println(&mut self) -> (r: &mut Self)
        ensures
            r@ == (LogView { display_fn: DisplayFn::Println, ..old(self)@ }),
            *final(self) == *final(r),
    {
        self.set_print_fn(DisplayFn::Println)
    }

    /// Chooses message dialogs as the sink.
    pub fn display_fn_native_dialog(&mut self) -> (r: &mut Self)
        ensures
            r@ == (LogView { display_fn: DisplayFn::NativeDialog, ..old(self)@ }),
            *final(self) == *final(r),
    {
        self.set_print_fn(DisplayFn::NativeDialog)
    }
}

/// The kind of a message dialog.
#[derive(Debug, Clone, Copy, PartialEq, Eq, Hash, Structural)]
pub enum DialogKind {
    /// For a failure.
    Error,
    /// For a hazard.
    Warning,
    /// For anything less severe.
    Info,
}

/// The characters of `stamp`, then those of `separator`, then those of
/// `text`.
pub open spec fn stamped(stamp: Seq<char>, separator: Seq<char>, text: Seq<char>) -> Seq<char> {
    stamp + separator + text
}

/// The line that standard output gets for a record: the name of the
/// severity, a blank, the time as text, a colon with a blank, the text.
pub open spec fn println_text(level: LevelFilter, timestamp: i64, text: Seq<char>) -> Option<
    Seq<char>,
> {
    match rfc3339_utc(timestamp) {
        Some(stamp) => Some(level.name() + " "@ + stamp + ": "@ + text),
        None => None,
    }
}

/// The line that the logging facade gets for a record: the time as text, a
/// blank, the text.
pub open spec fn log_text(timestamp: i64, text: Seq<char>) -> Option<Seq<char>> {
    match rfc3339_utc(timestamp) {
        Some(stamp) => Some(stamped(stamp, " "@, text)),
        None => None,
    }
}

/// The text that a message dialog gets for a record: the time as text, a
/// colon with a blank, the text.
pub open spec fn dialog_text(timestamp: i64, text: Seq<char>) -> Option<Seq<char>> {
    match rfc3339_utc(timestamp) {
        Some(stamp) => Some(stamped(stamp, ": "@, text)),
        None => None,
    }
}

fn stamp_text(timestamp: i64, separator: &str, text: &str) -> (r: Option<String>)
    ensures
        match rfc3339_utc(timestamp) {
            Some(stamp) => r is Some && r->Some_0@ == stamped(stamp, separator@, text@),
            None => r is None,
        },
{
    match format_unix_timestamp(timestamp) {
        Some(stamp) => {
            let mut line = stamp;
            line.append(separator);
            line.append(text);
            Some(line)
        },
        None => None,
    }
}

/// The line that standard output gets for a record; `None` where the time
/// has no text.
pub fn println_line(level: LevelFilter, timestamp: i64, text: &str) -> (r: Option<String>)
    ensures
        r is Some <==> println_text(level, timestamp, text@) is Some,
        r is Some ==> r->Some_0@ == println_text(level, timestamp, text@)->Some_0,
{
    match format_unix_timestamp(timestamp) {
        Some(stamp) => {
            let mut line = String::from(level.as_str());
            line.append(" ");
            line.append(stamp.as_str());
            line.append(": ");
            line.append(text);
            Some(line)
        },
        None => None,
    }
}

/// The line that the logging facade gets for a record; `None` where the
/// time has no text.
pub fn log_line(timestamp: i64, text: &str) -> (r: Option<String>)
    ensures
        r is Some <==> log_text(timestamp, text@) is Some,
        r is Some ==> r->Some_0@ == log_text(timestamp, text@)->Some_0,
{
    stamp_text(timestamp, " ", text)
}

/// The text that a message dialog gets for a record; `None` where the time
/// has no text.
pub fn dialog_line(timestamp: i64, text: &str) -> (r: Option<String>)
    ensures
        r is Some <==> dialog_text(timestamp, text@) is Some,
        r is Some ==> r->Some_0@ == dialog_text(timestamp, text@)->Some_0,
{
    stamp_text(timestamp, ": ", text)
}

/// The kind of the message dialog for a record of the given severity: none
/// for `Off`, which shows no dialog.
pub fn dialog_kind(level: LevelFilter) -> (r: Option<DialogKind>)
    ensures
        r == match level {
            LevelFilter::Off => None,
            LevelFilter::Error => Some(DialogKind::Error),
            LevelFilter::Warn => Some(DialogKind::Warning),
            _ => Some(DialogKind::Info),
        },
{
    match level {
        LevelFilter::Off => None,
        LevelFilter::Error => Some(DialogKind::Error),
        LevelFilter::Warn => Some(DialogKind::Warning),
        _ => Some(DialogKind::Info),
    }
}

} // verus!
