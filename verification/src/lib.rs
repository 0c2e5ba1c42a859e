//! An accumulator for errors and log messages.
//!
//! An [`ErrorLog`] collects the failures of a unit of work together with
//! leveled messages, so that the work can go on after a failure, and yields
//! at most one success value at the end.
//!
//! Nothing in this crate prints. Whatever a log renders is queued as
//! [`Output`] values in the order of emission; the caller takes them with
//! [`ErrorLog::take_rendered`], or gets them from the accessors that consume
//! the log, and hands them to the sink of its choice.
//!
//! The data model and its mathematical views live here; the modules add the
//! operations.

use std::fmt::{Debug, Display};
use vstd::prelude::*;

pub mod convert;
pub mod display;
pub mod entry;
pub mod get;
pub mod helper;
pub mod laws;
pub mod level;
pub mod manage;
pub mod messages;
pub mod presets;
pub mod traits;

pub use crate::entry::EntriesExt;
pub use crate::helper::format_unix_timestamp;
pub use crate::level::{FormatMode, LevelFilter};
pub use crate::presets::{DialogKind, ErrorLogAnyhow};

verus! {

/// Anything that has both a debug and a display form.
pub trait DebugDisplay: Debug + Display {

}

impl<T: Debug + Display> DebugDisplay for T {

}

/// What an entry holds: a failure, or a message with its severity.
#[derive(Debug, PartialEq, Eq, PartialOrd, Ord)]
pub enum EntryContent<E> {
    /// A failure, kept as it was handed in.
    Error(E),
    /// A message.
    Message {
        /// The severity of the message.
        level: LevelFilter,
        /// The text of the message.
        message: String,
    },
}

/// The mathematical value of an [`EntryContent`].
pub enum ContentView<E> {
    /// A failure.
    Error(E),
    /// A message.
    Message {
        /// The severity of the message.
        level: LevelFilter,
        /// The text of the message.
        message: Seq<char>,
    },
}

impl<E> View for EntryContent<E> {
    type V = ContentView<E>;

    open spec fn view(&self) -> ContentView<E> {
        match *self {
            EntryContent::Error(err) => ContentView::Error(err),
            EntryContent::Message { level, message } => ContentView::Message {
                level,
                message: message@,
            },
        }
    }
}

/// One stored unit: a failure or a message, with the time of its creation.
#[derive(Debug, PartialEq, Eq, PartialOrd, Ord)]
pub struct Entry<E> {
    /// What the entry holds.
    pub content: EntryContent<E>,
    /// Seconds since the Unix epoch at which the entry was made.
    pub timestamp: i64,
    pub(crate) instant_display_displayed: bool,
}

/// The mathematical value of an [`Entry`].
pub struct EntryView<E> {
    /// What the entry holds.
    pub content: ContentView<E>,
    /// Seconds since the Unix epoch at which the entry was made.
    pub timestamp: i64,
    /// Whether the arrival of the entry has been treated: it was rendered
    /// then if it passed the threshold, and no later display of single
    /// records renders it while entries are rendered on arrival.
    pub shown: bool,
}

impl<E> View for Entry<E> {
    type V = EntryView<E>;

    closed spec fn view(&self) -> EntryView<E> {
        EntryView {
            content: self.content@,
            timestamp: self.timestamp,
            shown: self.instant_display_displayed,
        }
    }
}

impl<E> DeepView for Entry<E> {
    type V = EntryView<E>;

    open spec fn deep_view(&self) -> EntryView<E> {
        self@
    }
}

/// The entries of a log, oldest first.
pub type Entries<E> = Vec<Entry<E>>;

/// One piece of rendered output.
#[derive(Debug, PartialEq, Eq, PartialOrd, Ord)]
pub enum Output {
    /// One record for the sink: a severity, a time and a text.
    Record {
        /// The severity under which the text is shown.
        level: LevelFilter,
        /// Seconds since the Unix epoch that belong to the text.
        timestamp: i64,
        /// The rendered text.
        text: String,
    },
    /// The delimiter that ends a display of single records, written as it is.
    Delimiter(String),
}

/// The mathematical value of an [`Output`].
pub enum OutputView {
    /// One record for the sink.
    Record {
        /// The severity under which the text is shown.
        level: LevelFilter,
        /// Seconds since the Unix epoch that belong to the text.
        timestamp: i64,
        /// The rendered text.
        text: Seq<char>,
    },
    /// The delimiter that ends a display of single records.
    Delimiter(Seq<char>),
}

impl View for Output {
    type V = OutputView;

    open spec fn view(&self) -> OutputView {
        match *self {
            Output::Record { level, timestamp, text } => OutputView::Record {
                level,
                timestamp,
                text: text@,
            },
            Output::Delimiter(text) => OutputView::Delimiter(text@),
        }
    }
}

impl DeepView for Output {
    type V = OutputView;

    open spec fn deep_view(&self) -> OutputView {
        self@
    }
}

/// The sink that rendered output is meant for.
#[derive(Debug, Clone, Copy, PartialEq, Eq, PartialOrd, Ord, Hash, Structural)]
pub enum DisplayFn {
    /// One line per record on standard output.
    Println,
    /// The logging facade, by the severity of each record.
    Log,
    /// A message dialog per record.
    NativeDialog,
}

/// A store of entries with at most one success value.
///
/// # Operations
/// - [`push_err`](Self::push_err), [`push_result`](Self::push_result),
///   [`push_message`](Self::push_message): add an entry
/// - [`merge_result`](Self::merge_result), [`set_ok`](Self::set_ok): set the
///   success value
/// - [`display_ok`](Self::display_ok) and its relatives: render the entries
///   and give the success value
#[derive(Debug, PartialEq, Eq, PartialOrd, Ord)]
pub struct ErrorLog<T, E> {
    format_mode: FormatMode,
    entries: Entries<E>,
    instant_display: bool,
    delimiter: String,
    join: bool,
    max_level: LevelFilter,
    ok: Option<T>,
    display_fn: DisplayFn,
    rendered: Vec<Output>,
}

/// The mathematical value of an [`ErrorLog`].
pub struct LogView<T, E> {
    /// How an error payload is turned into text.
    pub format_mode: FormatMode,
    /// The entries, oldest first.
    pub entries: Seq<EntryView<E>>,
    /// Whether a pushed entry is rendered at once.
    pub instant_display: bool,
    /// What stands between joined texts, and after a display of single records.
    pub delimiter: Seq<char>,
    /// Whether a display renders all entries into one record.
    pub join: bool,
    /// The most verbose severity that is still rendered.
    pub max_level: LevelFilter,
    /// The success value, if there is one.
    pub ok: Option<T>,
    /// The sink that the output is meant for.
    pub display_fn: DisplayFn,
    /// What was rendered and not yet taken, oldest first.
    pub rendered: Seq<OutputView>,
}

impl<T, E> View for ErrorLog<T, E> {
    type V = LogView<T, E>;

    closed spec fn view(&self) -> LogView<T, E> {
        LogView {
            format_mode: self.format_mode,
            entries: self.entries.deep_view(),
            instant_display: self.instant_display,
            delimiter: self.delimiter@,
            join: self.join,
            max_level: self.max_level,
            ok: self.ok,
            display_fn: self.display_fn,
            rendered: self.rendered.deep_view(),
        }
    }
}

impl<T, E> LogView<T, E> {
    /// The value of a log that was just made: no entry, no success value,
    /// every message visible, plain rendering of errors, single records for
    /// standard output without a delimiter.
    pub open spec fn empty() -> Self {
        LogView {
            format_mode: FormatMode::Normal,
            entries: Seq::empty(),
            instant_display: false,
            delimiter: Seq::empty(),
            join: false,
            max_level: LevelFilter::Trace,
            ok: None,
            display_fn: DisplayFn::Println,
            rendered: Seq::empty(),
        }
    }
}

} // verus!
