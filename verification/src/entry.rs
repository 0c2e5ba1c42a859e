//! Entries: their making and their text.

use crate::helper::now;
use crate::{ContentView, Entries, Entry, EntryContent, EntryView, FormatMode, LevelFilter};
use std::fmt::{Debug, Display};
use vstd::prelude::*;
use vstd::std_specs::convert::FromSpecImpl;
use vstd::string::to_string_from_display_ensures;

verus! {

impl<E> EntryView<E> {
    /// The severity under which the entry is rendered: `Error` for a
    /// failure, its own level for a message.
    pub open spec fn level(self) -> LevelFilter {
        match self.content {
            ContentView::Error(_) => LevelFilter::Error,
            ContentView::Message { level, .. } => level,
        }
    }

    /// Whether the entry passes the threshold `max_level`: a failure always
    /// does, a message where it is at most as verbose as the threshold.
    pub open spec fn visible(self, max_level: LevelFilter) -> bool {
        match self.content {
            ContentView::Error(_) => true,
            ContentView::Message { level, .. } => max_level.admits(level),
        }
    }

    /// The entry as it is once its arrival has been treated.
    pub open spec fn marked(self) -> Self {
        EntryView { shown: true, ..self }
    }

    /// The entry with its time set to 0.
    pub open spec fn untimed(self) -> Self {
        EntryView { timestamp: 0, ..self }
    }
}

impl<E: Display> EntryView<E> {
    /// Whether `text` can be the text of the entry in `mode`.
    ///
    /// The text of a message is its own. The text of a failure in
    /// [`FormatMode::Normal`] is what `to_string` gives for the payload; of
    /// its two debug forms nothing is known here.
    pub open spec fn renders_to(self, mode: FormatMode, text: String) -> bool {
        match self.content {
            ContentView::Error(err) => mode == FormatMode::Normal
                ==> to_string_from_display_ensures::<E>(&err, text),
            ContentView::Message { message, .. } => text@ == message,
        }
    }
}

/// What [`EntriesExt::clear_timestamps`] makes of `entries`.
pub open spec fn untimed<E>(entries: Seq<EntryView<E>>) -> Seq<EntryView<E>> {
    entries.map_values(|e: EntryView<E>| e.untimed())
}

/// More operations on a vector of entries.
pub trait EntriesExt: Sized {
    /// Whether `cleared` holds these entries with every timestamp set to 0.
    spec fn cleared_to(&self, cleared: &Self) -> bool;

    /// Sets every timestamp to 0 and keeps the rest: for comparing entries
    /// that were made at different times.
    fn clear_timestamps(self) -> (r: Self)
        ensures
            self.cleared_to(&r),
    ;
}

impl<E> EntriesExt for Entries<E> {
    open spec fn cleared_to(&self, cleared: &Self) -> bool {
        cleared.deep_view() == untimed(self.deep_view())
    }

    fn clear_timestamps(self) -> (r: Entries<E>) {
        let mut entries = self;
        let ghost before = entries.deep_view();
        let n = entries.len();
        let mut i: usize = 0;
        while i < n
            invariant
                n == entries.len(),
                i <= n,
                before.len() == n,
                forall|k: int| 0 <= k < i ==> #[trigger] entries[k]@ == before[k].untimed(),
                forall|k: int| i <= k < n ==> #[trigger] entries[k]@ == before[k],
            decreases n - i,
        {
            let ghost prev = entries@;
            entries[i].timestamp = 0;
            assert(forall|k: int| 0 <= k < n && k != i ==> entries@[k] == prev[k]);
            assert(entries@[i as int]@ == prev[i as int]@.untimed());
            i = i + 1;
        }
        assert(entries.deep_view() =~= untimed(before));
        entries
    }
}

/// The single-line debug form of `err`: what `format!("{err:?}")` of std
/// gives. The text goes by the `Debug` impl of the payload; nothing is
/// claimed of it.
#[verifier::external_body]
fn debug_text<E: Debug>(err: &E) -> String {
    format!("{err:?}")
}

/// The multi-line debug form of `err`: what `format!("{err:#?}")` of std
/// gives. The text goes by the `Debug` impl of the payload; nothing is
/// claimed of it.
#[verifier::external_body]
fn pretty_debug_text<E: Debug>(err: &E) -> String {
    format!("{err:#?}")
}

impl<E> Entry<E> {
    /// The severity under which the entry is rendered: `Error` for a
    /// failure, its own level for a message.
    pub fn get_level(&self) -> (r: LevelFilter)
        ensures
            r == self@.level(),
    {
        match self.content {
            EntryContent::Error(_) => LevelFilter::Error,
            EntryContent::Message { level, .. } => level,
        }
    }

    /// An entry with the given content and time whose arrival has not been
    /// treated yet.
    pub fn at(content: EntryContent<E>, timestamp: i64) -> (r: Self)
        ensures
            r@ == (EntryView { content: content@, timestamp, shown: false }),
    {
        Entry { content, timestamp, instant_display_displayed: false }
    }

    pub(crate) fn new(content: EntryContent<E>) -> (r: Self)
        ensures
            r@.content == content@,
            !r@.shown,
    {
        Self::at(content, now())
    }

    /// An entry for a failure, made now.
    pub fn new_error(err: E) -> (r: Self)
        ensures
            r@.content == ContentView::Error(err),
            !r@.shown,
    {
        Self::new(EntryContent::Error(err))
    }

    /// An entry for a message, made now.
    pub fn new_message(level: LevelFilter, message: String) -> (r: Self)
        ensures
            r@.content == (ContentView::<E>::Message { level, message: message@ }),
            !r@.shown,
    {
        Self::new(EntryContent::Message { level, message })
    }

    /// Whether the arrival of the entry has been treated.
    pub(crate) fn is_displayed(&self) -> (r: bool)
        ensures
            r == self@.shown,
    {
        self.instant_display_displayed
    }

    /// Notes that the arrival of the entry has been treated.
    pub(crate) fn mark_displayed(&mut self)
        ensures
            final(self)@ == old(self)@.marked(),
    {
        self.instant_display_displayed = true;
    }
}

impl<E> From<E> for Entry<E> {
    /// An entry for a failure, made now.
    fn from(value: E) -> (r: Self)
        ensures
            r@.content == ContentView::Error(value),
            !r@.shown,
    {
        Self::new_error(value)
    }
}

impl<E> FromSpecImpl<E> for Entry<E> {
    /// The entry is stamped with the time of the call, so the conversion is
    /// no function of the payload alone.
    open spec fn obeys_from_spec() -> bool {
        false
    }

    open spec fn from_spec(value: E) -> Self {
        arbitrary()
    }
}

impl<E: Debug + Display> Entry<E> {
    /// The text of the entry, whatever its severity.
    pub fn get_message(&self, mode: &FormatMode) -> (r: String)
        ensures
            self@.renders_to(*mode, r),
    {
        match self.get_message_filter(mode, &LevelFilter::Trace) {
            Some(msg) => msg,
            None => unreached(),
        }
    }

    /// The text of the entry where it passes the threshold `max_level`.
    pub fn get_message_filter(&self, mode: &FormatMode, max_level: &LevelFilter) -> (r: Option<
        String,
    >)
        ensures
            r is Some <==> self@.visible(*max_level),
            r is Some ==> self@.renders_to(*mode, r->Some_0),
    {
        match &self.content {
            EntryContent::Error(err) => Some(
                match mode {
                    FormatMode::Normal => err.to_string(),
                    FormatMode::Debug => debug_text(err),
                    FormatMode::PrettyDebug => pretty_debug_text(err),
                },
            ),
            EntryContent::Message { message, level } => {
                if *level <= *max_level {
                    Some(message.clone())
                } else {
                    None
                }
            },
        }
    }
}

} // verus!
