//! Reading the entries: all of them, those that pass the threshold, the
//! messages, the error payloads.

use crate::{
    ContentView, Entries, Entry, EntryContent, EntryView, ErrorLog, LevelFilter, LogView, Output,
};
use vstd::prelude::*;

verus! {

/// The test of an entry against the threshold `max_level`.
pub open spec fn passes<E>(max_level: LevelFilter) -> spec_fn(EntryView<E>) -> bool {
    |entry: EntryView<E>| entry.visible(max_level)
}

/// The test for a message that passes the threshold `max_level`.
pub open spec fn passes_as_message<E>(max_level: LevelFilter) -> spec_fn(EntryView<E>) -> bool {
    |entry: EntryView<E>| entry.content is Message && entry.visible(max_level)
}

/// The payload of an entry that holds a failure.
pub open spec fn payload<E>() -> spec_fn(EntryView<E>) -> Option<E> {
    |entry: EntryView<E>|
        match entry.content {
            ContentView::Error(err) => Some(err),
            ContentView::Message { .. } => None,
        }
}

/// The entries that pass the threshold `max_level`, in their order.
pub open spec fn visible_entries<E>(entries: Seq<EntryView<E>>, max_level: LevelFilter) -> Seq<
    EntryView<E>,
> {
    entries.filter(passes(max_level))
}

/// The messages that pass the threshold `max_level`, in their order.
pub open spec fn visible_messages<E>(entries: Seq<EntryView<E>>, max_level: LevelFilter) -> Seq<
    EntryView<E>,
> {
    entries.filter(passes_as_message(max_level))
}

/// The payloads of the entries that hold a failure, in their order.
pub open spec fn error_payloads<E>(entries: Seq<EntryView<E>>) -> Seq<E> {
    entries.filter_map(payload())
}

/// Whether `copy` can be a clone of `content`: the same message, or a
/// failure whose payload is a clone of the payload.
pub open spec fn content_cloned<E: Clone>(content: ContentView<E>, copy: ContentView<E>) -> bool {
    match content {
        ContentView::Error(err) => copy is Error && cloned(err, copy->Error_0),
        ContentView::Message { .. } => copy == content,
    }
}

/// Whether `copy` can be a clone of `entry`: a clone of its content, with
/// the same time and the same note of having been rendered.
pub open spec fn entry_cloned<E: Clone>(entry: EntryView<E>, copy: EntryView<E>) -> bool {
    &&& content_cloned(entry.content, copy.content)
    &&& copy.timestamp == entry.timestamp
    &&& copy.shown == entry.shown
}

/// Whether `copies` holds a clone of each of `entries`, in their order.
pub open spec fn entries_cloned<E: Clone>(
    entries: Seq<EntryView<E>>,
    copies: Seq<EntryView<E>>,
) -> bool {
    &&& copies.len() == entries.len()
    &&& forall|i: int| 0 <= i < entries.len() ==> entry_cloned(entries[i], #[trigger] copies[i])
}

/// Whether `copies` holds a clone of each of `payloads`, in their order.
pub open spec fn payloads_cloned<E: Clone>(payloads: Seq<E>, copies: Seq<E>) -> bool {
    &&& copies.len() == payloads.len()
    &&& forall|i: int| 0 <= i < payloads.len() ==> cloned(payloads[i], #[trigger] copies[i])
}

/// Whether `fresh` holds the content of each of `entries`, in their order,
/// in entries whose arrival has not been treated.
pub open spec fn remade<E>(entries: Seq<EntryView<E>>, fresh: Seq<EntryView<E>>) -> bool {
    &&& fresh.len() == entries.len()
    &&& forall|i: int|
        0 <= i < entries.len() ==> (#[trigger] fresh[i]).content == entries[i].content
            && !fresh[i].shown
}

impl<E: Clone> Clone for EntryContent<E> {
    fn clone(&self) -> (r: Self)
        ensures
            content_cloned(self@, r@),
    {
        match self {
            EntryContent::Error(err) => EntryContent::Error(err.clone()),
            EntryContent::Message { level, message } => EntryContent::Message {
                level: *level,
                message: message.clone(),
            },
        }
    }
}

impl<E: Clone> Clone for Entry<E> {
    fn clone(&self) -> (r: Self)
        ensures
            entry_cloned(self@, r@),
    {
        Entry {
            content: self.content.clone(),
            timestamp: self.timestamp,
            instant_display_displayed: self.instant_display_displayed,
        }
    }
}

impl Clone for Output {
    fn clone(&self) -> (r: Self)
        ensures
            r@ == self@,
    {
        match self {
            Output::Record { level, timestamp, text } => Output::Record {
                level: *level,
                timestamp: *timestamp,
                text: text.clone(),
            },
            Output::Delimiter(text) => Output::Delimiter(text.clone()),
        }
    }
}

impl<T: Clone, E: Clone> Clone for ErrorLog<T, E> {
    fn clone(&self) -> (r: Self)
        ensures
            entries_cloned(self@.entries, r@.entries),
            match self@.ok {
                Some(value) => r@.ok is Some && cloned(value, r@.ok->Some_0),
                None => r@.ok is None,
            },
            r@ == (LogView { entries: r@.entries, ok: r@.ok, ..self@ }),
    {
        let mut entries: Entries<E> = Vec::new();
        let n = self.entries.len();
        let mut i: usize = 0;
        while i < n
            invariant
                n == self.entries.len(),
                i <= n,
                entries_cloned(self@.entries.take(i as int), entries.deep_view()),
            decreases n - i,
        {
            let ghost before = entries.deep_view();
            let copy = self.entries[i].clone();
            entries.push(copy);
            assert(entries.deep_view() =~= before.push(copy@));
            i = i + 1;
        }
        assert(self@.entries.take(n as int) =~= self@.entries);
        let mut rendered: Vec<Output> = Vec::new();
        let m = self.rendered.len();
        let mut j: usize = 0;
        while j < m
            invariant
                m == self.rendered.len(),
                j <= m,
                rendered.deep_view() == self@.rendered.take(j as int),
            decreases m - j,
        {
            let ghost before = rendered.deep_view();
            let copy = self.rendered[j].clone();
            rendered.push(copy);
            assert(rendered.deep_view() =~= before.push(copy@));
            assert(self@.rendered.take(j + 1) =~= self@.rendered.take(j as int).push(copy@));
            j = j + 1;
        }
        assert(self@.rendered.take(m as int) =~= self@.rendered);
        let ok = match &self.ok {
            Some(value) => Some(value.clone()),
            None => None,
        };
        ErrorLog {
            format_mode: self.format_mode,
            entries,
            instant_display: self.instant_display,
            delimiter: self.delimiter.clone(),
            join: self.join,
            max_level: self.max_level,
            ok,
            display_fn: self.display_fn,
            rendered,
        }
    }
}

impl<T, E> ErrorLog<T, E> {
    /// All entries, oldest first, whatever the threshold.
    pub fn entries(&self) -> (r: &Entries<E>)
        ensures
            r.deep_view() == self@.entries,
    {
        &self.entries
    }

    /// All entries, oldest first, whatever the threshold, for the caller to
    /// change.
    pub fn entries_mut(&mut self) -> (r: &mut Entries<E>)
        ensures
            r.deep_view() == old(self)@.entries,
            final(self)@ == (LogView { entries: final(r).deep_view(), ..old(self)@ }),
    {
        &mut self.entries
    }

    /// Takes the entries out of the log: gives those that pass the
    /// threshold, in their order, and drops the others. The log is left
    /// without entries.
    pub fn entries_owned(&mut self) -> (r: Entries<E>)
        ensures
            r.deep_view() == visible_entries(old(self)@.entries, old(self)@.max_level),
            final(self)@ == (LogView { entries: Seq::empty(), ..old(self)@ }),
    {
        let mut out = Vec::new();
        out.append(&mut self.entries);
        assert(out.deep_view() =~= old(self)@.entries);
        assert(self@.entries =~= Seq::empty());
        self.filter_entries(&mut out);
        out
    }

    /// Keeps of `entries` those that pass the threshold of the log, in
    /// their order.
    pub fn filter_entries(&self, entries: &mut Entries<E>)
        ensures
            final(entries).deep_view() == visible_entries(
                old(entries).deep_view(),
                self@.max_level,
            ),
    {
        let ghost views = entries.deep_view();
        let ghost test = passes::<E>(self@.max_level);
        let mut all: Entries<E> = Vec::new();
        all.append(entries);
        let ghost items = all@;
        assert(entries.deep_view() =~= views.take(0).filter(test)) by {
            reveal(Seq::filter);
        }
        for entry in it: all
            invariant
                it.seq() == items,
                items.len() == views.len(),
                forall|k: int| 0 <= k < items.len() ==> (#[trigger] items[k])@ == views[k],
                test == passes::<E>(self@.max_level),
                entries.deep_view() == views.take(it.index() as int).filter(test),
        {
            proof {
                views.take(it.index() as int).lemma_filter_push(entry@, test);
                assert(views.take(it.index() + 1) =~= views.take(it.index() as int).push(entry@));
            }
            let keep = match &entry.content {
                EntryContent::Error(_) => true,
                EntryContent::Message { level, .. } => *level <= self.max_level,
            };
            if keep {
                let ghost before = entries.deep_view();
                entries.push(entry);
                assert(entries.deep_view() =~= before.push(entry@));
            }
        }
        assert(views.take(views.len() as int) =~= views);
    }

    /// The messages that pass the threshold, in their order, as entries
    /// made now.
    pub fn messages_clone(&self) -> (r: Entries<E>)
        ensures
            remade(visible_messages(self@.entries, self@.max_level), r.deep_view()),
    {
        let ghost views = self@.entries;
        let ghost test = passes_as_message::<E>(self@.max_level);
        let mut out: Entries<E> = Vec::new();
        let n = self.entries.len();
        let mut i: usize = 0;
        assert(views.take(0).filter(test) =~= Seq::empty()) by {
            reveal(Seq::filter);
        }
        while i < n
            invariant
                n == self.entries.len(),
                i <= n,
                views == self@.entries,
                test == passes_as_message::<E>(self@.max_level),
                remade(views.take(i as int).filter(test), out.deep_view()),
            decreases n - i,
        {
            let ghost shown = views.take(i as int).filter(test);
            proof {
                views.take(i as int).lemma_filter_push(views[i as int], test);
                assert(views.take(i + 1) =~= views.take(i as int).push(views[i as int]));
            }
            match &self.entries[i].content {
                EntryContent::Message { level, message } => {
                    if *level <= self.max_level {
                        let ghost before = out.deep_view();
                        let entry = Entry::new_message(*level, message.clone());
                        out.push(entry);
                        assert(out.deep_view() =~= before.push(entry@));
                    }
                },
                EntryContent::Error(_) => {},
            }
            i = i + 1;
        }
        assert(views.take(n as int) =~= views);
        out
    }

    /// The messages that pass the threshold, in their order, as entries
    /// made now. The log is used up.
    pub fn messages_owned(self) -> (r: Entries<E>)
        ensures
            remade(visible_messages(self@.entries, self@.max_level), r.deep_view()),
    {
        let ghost views = self@.entries;
        let ghost test = passes_as_message::<E>(self@.max_level);
        let max_level = self.max_level;
        let mut out: Entries<E> = Vec::new();
        let all = self.entries;
        let ghost items = all@;
        assert(views.take(0).filter(test) =~= Seq::empty()) by {
            reveal(Seq::filter);
        }
        for entry in it: all
            invariant
                it.seq() == items,
                items.len() == views.len(),
                forall|k: int| 0 <= k < items.len() ==> (#[trigger] items[k])@ == views[k],
                test == passes_as_message::<E>(max_level),
                remade(views.take(it.index() as int).filter(test), out.deep_view()),
        {
            proof {
                views.take(it.index() as int).lemma_filter_push(entry@, test);
                assert(views.take(it.index() + 1) =~= views.take(it.index() as int).push(entry@));
            }
            match entry.content {
                EntryContent::Message { level, message } => {
                    if level <= max_level {
                        let ghost before = out.deep_view();
                        let fresh = Entry::new_message(level, message);
                        out.push(fresh);
                        assert(out.deep_view() =~= before.push(fresh@));
                    }
                },
                EntryContent::Error(_) => {},
            }
        }
        assert(views.take(views.len() as int) =~= views);
        out
    }
}

impl<T, E: Clone> ErrorLog<T, E> {
    /// Clones of the entries that pass the threshold, in their order.
    pub fn entries_cloned(&self) -> (r: Entries<E>)
        ensures
            entries_cloned(visible_entries(self@.entries, self@.max_level), r.deep_view()),
    {
        let ghost views = self@.entries;
        let ghost test = passes::<E>(self@.max_level);
        let mut out: Entries<E> = Vec::new();
        let n = self.entries.len();
        let mut i: usize = 0;
        assert(views.take(0).filter(test) =~= Seq::empty()) by {
            reveal(Seq::filter);
        }
        while i < n
            invariant
                n == self.entries.len(),
                i <= n,
                views == self@.entries,
                test == passes::<E>(self@.max_level),
                entries_cloned(views.take(i as int).filter(test), out.deep_view()),
            decreases n - i,
        {
            proof {
                views.take(i as int).lemma_filter_push(views[i as int], test);
                assert(views.take(i + 1) =~= views.take(i as int).push(views[i as int]));
            }
            let keep = match &self.entries[i].content {
                EntryContent::Error(_) => true,
                EntryContent::Message { level, .. } => *level <= self.max_level,
            };
            if keep {
                let ghost before = out.deep_view();
                let copy = self.entries[i].clone();
                out.push(copy);
                assert(out.deep_view() =~= before.push(copy@));
            }
            i = i + 1;
        }
        assert(views.take(n as int) =~= views);
        out
    }

    /// Clones of the payloads of all entries that hold a failure, in their
    /// order, whatever the threshold.
    pub fn errors_cloned(&self) -> (r: Vec<E>)
        ensures
            payloads_cloned(error_payloads(self@.entries), r@),
    {
        let ghost views = self@.entries;
        let mut out: Vec<E> = Vec::new();
        let n = self.entries.len();
        let mut i: usize = 0;
        while i < n
            invariant
                n == self.entries.len(),
                i <= n,
                views == self@.entries,
                payloads_cloned(views.take(i as int).filter_map(payload()), out@),
            decreases n - i,
        {
            proof {
                assert(views.take(i + 1).drop_last() =~= views.take(i as int));
            }
            match &self.entries[i].content {
                EntryContent::Error(err) => {
                    out.push(err.clone());
                },
                EntryContent::Message { .. } => {},
            }
            i = i + 1;
        }
        assert(views.take(n as int) =~= views);
        out
    }
}

} // verus!
