//! Rendering: which entries a display shows, as what text, and what it
//! emits; the presentation settings; the accessors that display and then
//! give the success value.

use crate::convert::{converted, converted_text};
use crate::get::visible_entries;
use crate::helper::now;
use crate::laws::lemma_joined_none;
use crate::{EntryView, ErrorLog, FormatMode, LevelFilter, LogView, Output, OutputView};
use std::fmt::{Debug, Display};
use vstd::prelude::*;
use vstd::string::StringExecFns;

verus! {

impl<E> EntryView<E> {
    /// Whether a rendering has a text for the entry: where it passes the
    /// threshold and, if `skip_shown`, its arrival has not been treated.
    pub open spec fn wanted(self, max_level: LevelFilter, skip_shown: bool) -> bool {
        self.visible(max_level) && !(skip_shown && self.shown)
    }
}

/// The characters of a text that may be absent.
pub open spec fn text_view(text: Option<String>) -> Option<Seq<char>> {
    match text {
        Some(t) => Some(t@),
        None => None,
    }
}

/// Whether `text` is a rendering of `entry`: a text of the entry where it is
/// wanted, nothing where it is not.
pub open spec fn is_text_of<E: Display>(
    entry: EntryView<E>,
    mode: FormatMode,
    max_level: LevelFilter,
    skip_shown: bool,
    text: Option<String>,
) -> bool {
    match text {
        Some(t) => entry.wanted(max_level, skip_shown) && entry.renders_to(mode, t),
        None => !entry.wanted(max_level, skip_shown),
    }
}

/// Whether `texts` is a rendering of `entries`, text by entry.
pub open spec fn is_rendering<E: Display>(
    entries: Seq<EntryView<E>>,
    mode: FormatMode,
    max_level: LevelFilter,
    skip_shown: bool,
    texts: Seq<Option<String>>,
) -> bool {
    &&& texts.len() == entries.len()
    &&& forall|i: int|
        0 <= i < entries.len() ==> is_text_of(
            entries[i],
            mode,
            max_level,
            skip_shown,
            #[trigger] texts[i],
        )
}

/// The texts that are present, in order, with `delimiter` between
/// neighbours and none at the end; `None` where no text is present.
pub open spec fn joined(texts: Seq<Option<String>>, delimiter: Seq<char>) -> Option<Seq<char>>
    decreases texts.len(),
{
    if texts.len() == 0 {
        None
    } else {
        let before = joined(texts.drop_last(), delimiter);
        match (before, texts.last()) {
            (_, None) => before,
            (None, Some(t)) => Some(t@),
            (Some(b), Some(t)) => Some(b + delimiter + t@),
        }
    }
}

/// One record for each text that is present, in order, with the severity
/// and the time of the entry at the same place.
pub open spec fn records<E>(entries: Seq<EntryView<E>>, texts: Seq<Option<String>>) -> Seq<
    OutputView,
>
    recommends
        entries.len() == texts.len(),
    decreases texts.len(),
{
    if texts.len() == 0 {
        Seq::empty()
    } else {
        let before = records(entries.drop_last(), texts.drop_last());
        match texts.last() {
            Some(t) => before.push(
                OutputView::Record {
                    level: entries.last().level(),
                    timestamp: entries.last().timestamp,
                    text: t@,
                },
            ),
            None => before,
        }
    }
}

/// Every entry as it is once its arrival has been treated.
pub open spec fn marked_all<E>(entries: Seq<EntryView<E>>) -> Seq<EntryView<E>> {
    entries.map_values(|e: EntryView<E>| e.marked())
}

/// The one record of a joined display: the joined text under the severity
/// `Error` at the time `now`; nothing where there is no text.
pub open spec fn joined_record(
    texts: Seq<Option<String>>,
    delimiter: Seq<char>,
    now: i64,
) -> Seq<OutputView> {
    match joined(texts, delimiter) {
        Some(text) => seq![OutputView::Record { level: LevelFilter::Error, timestamp: now, text }],
        None => Seq::empty(),
    }
}

impl<T, E: Display> LogView<T, E> {
    /// Whether a rendering leaves out the entries whose arrival has been
    /// treated: where entries are rendered on arrival and not joined.
    pub open spec fn skips_shown(self) -> bool {
        self.instant_display && !self.join
    }

    /// Whether `texts` is a rendering of the log's entries under its
    /// settings.
    pub open spec fn renders(self, texts: Seq<Option<String>>) -> bool {
        is_rendering(self.entries, self.format_mode, self.max_level, self.skips_shown(), texts)
    }

    /// What a display emits for the rendering `texts` at the time `now`.
    ///
    /// Joined: the one joined record, if any text is present. Else a record
    /// for each text, and after them the delimiter if it is not empty.
    pub open spec fn display_output(self, texts: Seq<Option<String>>, now: i64) -> Seq<
        OutputView,
    > {
        if self.join {
            joined_record(texts, self.delimiter, now)
        } else if self.delimiter.len() > 0 {
            records(self.entries, texts).push(OutputView::Delimiter(self.delimiter))
        } else {
            records(self.entries, texts)
        }
    }

    /// The log after a display: what it emits is queued, nothing else
    /// changes.
    pub open spec fn displayed(self, texts: Seq<Option<String>>, now: i64) -> Self {
        LogView { rendered: self.rendered + self.display_output(texts, now), ..self }
    }

    /// What the arrival of entries emits for the rendering `texts` at the
    /// time `now`: nothing unless entries are rendered on arrival; then the
    /// one joined record, or a record for each text.
    pub open spec fn instant_output(self, texts: Seq<Option<String>>, now: i64) -> Seq<
        OutputView,
    > {
        if !self.instant_display {
            Seq::empty()
        } else if self.join {
            joined_record(texts, self.delimiter, now)
        } else {
            records(self.entries, texts)
        }
    }

    /// The log after the arrival of entries: what that emits is queued, and
    /// where single records were emitted the arrival of every entry counts
    /// as treated.
    pub open spec fn flushed(self, texts: Seq<Option<String>>, now: i64) -> Self {
        LogView {
            rendered: self.rendered + self.instant_output(texts, now),
            entries: if self.skips_shown() {
                marked_all(self.entries)
            } else {
                self.entries
            },
            ..self
        }
    }
}

impl<T, E: Display> LogView<T, E> {
    /// Whether `after` is the log after a display.
    pub open spec fn displays(self, after: Self) -> bool {
        exists|texts: Seq<Option<String>>, now: i64|
            self.renders(texts) && after == #[trigger] self.displayed(texts, now)
    }

    /// Whether `after` is the log after the arrival of entries: the log
    /// itself unless entries are rendered on arrival.
    pub open spec fn flushes(self, after: Self) -> bool {
        if self.instant_display {
            exists|texts: Seq<Option<String>>, now: i64|
                self.renders(texts) && after == #[trigger] self.flushed(texts, now)
        } else {
            after == self
        }
    }
}

/// Joins the texts that are present with `delimiter` between neighbours.
pub fn join_texts(texts: &Vec<Option<String>>, delimiter: &str) -> (r: Option<String>)
    ensures
        text_view(r) == joined(texts@, delimiter@),
{
    let mut out: Option<String> = None;
    let n = texts.len();
    let mut i: usize = 0;
    while i < n
        invariant
            n == texts.len(),
            i <= n,
            text_view(out) == joined(texts@.take(i as int), delimiter@),
        decreases n - i,
    {
        assert(texts@.take(i + 1).drop_last() =~= texts@.take(i as int));
        match &texts[i] {
            Some(text) => {
                out = match out {
                    Some(before) => {
                        let mut s = before;
                        s.append(delimiter);
                        s.append(text.as_str());
                        Some(s)
                    },
                    None => Some(text.clone()),
                };
            },
            None => {},
        }
        i = i + 1;
    }
    assert(texts@.take(n as int) =~= texts@);
    out
}

impl<T, E> ErrorLog<T, E> {
    /// The severity of the entry at `i`.
    pub(crate) fn get_level(&self, i: usize) -> (r: LevelFilter)
        requires
            i < self@.entries.len(),
        ensures
            r == self@.entries[i as int].level(),
    {
        self.entries[i].get_level()
    }

    /// The time of the entry at `i`.
    pub(crate) fn get_timestamp(&self, i: usize) -> (r: i64)
        requires
            i < self@.entries.len(),
        ensures
            r == self@.entries[i as int].timestamp,
    {
        self.entries[i].timestamp
    }

    fn emit_joined(&mut self, texts: &Vec<Option<String>>, now: i64)
        ensures
            final(self)@ == (LogView {
                rendered: old(self)@.rendered + joined_record(
                    texts@,
                    old(self)@.delimiter,
                    now,
                ),
                ..old(self)@
            }),
    {
        match join_texts(texts, self.delimiter.as_str()) {
            Some(text) => {
                let ghost before = self.rendered.deep_view();
                self.rendered.push(Output::Record { level: LevelFilter::Error, timestamp: now, text });
                assert(self.rendered.deep_view() =~= before + joined_record(
                    texts@,
                    self.delimiter@,
                    now,
                ));
            },
            None => {
                assert(self@.rendered =~= self@.rendered + Seq::<OutputView>::empty());
            },
        }
    }

    fn emit_records(&mut self, texts: Vec<Option<String>>)
        requires
            texts.len() == old(self)@.entries.len(),
        ensures
            final(self)@ == (LogView {
                rendered: old(self)@.rendered + records(old(self)@.entries, texts@),
                ..old(self)@
            }),
    {
        let mut texts = texts;
        let ghost all = texts@;
        let ghost before = self@;
        let n = texts.len();
        let mut i: usize = 0;
        assert(before.rendered =~= before.rendered + records(
            before.entries.take(0),
            all.take(0),
        ));
        while i < n
            invariant
                n == texts.len(),
                i <= n,
                all.len() == n,
                before.entries.len() == n,
                forall|k: int| i <= k < n ==> texts[k] == all[k],
                self@ == (LogView {
                    rendered: before.rendered + records(
                        before.entries.take(i as int),
                        all.take(i as int),
                    ),
                    ..before
                }),
            decreases n - i,
        {
            assert(all.take(i + 1).drop_last() =~= all.take(i as int));
            assert(before.entries.take(i + 1).drop_last() =~= before.entries.take(i as int));
            let level = self.get_level(i);
            let timestamp = self.get_timestamp(i);
            match texts[i].take() {
                Some(text) => {
                    let ghost queue = self.rendered.deep_view();
                    self.rendered.push(Output::Record { level, timestamp, text });
                    assert(self.rendered.deep_view() =~= queue.push(
                        OutputView::Record { level, timestamp, text: text@ },
                    ));
                    assert(self@.rendered =~= before.rendered + records(
                        before.entries.take(i + 1),
                        all.take(i + 1),
                    ));
                },
                None => {},
            }
            i = i + 1;
        }
        assert(all.take(n as int) =~= all);
        assert(before.entries.take(n as int) =~= before.entries);
    }
}

impl<T, E: Debug + Display> ErrorLog<T, E> {
    /// The text of the entry at `i` where it passes the threshold.
    pub(crate) fn get_string(&self, i: usize) -> (r: Option<String>)
        requires
            i < self@.entries.len(),
        ensures
            is_text_of(self@.entries[i as int], self@.format_mode, self@.max_level, false, r),
    {
        self.entries[i].get_message_filter(self.get_format_mode(), &self.max_level)
    }

    /// Renders the entries under the log's settings: a text for each entry
    /// that passes the threshold, but none, where single records are emitted
    /// on arrival, for an entry whose arrival has been treated.
    pub fn render_entries(&self) -> (texts: Vec<Option<String>>)
        ensures
            self@.renders(texts@),
    {
        let skip_shown = self.instant_display && !self.join;
        let mut texts: Vec<Option<String>> = Vec::new();
        let n = self.entries.len();
        let mut i: usize = 0;
        while i < n
            invariant
                n == self@.entries.len(),
                i <= n,
                skip_shown == self@.skips_shown(),
                texts.len() == i,
                forall|k: int|
                    0 <= k < i ==> is_text_of(
                        self@.entries[k],
                        self@.format_mode,
                        self@.max_level,
                        skip_shown,
                        #[trigger] texts[k],
                    ),
            decreases n - i,
        {
            let text = if skip_shown && self.entries[i].is_displayed() {
                None
            } else {
                self.get_string(i)
            };
            texts.push(text);
            i = i + 1;
        }
        texts
    }

    /// Displays with the rendering `texts` at the time `now`: queues what
    /// the display emits. Does nothing, and says so, unless there is one
    /// text or none for each entry.
    pub fn display_rendered(&mut self, texts: Vec<Option<String>>, now: i64) -> (done: bool)
        ensures
            done == (texts.len() == old(self)@.entries.len()),
            done ==> final(self)@ == old(self)@.displayed(texts@, now),
            !done ==> final(self)@ == old(self)@,
    {
        if texts.len() != self.entries.len() {
            return false;
        }
        if self.join {
            self.emit_joined(&texts, now);
        } else {
            self.emit_records(texts);
            if !self.delimiter.as_str().is_empty() {
                let ghost queue = self.rendered.deep_view();
                self.rendered.push(Output::Delimiter(self.delimiter.clone()));
                assert(self.rendered.deep_view() =~= queue.push(
                    OutputView::Delimiter(self.delimiter@),
                ));
            }
        }
        true
    }

    /// Treats the arrival of entries with the rendering `texts` at the time
    /// `now`: queues what it emits, and notes the arrival of every entry as
    /// treated where single records were emitted. Does nothing, and says so, unless there
    /// is one text or none for each entry.
    pub fn instant_display_rendered(&mut self, texts: Vec<Option<String>>, now: i64) -> (done:
        bool)
        ensures
            done == (texts.len() == old(self)@.entries.len()),
            done ==> final(self)@ == old(self)@.flushed(texts@, now),
            !done ==> final(self)@ == old(self)@,
    {
        if texts.len() != self.entries.len() {
            return false;
        }
        if !self.instant_display {
            assert(self@.rendered =~= self@.rendered + Seq::<OutputView>::empty());
        } else if self.join {
            self.emit_joined(&texts, now);
        } else {
            self.emit_records(texts);
            self.mark_entries();
        }
        true
    }

    /// Displays the entries: renders them and queues what the display emits.
    pub(crate) fn display_helper(&mut self)
        ensures
            old(self)@.displays(final(self)@),
    {
        let texts = self.render_entries();
        let now = now();
        let ghost rendering = texts@;
        self.display_rendered(texts, now);
        assert(final(self)@ == old(self)@.displayed(rendering, now));
    }

    /// Treats the arrival of entries: where entries are rendered on arrival,
    /// renders them and queues what that emits.
    pub(crate) fn instant_display_helper(&mut self)
        ensures
            old(self)@.flushes(final(self)@),
    {
        if self.instant_display {
            let texts = self.render_entries();
            let now = now();
            let ghost rendering = texts@;
            self.instant_display_rendered(texts, now);
            assert(final(self)@ == old(self)@.flushed(rendering, now));
        }
    }

    /// All visible entries as one text, with the delimiter between
    /// neighbours; `None` where no entry is visible.
    pub fn join_to_string(&self) -> (r: Option<String>)
        ensures
            r is None <==> visible_entries(self@.entries, self@.max_level).len() == 0,
            exists|texts: Seq<Option<String>>|
                is_rendering(self@.entries, self@.format_mode, self@.max_level, false, texts)
                    && text_view(r) == #[trigger] joined(texts, self@.delimiter),
    {
        let mut texts: Vec<Option<String>> = Vec::new();
        let n = self.entries.len();
        let mut i: usize = 0;
        while i < n
            invariant
                n == self@.entries.len(),
                i <= n,
                texts.len() == i,
                forall|k: int|
                    0 <= k < i ==> is_text_of(
                        self@.entries[k],
                        self@.format_mode,
                        self@.max_level,
                        false,
                        #[trigger] texts[k],
                    ),
            decreases n - i,
        {
            let text = self.get_string(i);
            texts.push(text);
            i = i + 1;
        }
        let r = join_texts(&texts, self.delimiter.as_str());
        proof {
            lemma_joined_none(
                self@.entries,
                self@.format_mode,
                self@.max_level,
                texts@,
                self@.delimiter,
            );
        }
        assert(text_view(r) == joined(texts@, self@.delimiter));
        r
    }
}

impl<T, E> ErrorLog<T, E> {
    fn mark_entries(&mut self)
        ensures
            final(self)@ == (LogView { entries: marked_all(old(self)@.entries), ..old(self)@ }),
    {
        let ghost before = self@;
        let n = self.entries.len();
        let mut i: usize = 0;
        while i < n
            invariant
                n == self.entries.len(),
                before.entries.len() == n,
                i <= n,
                self@ == (LogView { entries: self@.entries, ..before }),
                forall|k: int| 0 <= k < i ==> #[trigger] self.entries[k]@ == before.entries[k].marked(),
                forall|k: int| i <= k < n ==> #[trigger] self.entries[k]@ == before.entries[k],
            decreases n - i,
        {
            let ghost prev = self.entries@;
            self.entries[i].mark_displayed();
            assert(forall|k: int| 0 <= k < n && k != i ==> self.entries@[k] == prev[k]);
            i = i + 1;
        }
        assert(self@.entries =~= marked_all(before.entries));
    }

    /// How an error payload is turned into text.
    pub fn get_format_mode(&self) -> (r: &FormatMode)
        ensures
            *r == self@.format_mode,
    {
        &self.format_mode
    }

    /// Empties the delimiter.
    pub fn clear_delimiter(&mut self) -> (r: &mut Self)
        ensures
            r@ == (LogView { delimiter: Seq::empty(), ..old(self)@ }),
            *final(self) == *final(r),
    {
        self.delimiter = String::new();
        self
    }

    /// Sets the delimiter to what `delimiter` converts into.
    pub fn delimiter(&mut self, delimiter: impl Into<String>)
        ensures
            converted_text(delimiter, final(self)@.delimiter),
            final(self)@ == (LogView { delimiter: final(self)@.delimiter, ..old(self)@ }),
    {
        let text: String = delimiter.into();
        assert(converted(delimiter, text));
        self.delimiter = text;
    }

    /// Chooses how an error payload is turned into text.
    pub fn display_mode(&mut self, mode: FormatMode) -> (r: &mut Self)
        ensures
            r@ == (LogView { format_mode: mode, ..old(self)@ }),
            *final(self) == *final(r),
    {
        self.format_mode = mode;
        self
    }

    /// Whether a pushed entry is rendered at once.
    pub fn get_instant_display(&self) -> (r: bool)
        ensures
            r == self@.instant_display,
    {
        self.instant_display
    }

    /// Chooses whether a pushed entry is rendered at once.
    pub fn instant_display(&mut self, val: bool) -> (r: &mut Self)
        ensures
            r@ == (LogView { instant_display: val, ..old(self)@ }),
            *final(self) == *final(r),
    {
        self.instant_display = val;
        self
    }

    /// Chooses whether a display renders all entries into one record.
    pub fn join_on_display(&mut self, join: bool) -> (r: &mut Self)
        ensures
            r@ == (LogView { join, ..old(self)@ }),
            *final(self) == *final(r),
    {
        self.join = join;
        self
    }
}

impl<T, E: Debug + Display> ErrorLog<T, E> {
    /// Displays the entries; gives the success value, if there is one, for
    /// the caller to change.
    pub fn display_mut(&mut self) -> (r: Option<&mut T>)
        ensures
            old(self)@.displays(final(self)@.with_ok(old(self)@.ok)),
            match r {
                Some(value) => old(self)@.ok == Some(*value) && final(self)@.ok == Some(
                    *final(value),
                ),
                None => old(self)@.ok is None && final(self)@.ok is None,
            },
    {
        self.display_helper();
        self.ok.as_mut()
    }

    /// Displays the entries; gives the success value, if there is one, and
    /// all that was rendered and not yet taken.
    pub fn display_ok(self) -> (r: (Option<T>, Vec<Output>))
        ensures
            r.0 == self@.ok,
            self@.displays(self@.with_rendered(r.1.deep_view())),
    {
        let mut log = self;
        log.display_helper();
        (log.ok, log.rendered)
    }

    /// Displays the entries; gives the success value, if there is one.
    pub fn display_ref(&mut self) -> (r: Option<&T>)
        ensures
            old(self)@.displays(final(self)@),
            match r {
                Some(value) => old(self)@.ok == Some(*value),
                None => old(self)@.ok is None,
            },
    {
        self.display_helper();
        self.ok.as_ref()
    }

    /// Displays the entries; takes the success value, if there is one, out
    /// of the log.
    pub fn display_take(&mut self) -> (r: Option<T>)
        ensures
            r == old(self)@.ok,
            final(self)@.ok is None,
            old(self)@.displays(final(self)@.with_ok(old(self)@.ok)),
    {
        self.display_helper();
        self.ok.take()
    }

    /// Displays the entries; takes the success value out of the log. For a
    /// log that has one.
    pub fn display_take_unwrap(&mut self) -> (r: T)
        requires
            old(self)@.ok is Some,
        ensures
            Some(r) == old(self)@.ok,
            final(self)@.ok is None,
            old(self)@.displays(final(self)@.with_ok(old(self)@.ok)),
    {
        match self.display_take() {
            Some(value) => value,
            None => unreached(),
        }
    }

    /// Displays the entries; gives the success value and all that was
    /// rendered and not yet taken. For a log that has a success value.
    pub fn display_unwrap(self) -> (r: (T, Vec<Output>))
        requires
            self@.ok is Some,
        ensures
            Some(r.0) == self@.ok,
            self@.displays(self@.with_rendered(r.1.deep_view())),
    {
        let (ok, rendered) = self.display_ok();
        match ok {
            Some(value) => (value, rendered),
            None => unreached(),
        }
    }

    /// Displays the entries; gives the success value, or `or` where there is
    /// none, and all that was rendered and not yet taken.
    pub fn display_unwrap_or(self, or: T) -> (r: (T, Vec<Output>))
        ensures
            r.0 == match self@.ok {
                Some(value) => value,
                None => or,
            },
            self@.displays(self@.with_rendered(r.1.deep_view())),
    {
        let (ok, rendered) = self.display_ok();
        (ok.unwrap_or(or), rendered)
    }

    /// Displays the entries; gives the success value, or the default of its
    /// type where there is none, and all that was rendered and not yet
    /// taken.
    pub fn display_unwrap_or_default(self) -> (r: (T, Vec<Output>)) where T: Default
        ensures
            match self@.ok {
                Some(value) => r.0 == value,
                None => T::default.ensures((), r.0),
            },
            self@.displays(self@.with_rendered(r.1.deep_view())),
    {
        let (ok, rendered) = self.display_ok();
        (ok.unwrap_or_default(), rendered)
    }

    /// Displays the entries; gives the success value, or what `run` makes
    /// where there is none, and all that was rendered and not yet taken.
    pub fn display_unwrap_or_else(self, run: impl FnOnce() -> T) -> (r: (T, Vec<Output>))
        requires
            self@.ok is None ==> run.requires(()),
        ensures
            match self@.ok {
                Some(value) => r.0 == value,
                None => run.ensures((), r.0),
            },
            self@.displays(self@.with_rendered(r.1.deep_view())),
    {
        let (ok, rendered) = self.display_ok();
        (ok.unwrap_or_else(run), rendered)
    }
}

} // verus!
