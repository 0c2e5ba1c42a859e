//! Making a log, filling it, and its success value.

use crate::convert::converted;
use crate::{
    ContentView, DisplayFn, Entry, EntryView, ErrorLog, FormatMode, LevelFilter, LogView, Output,
    OutputView,
};
use std::fmt::{Debug, Display};
use vstd::prelude::*;

verus! {

impl<T, E> LogView<T, E> {
    /// The log with `entry` after its entries.
    pub open spec fn with_entry(self, entry: EntryView<E>) -> Self {
        LogView { entries: self.entries.push(entry), ..self }
    }

    /// The log with `more` after its entries.
    pub open spec fn with_entries(self, more: Seq<EntryView<E>>) -> Self {
        LogView { entries: self.entries + more, ..self }
    }

    /// The log with `more` before its entries.
    pub open spec fn with_entries_before(self, more: Seq<EntryView<E>>) -> Self {
        LogView { entries: more + self.entries, ..self }
    }

    /// The log with `ok` in the place of its success value.
    pub open spec fn with_ok(self, ok: Option<T>) -> Self {
        LogView { ok, ..self }
    }

    /// The log with `rendered` as all that was rendered and not yet taken.
    pub open spec fn with_rendered(self, rendered: Seq<OutputView>) -> Self {
        LogView { rendered, ..self }
    }
}

impl<T, E: Display> LogView<T, E> {
    /// Whether `after` is the log after a push of `content`: one new entry
    /// with that content, made at some time, was put behind the others, and
    /// then the arrival was treated.
    pub open spec fn pushes(self, content: ContentView<E>, after: Self) -> bool {
        &&& after.entries.len() == self.entries.len() + 1
        &&& after.entries.last().content == content
        &&& self.with_entry(
            EntryView { content, timestamp: after.entries.last().timestamp, shown: false },
        ).flushes(after)
    }

    /// Whether `after` is the log after a merge of `res`: the value of a
    /// success becomes the success value, the error of a failure is pushed.
    pub open spec fn merges(self, res: Result<T, E>, after: Self) -> bool {
        match res {
            Ok(value) => after == self.with_ok(Some(value)),
            Err(err) => self.pushes(ContentView::Error(err), after),
        }
    }
}

impl<T, E> ErrorLog<T, E> {
    /// An empty log: no entry, no success value, every message visible.
    pub fn new() -> (r: Self)
        ensures
            r@ == LogView::<T, E>::empty(),
    {
        let r = ErrorLog {
            format_mode: FormatMode::Normal,
            entries: Vec::new(),
            instant_display: false,
            delimiter: String::new(),
            join: false,
            max_level: LevelFilter::Trace,
            ok: None,
            display_fn: DisplayFn::Println,
            rendered: Vec::new(),
        };
        assert(r@.entries =~= Seq::empty());
        assert(r@.rendered =~= Seq::empty());
        r
    }

    /// The success value, if there is one.
    pub fn ok(&self) -> (r: &Option<T>)
        ensures
            *r == self@.ok,
    {
        &self.ok
    }

    /// The success value, if there is one; the entries are dropped unseen.
    pub fn ok_discard_err(self) -> (r: Option<T>)
        ensures
            r == self@.ok,
    {
        self.ok
    }

    /// The place of the success value, for the caller to change.
    pub fn ok_mut(&mut self) -> (r: &mut Option<T>)
        ensures
            *r == old(self)@.ok,
            final(self)@ == (LogView { ok: *final(r), ..old(self)@ }),
    {
        &mut self.ok
    }

    /// Takes the success value out of the log.
    pub fn ok_take(&mut self) -> (r: Option<T>)
        ensures
            r == old(self)@.ok,
            final(self)@ == (LogView { ok: None, ..old(self)@ }),
    {
        self.ok.take()
    }

    /// The sink that the output is meant for.
    pub fn display_fn(&self) -> (r: DisplayFn)
        ensures
            r == self@.display_fn,
    {
        self.display_fn
    }

    /// The sink that the output is meant for.
    pub fn print_fn(&self) -> (r: DisplayFn)
        ensures
            r == self@.display_fn,
    {
        self.display_fn
    }

    /// Sets the success value to what `new` converts into.
    pub fn set_ok(&mut self, new: impl Into<T>) -> (r: &mut Self)
        ensures
            r@.ok is Some,
            converted(new, r@.ok->Some_0),
            r@ == (LogView { ok: r@.ok, ..old(self)@ }),
            *final(self) == *final(r),
    {
        self.ok = Some(new.into());
        self
    }

    /// Drops the success value.
    pub fn clear_ok(&mut self) -> (r: &mut Self)
        ensures
            r@ == (LogView { ok: None, ..old(self)@ }),
            *final(self) == *final(r),
    {
        self.ok = None;
        self
    }

    /// Chooses the sink that the output is meant for.
    pub fn set_print_fn(&mut self, fun: DisplayFn) -> (r: &mut Self)
        ensures
            r@ == (LogView { display_fn: fun, ..old(self)@ }),
            *final(self) == *final(r),
    {
        self.display_fn = fun;
        self
    }

    /// Moves the entries of `other` behind the entries of this log, in their
    /// order, and leaves `other` without entries. Nothing is rendered.
    pub fn append_errors<U>(&mut self, other: &mut ErrorLog<U, E>) -> (r: &mut Self)
        ensures
            r@ == old(self)@.with_entries(old(other)@.entries),
            final(other)@ == (LogView { entries: Seq::empty(), ..old(other)@ }),
            *final(self) == *final(r),
    {
        self.entries.append(&mut other.entries);
        assert(self@.entries =~= old(self)@.entries + old(other)@.entries);
        assert(other@.entries =~= Seq::empty());
        self
    }

    /// Drops every entry; the success value stays.
    pub fn clear_entries(&mut self) -> (r: &mut Self)
        ensures
            r@ == (LogView { entries: Seq::empty(), ..old(self)@ }),
            *final(self) == *final(r),
    {
        self.entries.clear();
        assert(self@.entries =~= Seq::empty());
        self
    }

    /// Hands the log to `fun` and gives what it makes of it: a log of other
    /// types, as a rule.
    pub fn map_error_log<U, F>(self, fun: impl FnOnce(Self) -> ErrorLog<U, F>) -> (r: ErrorLog<
        U,
        F,
    >)
        requires
            fun.requires((self,)),
        ensures
            fun.ensures((self,), r),
    {
        fun(self)
    }

    /// Hands the log to `fun` and gives what it makes of it.
    pub fn map<U, F>(self, fun: impl FnOnce(Self) -> ErrorLog<U, F>) -> (r: ErrorLog<U, F>)
        requires
            fun.requires((self,)),
        ensures
            fun.ensures((self,), r),
    {
        fun(self)
    }

    /// Takes what was rendered since the last taking, oldest first.
    pub fn take_rendered(&mut self) -> (r: Vec<Output>)
        ensures
            r.deep_view() == old(self)@.rendered,
            final(self)@ == (LogView { rendered: Seq::empty(), ..old(self)@ }),
    {
        let mut out: Vec<Output> = Vec::new();
        out.append(&mut self.rendered);
        assert(out.deep_view() =~= old(self)@.rendered);
        assert(self@.rendered =~= Seq::empty());
        out
    }

    /// What was rendered since the last taking, oldest first.
    pub fn rendered(&self) -> (r: &Vec<Output>)
        ensures
            r.deep_view() == self@.rendered,
    {
        &self.rendered
    }
}

impl<T, E> Default for ErrorLog<T, E> {
    fn default() -> (r: Self)
        ensures
            r@ == LogView::<T, E>::empty(),
    {
        ErrorLog::new()
    }
}

impl<T, E: Debug + Display> ErrorLog<T, E> {
    /// Puts `entry` behind the entries and treats its arrival.
    pub(crate) fn push_entry(&mut self, entry: Entry<E>)
        requires
            !entry@.shown,
        ensures
            old(self)@.pushes(entry@.content, final(self)@),
    {
        let ghost pushed = entry@;
        self.entries.push(entry);
        let ghost mid = self@;
        assert(mid.entries =~= old(self)@.entries.push(pushed));
        self.instant_display_helper();
        proof {
            if mid.instant_display {
                let (texts, now) = choose|texts: Seq<Option<String>>, now: i64|
                    mid.renders(texts) && self@ == #[trigger] mid.flushed(texts, now);
                assert(self@.entries.len() == mid.entries.len());
                assert(self@.entries.last().content == pushed.content);
                assert(self@.entries.last().timestamp == pushed.timestamp);
            }
        }
    }

    /// Moves the entries of `other` behind the entries of this log, in their
    /// order, leaves `other` without entries, and treats the arrival.
    pub fn append_entries<U>(&mut self, other: &mut ErrorLog<U, E>) -> (r: &mut Self)
        ensures
            old(self)@.with_entries(old(other)@.entries).flushes(r@),
            final(other)@ == (LogView { entries: Seq::empty(), ..old(other)@ }),
            *final(self) == *final(r),
    {
        self.entries.append(&mut other.entries);
        assert(self@.entries =~= old(self)@.entries + old(other)@.entries);
        assert(other@.entries =~= Seq::empty());
        self.instant_display_helper();
        self
    }

    /// Moves the entries of `other` before the entries of this log, in their
    /// order, leaves `other` without entries, and treats the arrival.
    pub fn prepend_entries<U>(&mut self, other: &mut ErrorLog<U, E>) -> (r: &mut Self)
        ensures
            old(self)@.with_entries_before(old(other)@.entries).flushes(r@),
            final(other)@ == (LogView { entries: Seq::empty(), ..old(other)@ }),
            *final(self) == *final(r),
    {
        let mut entries = Vec::new();
        entries.append(&mut other.entries);
        entries.append(&mut self.entries);
        self.entries = entries;
        assert(self@.entries =~= old(other)@.entries + old(self)@.entries);
        assert(other@.entries =~= Seq::empty());
        self.instant_display_helper();
        self
    }

    /// Stores what `err` converts into as a new entry, made now, and treats
    /// its arrival.
    pub fn push_err<F: Into<E>>(&mut self, err: F) -> (r: &mut Self)
        ensures
            r@.entries.len() > 0,
            r@.entries.last().content is Error,
            converted(err, r@.entries.last().content->Error_0),
            old(self)@.pushes(r@.entries.last().content, r@),
            *final(self) == *final(r),
    {
        self.push_entry(Entry::new_error(err.into()));
        self
    }

    /// Gives the value of a success and changes nothing; stores the error of
    /// a failure as [`push_err`](Self::push_err) does and gives `None`.
    pub fn push_result<U, F: Into<E>>(&mut self, res: Result<U, F>) -> (r: Option<U>)
        ensures
            match res {
                Ok(value) => r == Some(value) && final(self)@ == old(self)@,
                Err(err) => {
                    &&& r is None
                    &&& final(self)@.entries.len() > 0
                    &&& final(self)@.entries.last().content is Error
                    &&& converted(err, final(self)@.entries.last().content->Error_0)
                    &&& old(self)@.pushes(final(self)@.entries.last().content, final(self)@)
                },
            },
    {
        match res {
            Ok(value) => Some(value),
            Err(err) => {
                self.push_entry(Entry::new_error(err.into()));
                None
            },
        }
    }

    /// Makes the value of a success the success value of the log, in place
    /// of an earlier one, and gives `true`; stores the error of a failure as
    /// [`push_err`](Self::push_err) does and gives `false`.
    pub fn merge_result<U: Into<T>, F: Into<E>>(&mut self, res: Result<U, F>) -> (r: bool)
        ensures
            r == res is Ok,
            match res {
                Ok(value) => {
                    &&& final(self)@.ok is Some
                    &&& converted(value, final(self)@.ok->Some_0)
                    &&& old(self)@.merges(Ok(final(self)@.ok->Some_0), final(self)@)
                },
                Err(err) => {
                    &&& final(self)@.entries.len() > 0
                    &&& final(self)@.entries.last().content is Error
                    &&& converted(err, final(self)@.entries.last().content->Error_0)
                    &&& old(self)@.merges(
                        Err(final(self)@.entries.last().content->Error_0),
                        final(self)@,
                    )
                },
            },
    {
        match res {
            Ok(value) => {
                self.ok = Some(value.into());
                true
            },
            Err(err) => {
                self.push_entry(Entry::new_error(err.into()));
                false
            },
        }
    }
}

} // verus!
