//! Shorthands: iterating a log, reaching its success value by dereference,
//! and operators for pushing and merging.

use crate::convert::converted;
use crate::{ContentView, Entry, ErrorLog, LogView};
use std::fmt::{Debug, Display};
use std::ops::{AddAssign, Deref, MulAssign};
use vstd::prelude::*;
use vstd::std_specs::iter::IteratorSpec;

verus! {

impl<T, E> IntoIterator for ErrorLog<T, E> {
    type Item = Entry<E>;

    type IntoIter = std::vec::IntoIter<Entry<E>>;

    /// Goes through all entries, oldest first, whatever the threshold.
    fn into_iter(self) -> (r: Self::IntoIter)
        ensures
            r.remaining().len() == self@.entries.len(),
            forall|i: int|
                0 <= i < self@.entries.len() ==> (#[trigger] r.remaining()[i])@
                    == self@.entries[i],
    {
        self.entries.into_iter()
    }
}

impl<T, E> Deref for ErrorLog<T, E> {
    type Target = Option<T>;

    /// `*log` is [`ok`](ErrorLog::ok): the success value, if there is one.
    fn deref(&self) -> (r: &Option<T>)
        ensures
            *r == self@.ok,
    {
        self.ok()
    }
}

impl<T, E: Debug + Display> AddAssign<E> for ErrorLog<T, E> {
    /// `log += error` is [`push_err`](ErrorLog::push_err).
    fn add_assign(&mut self, rhs: E)
        ensures
            old(self)@.pushes(ContentView::Error(rhs), final(self)@),
    {
        self.push_err(rhs);
    }
}

impl<T, U, E: Debug + Display> AddAssign<Result<U, E>> for ErrorLog<T, E> {
    /// `log += result` is [`push_result`](ErrorLog::push_result), without
    /// the value of a success.
    fn add_assign(&mut self, rhs: Result<U, E>)
        ensures
            match rhs {
                Ok(_) => final(self)@ == old(self)@,
                Err(err) => old(self)@.pushes(ContentView::Error(err), final(self)@),
            },
    {
        self.push_result(rhs);
    }
}

impl<T, U: Into<T>, E: Debug + Display, F: Into<E>> MulAssign<Result<U, F>> for ErrorLog<T, E> {
    /// `log *= result` is [`merge_result`](ErrorLog::merge_result).
    fn mul_assign(&mut self, rhs: Result<U, F>)
        ensures
            match rhs {
                Ok(value) => {
                    &&& final(self)@.ok is Some
                    &&& converted(value, final(self)@.ok->Some_0)
                    &&& old(self)@.merges(Ok(final(self)@.ok->Some_0), final(self)@)
                },
                Err(err) => {
                    &&& final(self)@.entries.len() > 0
                    &&& final(self)@.entries.last().content is Error
                    &&& converted(err, final(self)@.entries.last().content->Error_0)
                    &&& old(self)@.merges(
                        Err(final(self)@.entries.last().content->Error_0),
                        final(self)@,
                    )
                },
            },
    {
        self.merge_result(rhs);
    }
}

impl<T, U: Into<T>, E> MulAssign<Option<U>> for ErrorLog<T, E> {
    /// `log *= option` sets the success value to what the value of a `Some`
    /// converts into, and changes nothing for a `None`.
    fn mul_assign(&mut self, rhs: Option<U>)
        ensures
            match rhs {
                Some(value) => {
                    &&& final(self)@.ok is Some
                    &&& converted(value, final(self)@.ok->Some_0)
                    &&& final(self)@ == (LogView { ok: final(self)@.ok, ..old(self)@ })
                },
                None => final(self)@ == old(self)@,
            },
    {
        if let Some(value) = rhs {
            self.set_ok(value);
        }
    }
}

} // verus!
