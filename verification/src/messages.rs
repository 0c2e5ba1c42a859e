//! Messages and the threshold of their severity.

use crate::convert::{converted, converted_text};
use crate::{Entry, ErrorLog, LevelFilter, LogView};
use std::fmt::{Debug, Display};
use vstd::prelude::*;

verus! {

impl<T, E> ErrorLog<T, E> {
    /// Sets the most verbose severity that is still rendered. With
    /// [`LevelFilter::Off`] no message is rendered; errors always are.
    pub fn max_level(&mut self, level: LevelFilter) -> (r: &mut Self)
        ensures
            r@ == (LogView { max_level: level, ..old(self)@ }),
            *final(self) == *final(r),
    {
        self.max_level = level;
        self
    }

    /// Sets the most verbose severity that is still rendered by the kind of
    /// build: `debug` for a debug build, `release` for any other.
    pub fn max_level_debug(
        &mut self,
        release: LevelFilter,
        debug: LevelFilter,
        debug_build: bool,
    ) -> (r: &mut Self)
        ensures
            r@ == (LogView {
                max_level: if debug_build {
                    debug
                } else {
                    release
                },
                ..old(self)@
            }),
            *final(self) == *final(r),
    {
        self.max_level = if debug_build {
            debug
        } else {
            release
        };
        self
    }

    /// The most verbose severity that is still rendered.
    pub fn get_max_level(&self) -> (r: &LevelFilter)
        ensures
            *r == self@.max_level,
    {
        &self.max_level
    }
}

impl<T, E: Debug + Display> ErrorLog<T, E> {
    /// Stores a message of the given severity as a new entry, made now, and
    /// treats its arrival. The message is stored whatever the threshold is.
    pub fn push_message(&mut self, level: LevelFilter, msg: impl Into<String>) -> (r: &mut Self)
        ensures
            r@.entries.len() > 0,
            r@.entries.last().content is Message,
            r@.entries.last().content->level == level,
            converted_text(msg, r@.entries.last().content->message),
            old(self)@.pushes(r@.entries.last().content, r@),
            *final(self) == *final(r),
    {
        let message: String = msg.into();
        assert(converted(msg, message));
        self.push_entry(Entry::new_message(level, message));
        self
    }
}

} // verus!
