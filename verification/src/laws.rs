//! What holds of a log over several operations.

use crate::display::{is_rendering, is_text_of, joined, records};
use crate::get::{passes, visible_entries};
use crate::{ContentView, EntryView, FormatMode, LevelFilter, LogView, OutputView};
use std::fmt::Display;
use vstd::prelude::*;

verus! {

/// Whether `logs` are the states of a log over a run of pushes: each state
/// but the first is the one before it after a push of the content at the
/// same place.
pub open spec fn is_push_run<T, E: Display>(
    logs: Seq<LogView<T, E>>,
    contents: Seq<ContentView<E>>,
) -> bool {
    &&& logs.len() == contents.len() + 1
    &&& forall|i: int|
        0 <= i < contents.len() ==> (#[trigger] logs[i]).pushes(contents[i], logs[i + 1])
}

/// Whether `logs` are the states of a log over a run of merges: each state
/// but the first is the one before it after a merge of the result at the
/// same place.
pub open spec fn is_merge_run<T, E: Display>(
    logs: Seq<LogView<T, E>>,
    results: Seq<Result<T, E>>,
) -> bool {
    &&& logs.len() == results.len() + 1
    &&& forall|i: int|
        0 <= i < results.len() ==> (#[trigger] logs[i]).merges(results[i], logs[i + 1])
}

/// The value of the last success among `results`, or `start` where there is
/// none.
pub open spec fn last_success<T, E>(start: Option<T>, results: Seq<Result<T, E>>) -> Option<T>
    decreases results.len(),
{
    if results.len() == 0 {
        start
    } else {
        match results.last() {
            Ok(value) => Some(value),
            Err(_) => last_success(start, results.drop_last()),
        }
    }
}

/// The errors of the failures among `results`, in their order.
pub open spec fn failures<T, E>(results: Seq<Result<T, E>>) -> Seq<E> {
    results.filter_map(
        |res: Result<T, E>|
            match res {
                Ok(_) => None,
                Err(err) => Some(err),
            },
    )
}

/// The given errors as the contents of entries, in their order.
pub open spec fn as_errors<E>(errors: Seq<E>) -> Seq<ContentView<E>> {
    errors.map_values(|err: E| ContentView::Error(err))
}

/// The contents of `entries`, in their order.
pub open spec fn contents<E>(entries: Seq<EntryView<E>>) -> Seq<ContentView<E>> {
    entries.map_values(|entry: EntryView<E>| entry.content)
}

/// The arrival of entries changes neither what the entries hold nor their
/// times, nor the success value, nor a setting; it only adds to what was
/// rendered.
pub proof fn lemma_flushes_keeps<T, E: Display>(log: LogView<T, E>, after: LogView<T, E>)
    requires
        log.flushes(after),
    ensures
        contents(after.entries) == contents(log.entries),
        after.entries.len() == log.entries.len(),
        forall|i: int|
            0 <= i < log.entries.len() ==> (#[trigger] after.entries[i]).timestamp
                == log.entries[i].timestamp,
        forall|i: int|
            0 <= i < log.entries.len() && log.entries[i].shown ==> (
            #[trigger] after.entries[i]).shown,
        after == (LogView { entries: after.entries, rendered: after.rendered, ..log }),
        log.rendered.is_prefix_of(after.rendered),
{
    if log.instant_display {
        let (texts, now) = choose|texts: Seq<Option<String>>, now: i64|
            log.renders(texts) && after == #[trigger] log.flushed(texts, now);
        assert(after.entries.len() == log.entries.len());
        assert(contents(after.entries) =~= contents(log.entries));
    }
}

/// A push adds one entry with the pushed content behind the others and
/// keeps what those hold, the success value and the settings.
pub proof fn lemma_pushes_keeps<T, E: Display>(
    log: LogView<T, E>,
    content: ContentView<E>,
    after: LogView<T, E>,
)
    requires
        log.pushes(content, after),
    ensures
        contents(after.entries) == contents(log.entries).push(content),
        after == (LogView { entries: after.entries, rendered: after.rendered, ..log }),
        log.rendered.is_prefix_of(after.rendered),
{
    let entry = EntryView { content, timestamp: after.entries.last().timestamp, shown: false };
    lemma_flushes_keeps(log.with_entry(entry), after);
    assert(contents(log.with_entry(entry).entries) =~= contents(log.entries).push(content));
}

/// After any run of pushes the log holds what it held before and, behind
/// that, the pushed contents in the order of the pushes; its success value
/// is what it was. So a new log that gets N pushes holds N entries and no
/// success value.
pub proof fn lemma_pushes_accumulate<T, E: Display>(
    logs: Seq<LogView<T, E>>,
    pushed: Seq<ContentView<E>>,
)
    requires
        is_push_run(logs, pushed),
    ensures
        contents(logs.last().entries) == contents(logs[0].entries) + pushed,
        logs.last().entries.len() == logs[0].entries.len() + pushed.len(),
        logs.last().ok == logs[0].ok,
    decreases pushed.len(),
{
    if pushed.len() == 0 {
        assert(contents(logs[0].entries) + pushed =~= contents(logs[0].entries));
    } else {
        let n = pushed.len() as int;
        let before = logs.drop_last();
        assert(is_push_run(before, pushed.drop_last())) by {
            assert forall|i: int| 0 <= i < n - 1 implies (#[trigger] before[i]).pushes(
                pushed.drop_last()[i],
                before[i + 1],
            ) by {
                assert(logs[i].pushes(pushed[i], logs[i + 1]));
            }
        }
        lemma_pushes_accumulate(before, pushed.drop_last());
        assert(logs[n - 1].pushes(pushed[n - 1], logs[n]));
        lemma_pushes_keeps(logs[n - 1], pushed[n - 1], logs[n]);
        assert(contents(logs[0].entries) + pushed =~= (contents(logs[0].entries)
            + pushed.drop_last()).push(pushed[n - 1]));
        assert(contents(logs.last().entries).len() == logs.last().entries.len());
        assert(contents(logs[0].entries).len() == logs[0].entries.len());
    }
}

/// After any run of merges the success value of the log is the value of
/// the last success that was merged, or what it was where none was; and the
/// log holds what it held before and, behind that, the error of every
/// failure that was merged, in the order of the merges.
pub proof fn lemma_merges_keep_last_success<T, E: Display>(
    logs: Seq<LogView<T, E>>,
    results: Seq<Result<T, E>>,
)
    requires
        is_merge_run(logs, results),
    ensures
        logs.last().ok == last_success(logs[0].ok, results),
        contents(logs.last().entries) == contents(logs[0].entries) + as_errors(failures(results)),
    decreases results.len(),
{
    if results.len() == 0 {
        assert(contents(logs[0].entries) + as_errors(failures(results)) =~= contents(
            logs[0].entries,
        ));
    } else {
        let n = results.len() as int;
        let before = logs.drop_last();
        let earlier = results.drop_last();
        assert(is_merge_run(before, earlier)) by {
            assert forall|i: int| 0 <= i < n - 1 implies (#[trigger] before[i]).merges(
                earlier[i],
                before[i + 1],
            ) by {
                assert(logs[i].merges(results[i], logs[i + 1]));
            }
        }
        lemma_merges_keep_last_success(before, earlier);
        assert(logs[n - 1].merges(results[n - 1], logs[n]));
        match results[n - 1] {
            Ok(value) => {
                assert(failures(results) == failures(earlier));
            },
            Err(err) => {
                lemma_pushes_keeps(logs[n - 1], ContentView::Error(err), logs[n]);
                assert(failures(results) == failures(earlier) + seq![err]);
                assert(as_errors(failures(results)) =~= as_errors(failures(earlier)).push(
                    ContentView::Error(err),
                ));
                assert(contents(logs[0].entries) + as_errors(failures(results)) =~= (contents(
                    logs[0].entries,
                ) + as_errors(failures(earlier))).push(ContentView::Error(err)));
            },
        }
    }
}

/// An entry that passes a threshold passes every threshold that is at
/// least as verbose, and a failure passes every threshold, `Off` too.
pub proof fn lemma_visible_monotonic<E>(entry: EntryView<E>, low: LevelFilter, high: LevelFilter)
    ensures
        low.rank() <= high.rank() && entry.visible(low) ==> entry.visible(high),
        entry.content is Error ==> entry.visible(low),
{
}

/// Filtering by a threshold after filtering by one that is at least as
/// verbose gives what filtering by the first alone gives: the entries that
/// pass the lower threshold are among those that pass the higher one, in
/// the same order. With twice the same threshold: filtering again changes
/// nothing.
pub proof fn lemma_filter_monotonic<E>(
    entries: Seq<EntryView<E>>,
    low: LevelFilter,
    high: LevelFilter,
)
    requires
        low.rank() <= high.rank(),
    ensures
        visible_entries(visible_entries(entries, high), low) == visible_entries(entries, low),
        forall|entry: EntryView<E>|
            visible_entries(entries, low).contains(entry) ==> #[trigger] visible_entries(
                entries,
                high,
            ).contains(entry),
    decreases entries.len(),
{
    reveal(Seq::filter);
    if entries.len() > 0 {
        let rest = entries.drop_last();
        let last = entries.last();
        lemma_filter_monotonic(rest, low, high);
        lemma_visible_monotonic(last, low, high);
        assert(entries =~= rest.push(last));
        rest.lemma_filter_push(last, passes(high));
        rest.lemma_filter_push(last, passes(low));
        if last.visible(high) {
            visible_entries(rest, high).lemma_filter_push(last, passes(low));
        }
    }
    assert forall|entry: EntryView<E>|
        visible_entries(entries, low).contains(entry) implies #[trigger] visible_entries(
        entries,
        high,
    ).contains(entry) by {
        let i = choose|i: int|
            0 <= i < visible_entries(entries, low).len() && visible_entries(entries, low)[i]
                == entry;
        entries.lemma_filter_pred(passes(low), i);
        entries.lemma_filter_contains_rev(passes(low), entry);
        let k = choose|k: int| 0 <= k < entries.len() && entries[k] == entry;
        lemma_visible_monotonic(entry, low, high);
        entries.lemma_filter_contains(passes(high), k);
    }
}

/// A rendering joins to nothing exactly where it holds no text, and a
/// rendering of all that passes the threshold holds no text exactly where
/// no entry passes the threshold.
pub proof fn lemma_joined_none<E: Display>(
    entries: Seq<EntryView<E>>,
    mode: FormatMode,
    max_level: LevelFilter,
    texts: Seq<Option<String>>,
    delimiter: Seq<char>,
)
    requires
        is_rendering(entries, mode, max_level, false, texts),
    ensures
        joined(texts, delimiter) is None <==> forall|i: int|
            0 <= i < texts.len() ==> (#[trigger] texts[i]) is None,
        joined(texts, delimiter) is None <==> visible_entries(entries, max_level).len() == 0,
    decreases texts.len(),
{
    reveal(Seq::filter);
    if texts.len() > 0 {
        let rest = entries.drop_last();
        assert(is_rendering(rest, mode, max_level, false, texts.drop_last())) by {
            assert forall|i: int| 0 <= i < rest.len() implies is_text_of(
                rest[i],
                mode,
                max_level,
                false,
                #[trigger] texts.drop_last()[i],
            ) by {
                assert(is_text_of(entries[i], mode, max_level, false, texts[i]));
            }
        }
        lemma_joined_none(rest, mode, max_level, texts.drop_last(), delimiter);
        assert(entries =~= rest.push(entries.last()));
        rest.lemma_filter_push(entries.last(), passes(max_level));
        assert(is_text_of(entries.last(), mode, max_level, false, texts[texts.len() - 1]));
        if joined(texts, delimiter) is None {
            assert forall|i: int| 0 <= i < texts.len() implies (#[trigger] texts[i]) is None by {
                if i < texts.len() - 1 {
                    assert(texts.drop_last()[i] is None);
                }
            }
        }
        if forall|i: int| 0 <= i < texts.len() ==> (#[trigger] texts[i]) is None {
            assert forall|i: int| 0 <= i < texts.drop_last().len() implies (
            #[trigger] texts.drop_last()[i]) is None by {
                assert(texts[i] is None);
            }
            assert(texts[texts.len() - 1] is None);
        }
    }
}

/// A rendering of all that passes the threshold gives one record for each
/// entry that passes it, in the order of the entries, with the severity and
/// the time of that entry.
pub proof fn lemma_one_record_per_visible_entry<E: Display>(
    entries: Seq<EntryView<E>>,
    mode: FormatMode,
    max_level: LevelFilter,
    texts: Seq<Option<String>>,
)
    requires
        is_rendering(entries, mode, max_level, false, texts),
    ensures
        records(entries, texts).len() == visible_entries(entries, max_level).len(),
        forall|k: int|
            0 <= k < records(entries, texts).len() ==> {
                &&& #[trigger] records(entries, texts)[k] matches OutputView::Record {
                    level,
                    timestamp,
                    ..
                }
                &&& level == visible_entries(entries, max_level)[k].level()
                &&& timestamp == visible_entries(entries, max_level)[k].timestamp
            },
    decreases texts.len(),
{
    reveal(Seq::filter);
    if texts.len() > 0 {
        let rest = entries.drop_last();
        assert(is_rendering(rest, mode, max_level, false, texts.drop_last())) by {
            assert forall|i: int| 0 <= i < rest.len() implies is_text_of(
                rest[i],
                mode,
                max_level,
                false,
                #[trigger] texts.drop_last()[i],
            ) by {
                assert(is_text_of(entries[i], mode, max_level, false, texts[i]));
            }
        }
        lemma_one_record_per_visible_entry(rest, mode, max_level, texts.drop_last());
        assert(entries =~= rest.push(entries.last()));
        rest.lemma_filter_push(entries.last(), passes(max_level));
        assert(is_text_of(entries.last(), mode, max_level, false, texts[texts.len() - 1]));
        assert forall|k: int| 0 <= k < records(entries, texts).len() implies {
            &&& #[trigger] records(entries, texts)[k] matches OutputView::Record {
                level,
                timestamp,
                ..
            }
            &&& level == visible_entries(entries, max_level)[k].level()
            &&& timestamp == visible_entries(entries, max_level)[k].timestamp
        } by {
            if k < records(rest, texts.drop_last()).len() {
                assert(records(entries, texts)[k] == records(rest, texts.drop_last())[k]);
                assert(visible_entries(entries, max_level)[k] == visible_entries(
                    rest,
                    max_level,
                )[k]);
            }
        }
    }
}

/// Where entries are rendered on arrival as single records, a push renders
/// the new entry at once if it passes the threshold, as the last record of
/// what is rendered, and a display that follows renders no entry again: it
/// emits no record, only the delimiter if there is one.
pub proof fn lemma_instant_display_renders_once<T, E: Display>(
    log: LogView<T, E>,
    content: ContentView<E>,
    pushed: LogView<T, E>,
    displayed: LogView<T, E>,
)
    requires
        log.instant_display,
        !log.join,
        log.pushes(content, pushed),
        pushed.displays(displayed),
    ensures
        pushed.entries.last().visible(log.max_level) ==> {
            &&& pushed.rendered.len() > log.rendered.len()
            &&& pushed.rendered.last() matches OutputView::Record { level, timestamp, .. }
            &&& level == pushed.entries.last().level()
            &&& timestamp == pushed.entries.last().timestamp
        },
        forall|i: int| 0 <= i < pushed.entries.len() ==> (#[trigger] pushed.entries[i]).shown,
        displayed.rendered == if log.delimiter.len() > 0 {
            pushed.rendered.push(OutputView::Delimiter(log.delimiter))
        } else {
            pushed.rendered
        },
{
    let entry = EntryView { content, timestamp: pushed.entries.last().timestamp, shown: false };
    let arrived = log.with_entry(entry);
    let (texts, now) = choose|texts: Seq<Option<String>>, now: i64|
        arrived.renders(texts) && pushed == #[trigger] arrived.flushed(texts, now);
    assert(is_text_of(entry, log.format_mode, log.max_level, true, texts[texts.len() - 1])) by {
        assert(arrived.entries[texts.len() - 1] == entry);
    }
    let (again, later) = choose|again: Seq<Option<String>>, later: i64|
        pushed.renders(again) && displayed == #[trigger] pushed.displayed(again, later);
    lemma_records_of_nothing(pushed.entries, again);
    assert(pushed.rendered + Seq::<OutputView>::empty() =~= pushed.rendered);
}

/// A rendering without a text gives no record.
pub proof fn lemma_records_of_nothing<E>(entries: Seq<EntryView<E>>, texts: Seq<Option<String>>)
    requires
        forall|i: int| 0 <= i < texts.len() ==> (#[trigger] texts[i]) is None,
    ensures
        records(entries, texts) == Seq::<OutputView>::empty(),
    decreases texts.len(),
{
    if texts.len() > 0 {
        assert forall|i: int| 0 <= i < texts.drop_last().len() implies (
        #[trigger] texts.drop_last()[i]) is None by {
            assert(texts[i] is None);
        }
        lemma_records_of_nothing(entries.drop_last(), texts.drop_last());
        assert(texts[texts.len() - 1] is None);
    }
}

} // verus!
