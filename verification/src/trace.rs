//! What holds of whole runs: of every sequence of events that a run may be
//! given.

use crate::column_index::column_of;
use crate::error::Failure;
use crate::record::record_fields;
use crate::resolver::resolution;
use crate::run::{initial, step, Event, Reply, RunState, Stage};
use csv::StringRecord;
use vstd::prelude::*;

verus! {

/// The state that `events`, taken in order, lead to from `start`.
pub open spec fn state_after<T>(start: RunState, events: Seq<Event<T>>) -> RunState
    decreases events.len(),
{
    if events.len() == 0 {
        start
    } else {
        step(state_after(start, events.drop_last()), events.last()).0
    }
}

/// The results that are emitted while `events` are taken in order from
/// `start`, each with the row that was current when it was emitted.
pub open spec fn results<T>(start: RunState, events: Seq<Event<T>>) -> Seq<(Seq<Seq<char>>, T)>
    decreases events.len(),
{
    if events.len() == 0 {
        Seq::empty()
    } else {
        let before = state_after(start, events.drop_last());
        let earlier = results(start, events.drop_last());
        match step(before, events.last()).1 {
            Reply::Emit(result) => earlier.push((before.row, result)),
            _ => earlier,
        }
    }
}

/// The rows that become current while `events` are taken in order from
/// `start`.
pub open spec fn rows_taken<T>(start: RunState, events: Seq<Event<T>>) -> Seq<Seq<Seq<char>>>
    decreases events.len(),
{
    if events.len() == 0 {
        Seq::empty()
    } else {
        let before = state_after(start, events.drop_last());
        let earlier = rows_taken(start, events.drop_last());
        match events.last() {
            Event::Row(record) if before.stage is AwaitingRow => earlier.push(
                record_fields(record),
            ),
            _ => earlier,
        }
    }
}

/// The index is fixed when a run starts: no event changes the header that
/// names are looked up in.
pub proof fn lemma_header_is_fixed<T>(start: RunState, events: Seq<Event<T>>)
    ensures
        state_after(start, events).header == start.header,
    decreases events.len(),
{
    if events.len() > 0 {
        lemma_header_is_fixed(start, events.drop_last());
    }
}

/// A lookup only reads. While a row is evaluated, the lookup of a column that
/// the header has is answered with what the name resolves to in the current
/// row and leaves the run as it was, so that the same lookup, made again for
/// the same row, is answered alike.
pub proof fn lemma_lookup_only_reads<T>(state: RunState, name: String)
    requires
        state.stage is Evaluating,
        resolution(state.header, state.row, name@) is Some,
    ensures
        step(state, Event::<T>::Lookup(name)).0 == state,
        step(state, Event::<T>::Lookup(name)).1 == Reply::<T>::Supply(
            resolution(state.header, state.row, name@)->Some_0,
        ),
{
}

/// The first `emitted.len()` rows of `taken` are the rows of `emitted`, one
/// for one.
pub open spec fn in_row_order<T>(
    emitted: Seq<(Seq<Seq<char>>, T)>,
    taken: Seq<Seq<Seq<char>>>,
) -> bool {
    &&& emitted.len() <= taken.len()
    &&& forall|at: int| 0 <= at < emitted.len() ==> (#[trigger] emitted[at]).0 == taken[at]
}

/// Results and rows keep step. However a run that starts on a header is
/// driven, its results belong to the rows that it took, in the rows' order
/// and without a gap; at most the last row taken has no result yet. While a
/// row is being evaluated it is that last row. A run that is complete or
/// awaits a row has one result for every row.
pub proof fn lemma_results_follow_rows<T>(header: Seq<Seq<char>>, events: Seq<Event<T>>)
    ensures
        in_row_order(results(initial(header), events), rows_taken(initial(header), events)),
        rows_taken(initial(header), events).len() <= results(initial(header), events).len() + 1,
        match state_after(initial(header), events).stage {
            Stage::AwaitingRow | Stage::Complete => results(initial(header), events).len()
                == rows_taken(initial(header), events).len(),
            Stage::Evaluating => rows_taken(initial(header), events).len() == results(
                initial(header),
                events,
            ).len() + 1 && rows_taken(initial(header), events).last() == state_after(
                initial(header),
                events,
            ).row,
            Stage::Aborted(_) => true,
        },
    decreases events.len(),
{
    if events.len() > 0 {
        lemma_results_follow_rows(header, events.drop_last());
    }
}

/// The events of a run in which every row is read and evaluated to its
/// value without a lookup: for each row in turn, the row and then its value.
pub open spec fn row_events<T>(rows: Seq<StringRecord>, values: Seq<T>) -> Seq<Event<T>>
    decreases rows.len(),
{
    if rows.len() == 0 || values.len() != rows.len() {
        Seq::empty()
    } else {
        row_events(rows.drop_last(), values.drop_last()).push(Event::Row(rows.last())).push(
            Event::Value(values.last()),
        )
    }
}

/// One result for every row, in the rows' order: a run that is given each
/// row and then that row's value emits exactly the values, first row first,
/// each for its own row, and then awaits the end of the rows, on which it is
/// complete.
pub proof fn lemma_one_result_per_row<T>(
    header: Seq<Seq<char>>,
    rows: Seq<StringRecord>,
    values: Seq<T>,
)
    requires
        rows.len() == values.len(),
    ensures
        results(initial(header), row_events(rows, values)).len() == rows.len(),
        forall|at: int|
            0 <= at < rows.len() ==> #[trigger] results(
                initial(header),
                row_events(rows, values),
            )[at] == (record_fields(rows[at]), values[at]),
        state_after(initial(header), row_events(rows, values)).stage == Stage::AwaitingRow,
        step(state_after(initial(header), row_events(rows, values)), Event::<T>::Exhausted).0.stage
            == Stage::Complete,
    decreases rows.len(),
{
    if rows.len() > 0 {
        let earlier = row_events(rows.drop_last(), values.drop_last());
        let loaded = earlier.push(Event::Row(rows.last()));
        let all = row_events(rows, values);
        lemma_one_result_per_row(header, rows.drop_last(), values.drop_last());
        assert(loaded.drop_last() =~= earlier);
        assert(all.drop_last() =~= loaded);
        assert(state_after(initial(header), loaded).stage == Stage::Evaluating);
        assert(results(initial(header), loaded) == results(initial(header), earlier));
        assert(results(initial(header), all) == results(initial(header), loaded).push(
            (record_fields(rows.last()), values.last()),
        ));
    }
}

/// A failed run is over: whatever events follow, its state stays as it is
/// and no result is emitted.
pub proof fn lemma_abort_is_final<T>(state: RunState, events: Seq<Event<T>>)
    requires
        state.stage is Aborted,
    ensures
        state_after(state, events) == state,
        results(state, events).len() == 0,
    decreases events.len(),
{
    if events.len() > 0 {
        lemma_abort_is_final(state, events.drop_last());
    }
}

/// A lookup of a column that the header does not have ends the run: the run
/// is aborted with `VariableNotFound` of that name, and whatever events
/// follow, no further result is emitted.
pub proof fn lemma_missing_column_ends_run<T>(state: RunState, name: String, later: Seq<Event<T>>)
    requires
        state.stage is Evaluating,
        column_of(state.header, name@) is None,
    ensures
        step(state, Event::<T>::Lookup(name)).1 == Reply::<T>::Abort(
            Failure::VariableNotFound(name@),
        ),
        step(state, Event::<T>::Lookup(name)).0.stage == Stage::Aborted(
            Failure::VariableNotFound(name@),
        ),
        results(step(state, Event::<T>::Lookup(name)).0, later).len() == 0,
        state_after(step(state, Event::<T>::Lookup(name)).0, later).stage == Stage::Aborted(
            Failure::VariableNotFound(name@),
        ),
{
    lemma_abort_is_final(step(state, Event::<T>::Lookup(name)).0, later);
}

/// Two events say the same: they are of one kind and hold the same fields,
/// text or result.
pub open spec fn same_event<T>(one: Event<T>, other: Event<T>) -> bool {
    match (one, other) {
        (Event::Row(a), Event::Row(b)) => record_fields(a) == record_fields(b),
        (Event::Exhausted, Event::Exhausted) => true,
        (Event::SourceFailed(a), Event::SourceFailed(b)) => a@ == b@,
        (Event::Lookup(a), Event::Lookup(b)) => a@ == b@,
        (Event::Value(a), Event::Value(b)) => a == b,
        (Event::EvaluationFailed(a), Event::EvaluationFailed(b)) => a@ == b@,
        _ => false,
    }
}

/// A run carries no hidden state: two runs on the same header that are told
/// the same things, event for event, end in the same state and emit the same
/// results.
pub proof fn lemma_runs_repeat<T>(
    header: Seq<Seq<char>>,
    first: Seq<Event<T>>,
    second: Seq<Event<T>>,
)
    requires
        first.len() == second.len(),
        forall|at: int| 0 <= at < first.len() ==> same_event(first[at], second[at]),
    ensures
        state_after(initial(header), first) == state_after(initial(header), second),
        results(initial(header), first) == results(initial(header), second),
        rows_taken(initial(header), first) == rows_taken(initial(header), second),
    decreases first.len(),
{
    if first.len() > 0 {
        lemma_runs_repeat(header, first.drop_last(), second.drop_last());
        assert(same_event(first.last(), second.last()));
    }
}

} // verus!
