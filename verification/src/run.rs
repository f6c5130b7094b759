//! The evaluation loop as a state machine.
//!
//! The evaluator and the row source live outside this crate. Whoever drives a
//! run reads rows and calls the evaluator, tells the run what happened as an
//! `Event`, and does what the `Action` that comes back says. The run decides
//! the order of things: one row is current at a time, lookups read that row
//! only, every row gives one result, and a failure ends the run for good.

use crate::column_index::ColumnIndex;
use crate::cursor::RowCursor;
use crate::error::{EvalError, Failure};
use crate::record::record_fields;
use crate::resolver::{resolution, resolve, Resolution, Resolved};
use csv::StringRecord;
use vstd::prelude::*;

verus! {

/// Where a run stands.
pub enum Stage {
    /// The next row, or the end of the rows, is awaited.
    AwaitingRow,
    /// The formula is being evaluated against the current row.
    Evaluating,
    /// The rows are exhausted and every row has given its result.
    Complete,
    /// The run has failed.
    Aborted(Failure),
}

/// A run as contracts speak of it.
pub struct RunState {
    /// The names of the columns.
    pub header: Seq<Seq<char>>,
    /// The fields of the row that the cursor holds.
    pub row: Seq<Seq<char>>,
    pub stage: Stage,
}

/// What happened outside the run.
#[derive(Debug)]
pub enum Event<T> {
    /// The source gave its next row.
    Row(StringRecord),
    /// The source has no more rows.
    Exhausted,
    /// The source could not be opened or read; holds its message.
    SourceFailed(String),
    /// The formula refers to the column of this name.
    Lookup(String),
    /// The evaluator has the formula's result for the current row.
    Value(T),
    /// The evaluator could not evaluate the formula; holds its message.
    EvaluationFailed(String),
}

/// What the driver of a run has to do next.
#[derive(Debug, PartialEq)]
pub enum Action<T> {
    /// Read the next row from the source.
    ReadRow,
    /// Evaluate the formula against the current row, or go on doing so.
    Evaluate,
    /// Hand this value to the evaluator as what the lookup found, and go on
    /// evaluating.
    Supply(Resolved),
    /// Emit this result for the current row, then read the next row.
    Emit(T),
    /// Stop: every row has been evaluated.
    Finish,
    /// Stop: the run has failed.
    Abort(EvalError),
}

/// An action as contracts speak of it.
pub enum Reply<T> {
    ReadRow,
    Evaluate,
    Supply(Resolution),
    Emit(T),
    Finish,
    Abort(Failure),
}

impl<T> View for Action<T> {
    type V = Reply<T>;

    open spec fn view(&self) -> Reply<T> {
        match self {
            Action::ReadRow => Reply::ReadRow,
            Action::Evaluate => Reply::Evaluate,
            Action::Supply(value) => Reply::Supply(value@),
            Action::Emit(result) => Reply::Emit(*result),
            Action::Finish => Reply::Finish,
            Action::Abort(failure) => Reply::Abort(failure@),
        }
    }
}

/// The state of a run that has just been started on `header`.
pub open spec fn initial(header: Seq<Seq<char>>) -> RunState {
    RunState { header, row: Seq::empty(), stage: Stage::AwaitingRow }
}

/// `state` after it has failed with `failure`.
pub open spec fn aborted(state: RunState, failure: Failure) -> RunState {
    RunState { header: state.header, row: state.row, stage: Stage::Aborted(failure) }
}

/// One step of a run: the state that follows `state` on `event`, and the
/// action that the event is answered with.
///
/// An event that the stage does not wait for changes nothing and is answered
/// with what the run still waits for. A run that is complete or aborted stays
/// so on every event.
pub open spec fn step<T>(state: RunState, event: Event<T>) -> (RunState, Reply<T>) {
    match state.stage {
        Stage::AwaitingRow => match event {
            Event::Row(record) => (
                RunState {
                    header: state.header,
                    row: record_fields(record),
                    stage: Stage::Evaluating,
                },
                Reply::Evaluate,
            ),
            Event::Exhausted => (
                RunState { header: state.header, row: state.row, stage: Stage::Complete },
                Reply::Finish,
            ),
            Event::SourceFailed(message) => (
                aborted(state, Failure::SourceOpen(message@)),
                Reply::Abort(Failure::SourceOpen(message@)),
            ),
            _ => (state, Reply::ReadRow),
        },
        Stage::Evaluating => match event {
            Event::Lookup(name) => match resolution(state.header, state.row, name@) {
                Some(value) => (state, Reply::Supply(value)),
                None => (
                    aborted(state, Failure::VariableNotFound(name@)),
                    Reply::Abort(Failure::VariableNotFound(name@)),
                ),
            },
            Event::Value(result) => (
                RunState { header: state.header, row: state.row, stage: Stage::AwaitingRow },
                Reply::Emit(result),
            ),
            Event::EvaluationFailed(message) => (
                aborted(state, Failure::Evaluator(message@)),
                Reply::Abort(Failure::Evaluator(message@)),
            ),
            _ => (state, Reply::Evaluate),
        },
        Stage::Complete => (state, Reply::Finish),
        Stage::Aborted(failure) => (state, Reply::Abort(failure)),
    }
}

/// The progress of a run, without the failure that an aborted run holds.
#[derive(Clone, Copy, Debug, PartialEq, Eq, Structural)]
pub enum Progress {
    AwaitingRow,
    Evaluating,
    Complete,
    Aborted,
}

enum Phase {
    AwaitingRow,
    Evaluating,
    Complete,
    Aborted(EvalError),
}

/// A run of one formula over the rows of one table.
pub struct Run {
    index: ColumnIndex,
    cursor: RowCursor,
    phase: Phase,
}

impl View for Run {
    type V = RunState;

    closed spec fn view(&self) -> RunState {
        RunState {
            header: self.index@,
            row: self.cursor@,
            stage: match self.phase {
                Phase::AwaitingRow => Stage::AwaitingRow,
                Phase::Evaluating => Stage::Evaluating,
                Phase::Complete => Stage::Complete,
                Phase::Aborted(failure) => Stage::Aborted(failure@),
            },
        }
    }
}

impl Run {
    /// Starts a run over the table with this header. The index is built here,
    /// once; no row is current yet.
    pub fn start(header: &StringRecord) -> (run: Run)
        ensures
            run@ == initial(record_fields(*header)),
    {
        Run {
            index: ColumnIndex::build(header),
            cursor: RowCursor::new(),
            phase: Phase::AwaitingRow,
        }
    }

    /// The progress of the run.
    pub fn progress(&self) -> (progress: Progress)
        ensures
            match self@.stage {
                Stage::AwaitingRow => progress == Progress::AwaitingRow,
                Stage::Evaluating => progress == Progress::Evaluating,
                Stage::Complete => progress == Progress::Complete,
                Stage::Aborted(_) => progress == Progress::Aborted,
            },
    {
        match &self.phase {
            Phase::AwaitingRow => Progress::AwaitingRow,
            Phase::Evaluating => Progress::Evaluating,
            Phase::Complete => Progress::Complete,
            Phase::Aborted(_) => Progress::Aborted,
        }
    }

    /// The failure that ended the run, if one did.
    pub fn failure(&self) -> (failure: Option<EvalError>)
        ensures
            match failure {
                Some(found) => self@.stage == Stage::Aborted(found@),
                None => !(self@.stage is Aborted),
            },
    {
        match &self.phase {
            Phase::Aborted(failure) => Some(failure.duplicate()),
            _ => None,
        }
    }

    fn abort<T>(&mut self, failure: EvalError) -> (action: Action<T>)
        ensures
            final(self)@ == aborted(old(self)@, failure@),
            action@ == Reply::<T>::Abort(failure@),
    {
        let copy = failure.duplicate();
        self.phase = Phase::Aborted(failure);
        Action::Abort(copy)
    }

    /// Takes one event and says what to do next, as `step` has it.
    pub fn advance<T>(&mut self, event: Event<T>) -> (action: Action<T>)
        ensures
            final(self)@ == step(old(self)@, event).0,
            action@ == step(old(self)@, event).1,
    {
        match self.progress() {
            Progress::AwaitingRow => match event {
                Event::Row(record) => {
                    self.cursor.replace(record);
                    self.phase = Phase::Evaluating;
                    Action::Evaluate
                },
                Event::Exhausted => {
                    self.phase = Phase::Complete;
                    Action::Finish
                },
                Event::SourceFailed(message) => self.abort(EvalError::SourceOpen(message)),
                _ => Action::ReadRow,
            },
            Progress::Evaluating => match event {
                Event::Lookup(name) => match resolve(&self.index, &self.cursor, name.as_str()) {
                    Ok(value) => Action::Supply(value),
                    Err(failure) => self.abort(failure),
                },
                Event::Value(result) => {
                    self.phase = Phase::AwaitingRow;
                    Action::Emit(result)
                },
                Event::EvaluationFailed(message) => self.abort(EvalError::Evaluator(message)),
                _ => Action::Evaluate,
            },
            Progress::Complete => Action::Finish,
            Progress::Aborted => match self.failure() {
                Some(failure) => Action::Abort(failure),
                None => Action::Finish,
            },
        }
    }
}

} // verus!
