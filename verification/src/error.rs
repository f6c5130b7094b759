//! The failures that end a run.

use vstd::prelude::*;
use vstd::string::StringExecFns;

verus! {

/// A failure as contracts speak of it: the kind, and the text that it names.
pub enum Failure {
    SourceOpen(Seq<char>),
    VariableNotFound(Seq<char>),
    Evaluator(Seq<char>),
}

impl Failure {
    /// The failure in words, with the text that it names.
    pub open spec fn message(self) -> Seq<char> {
        match self {
            Failure::SourceOpen(message) => "Cannot read the rows: "@ + message,
            Failure::VariableNotFound(name) => "Cannot find Variable ["@ + name + "]"@,
            Failure::Evaluator(message) => "Cannot evaluate the formula: "@ + message,
        }
    }
}

/// Why a run ended before the rows were exhausted.
#[derive(Debug, PartialEq, Eq)]
pub enum EvalError {
    /// The rows could not be opened or read; holds the source's message.
    SourceOpen(String),
    /// The formula names a column that the header does not have; holds the
    /// name.
    VariableNotFound(String),
    /// The evaluator could not evaluate the formula; holds its message.
    Evaluator(String),
}

impl View for EvalError {
    type V = Failure;

    open spec fn view(&self) -> Failure {
        match self {
            EvalError::SourceOpen(message) => Failure::SourceOpen(message@),
            EvalError::VariableNotFound(name) => Failure::VariableNotFound(name@),
            EvalError::Evaluator(message) => Failure::Evaluator(message@),
        }
    }
}

impl EvalError {
    /// A second value of the same failure.
    pub fn duplicate(&self) -> (copy: EvalError)
        ensures
            copy@ == self@,
    {
        match self {
            EvalError::SourceOpen(message) => EvalError::SourceOpen(message.clone()),
            EvalError::VariableNotFound(name) => EvalError::VariableNotFound(name.clone()),
            EvalError::Evaluator(message) => EvalError::Evaluator(message.clone()),
        }
    }

    /// The failure in words, for whoever reads the run's outcome.
    pub fn message(&self) -> (text: String)
        ensures
            text@ == self@.message(),
    {
        match self {
            EvalError::SourceOpen(message) => String::from_str("Cannot read the rows: ").concat(
                message.as_str(),
            ),
            EvalError::VariableNotFound(name) => String::from_str("Cannot find Variable [").concat(
                name.as_str(),
            ).concat("]"),
            EvalError::Evaluator(message) => String::from_str(
                "Cannot evaluate the formula: ",
            ).concat(message.as_str()),
        }
    }

    /// The text that the failure names: the missing column's name, or the
    /// message of the source or of the evaluator.
    pub fn subject(&self) -> (text: &str)
        ensures
            self@ == Failure::SourceOpen(text@) || self@ == Failure::VariableNotFound(text@)
                || self@ == Failure::Evaluator(text@),
    {
        match self {
            EvalError::SourceOpen(message) => message.as_str(),
            EvalError::VariableNotFound(name) => name.as_str(),
            EvalError::Evaluator(message) => message.as_str(),
        }
    }
}

} // verus!
