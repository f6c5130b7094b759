//! Row-wise formula evaluation over tabular data.
//!
//! A formula names columns; for every data row the named fields are looked up
//! in the current row and handed to an expression evaluator, which gives one
//! result per row. This crate holds the rules of that pipeline: the column
//! index built from the header, the cursor that holds the current row, the
//! variable resolver, and the state machine that sequences rows, lookups and
//! results.

pub mod column_index;
pub mod cursor;
pub mod error;
pub mod record;
pub mod resolver;
pub mod run;
pub mod trace;
