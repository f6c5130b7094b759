use csv::StringRecord;
use rowformula::column_index::ColumnIndex;
use rowformula::cursor::RowCursor;
use rowformula::error::EvalError;
use rowformula::resolver::{resolve, Resolved};

fn cursor_on(row: Vec<&str>) -> RowCursor {
    let mut cursor = RowCursor::new();
    cursor.replace(StringRecord::from(row));
    cursor
}

fn number(resolved: Resolved) -> Option<f64> {
    match resolved {
        Resolved::Text(text) => Some(text.parse::<f64>().unwrap_or(f64::NAN)),
        Resolved::Absent => None,
    }
}

#[test]
fn numeric_field_resolves_to_its_text() {
    let index = ColumnIndex::build(&StringRecord::from(vec!["a", "b"]));
    let cursor = cursor_on(vec!["2", "3.25"]);
    assert_eq!(resolve(&index, &cursor, "a"), Ok(Resolved::Text("2".to_owned())));
    assert_eq!(resolve(&index, &cursor, "b"), Ok(Resolved::Text("3.25".to_owned())));
    assert_eq!(number(resolve(&index, &cursor, "a").unwrap()), Some(2.0));
    assert_eq!(number(resolve(&index, &cursor, "b").unwrap()), Some(3.25));
}

#[test]
fn text_that_is_no_number_resolves_and_reads_as_nan() {
    let index = ColumnIndex::build(&StringRecord::from(vec!["a", "b"]));
    let cursor = cursor_on(vec!["4", "x"]);
    let resolved = resolve(&index, &cursor, "b");
    assert_eq!(resolved, Ok(Resolved::Text("x".to_owned())));
    assert!(number(resolved.unwrap()).unwrap().is_nan());
}

#[test]
fn empty_field_resolves_to_empty_text() {
    let index = ColumnIndex::build(&StringRecord::from(vec!["a", "b"]));
    let cursor = cursor_on(vec!["", "1"]);
    let resolved = resolve(&index, &cursor, "a");
    assert_eq!(resolved, Ok(Resolved::Text(String::new())));
    assert!(number(resolved.unwrap()).unwrap().is_nan());
}

#[test]
fn short_row_resolves_to_absent() {
    let index = ColumnIndex::build(&StringRecord::from(vec!["a", "b", "c"]));
    let cursor = cursor_on(vec!["1"]);
    assert_eq!(resolve(&index, &cursor, "a"), Ok(Resolved::Text("1".to_owned())));
    assert_eq!(resolve(&index, &cursor, "b"), Ok(Resolved::Absent));
    assert_eq!(resolve(&index, &cursor, "c"), Ok(Resolved::Absent));
}

#[test]
fn cursor_without_a_row_resolves_to_absent() {
    let index = ColumnIndex::build(&StringRecord::from(vec!["a"]));
    let cursor = RowCursor::new();
    assert_eq!(resolve(&index, &cursor, "a"), Ok(Resolved::Absent));
}

#[test]
fn unknown_name_fails_with_variable_not_found() {
    let index = ColumnIndex::build(&StringRecord::from(vec!["a"]));
    let cursor = cursor_on(vec!["1"]);
    assert_eq!(
        resolve(&index, &cursor, "missing"),
        Err(EvalError::VariableNotFound("missing".to_owned()))
    );
}

#[test]
fn unknown_name_fails_on_a_short_row_too() {
    let index = ColumnIndex::build(&StringRecord::from(vec!["a", "b"]));
    let cursor = cursor_on(vec![]);
    assert_eq!(
        resolve(&index, &cursor, "c"),
        Err(EvalError::VariableNotFound("c".to_owned()))
    );
}

#[test]
fn longer_row_is_read_at_the_named_column_only() {
    let index = ColumnIndex::build(&StringRecord::from(vec!["a"]));
    let cursor = cursor_on(vec!["1", "2", "3"]);
    assert_eq!(resolve(&index, &cursor, "a"), Ok(Resolved::Text("1".to_owned())));
}

#[test]
fn repeated_name_reads_its_last_column() {
    let index = ColumnIndex::build(&StringRecord::from(vec!["a", "a"]));
    let cursor = cursor_on(vec!["1", "2"]);
    assert_eq!(resolve(&index, &cursor, "a"), Ok(Resolved::Text("2".to_owned())));
    let short = cursor_on(vec!["1"]);
    assert_eq!(resolve(&index, &short, "a"), Ok(Resolved::Absent));
}

#[test]
fn failure_names_its_subject() {
    assert_eq!(EvalError::VariableNotFound("missing".to_owned()).subject(), "missing");
    assert_eq!(EvalError::SourceOpen("no such file".to_owned()).subject(), "no such file");
    assert_eq!(EvalError::Evaluator("unexpected token".to_owned()).subject(), "unexpected token");
    let failure = EvalError::Evaluator("unexpected token".to_owned());
    assert_eq!(failure.duplicate(), failure);
}

#[test]
fn failure_says_what_went_wrong() {
    assert_eq!(
        EvalError::VariableNotFound("missing".to_owned()).message(),
        "Cannot find Variable [missing]"
    );
    assert_eq!(EvalError::VariableNotFound(String::new()).message(), "Cannot find Variable []");
    assert_eq!(
        EvalError::SourceOpen("no such file".to_owned()).message(),
        "Cannot read the rows: no such file"
    );
    assert_eq!(
        EvalError::Evaluator("unexpected token".to_owned()).message(),
        "Cannot evaluate the formula: unexpected token"
    );
}
