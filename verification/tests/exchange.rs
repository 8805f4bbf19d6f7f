use pg_statement::error::Error;
use pg_statement::exchange::{Execution, Phase, Reply, Step};

type Rows = Vec<Vec<Option<Vec<u8>>>>;

fn one_row() -> Rows {
    vec![vec![Some(b"42".to_vec())]]
}

#[test]
fn execution_starts_by_waiting_for_the_send() {
    let execution = Execution::start(true);
    assert_eq!(execution, Execution { phase: Phase::Sending, row_by_row: true });
    assert!(!execution.is_finished());
    assert!(execution.accepts(&Reply::<Rows, String>::Sent(Ok(()))));
    assert!(!execution.accepts(&Reply::<Rows, String>::RowByRowEnabled(Ok(()))));
    assert!(!execution.accepts(&Reply::<Rows, String>::Fetched(Ok(None))));
}

#[test]
fn execution_without_row_by_row_fetches_after_the_send() {
    let mut execution = Execution::start(false);
    let step = execution.step(Reply::<Rows, String>::Sent(Ok(())));
    assert!(matches!(step, Step::GetNextResult));
    assert_eq!(execution.phase, Phase::Fetching);
    assert!(!execution.accepts(&Reply::<Rows, String>::RowByRowEnabled(Ok(()))));
    let step = execution.step(Reply::<Rows, String>::Fetched(Ok(Some(one_row()))));
    match step {
        Step::Done(rows) => assert_eq!(rows, one_row()),
        other => panic!("{:?}", other),
    }
    assert!(execution.is_finished());
}

#[test]
fn execution_with_row_by_row_enables_it_before_the_fetch() {
    let mut execution = Execution::start(true);
    let step = execution.step(Reply::<Rows, String>::Sent(Ok(())));
    assert!(matches!(step, Step::EnableRowByRowMode));
    assert_eq!(execution.phase, Phase::Enabling);
    assert!(!execution.accepts(&Reply::<Rows, String>::Fetched(Ok(None))));
    let step = execution.step(Reply::<Rows, String>::RowByRowEnabled(Ok(())));
    assert!(matches!(step, Step::GetNextResult));
    assert_eq!(execution.phase, Phase::Fetching);
    let step = execution.step(Reply::<Rows, String>::Fetched(Ok(Some(one_row()))));
    assert!(matches!(step, Step::Done(rows) if rows == one_row()));
    assert_eq!(execution, Execution { phase: Phase::Finished, row_by_row: true });
}

#[test]
fn failed_send_ends_the_execution_with_its_error() {
    let mut execution = Execution::start(true);
    let step = execution.step(Reply::<Rows, String>::Sent(Err("connection lost".to_string())));
    assert!(matches!(step, Step::Failed(Error::DatabaseError(e)) if e == "connection lost"));
    assert!(execution.is_finished());
    assert!(!execution.accepts(&Reply::<Rows, String>::RowByRowEnabled(Ok(()))));
    assert!(!execution.accepts(&Reply::<Rows, String>::Fetched(Ok(None))));
    assert!(!execution.accepts(&Reply::<Rows, String>::Sent(Ok(()))));
}

#[test]
fn failed_switch_ends_the_execution_with_its_error() {
    let mut execution = Execution::start(true);
    execution.step(Reply::<Rows, String>::Sent(Ok(())));
    let step = execution.step(Reply::<Rows, String>::RowByRowEnabled(Err("busy".to_string())));
    assert!(matches!(step, Step::Failed(Error::DatabaseError(e)) if e == "busy"));
    assert!(execution.is_finished());
}

#[test]
fn failed_fetch_ends_the_execution_with_its_error() {
    let mut execution = Execution::start(false);
    execution.step(Reply::<Rows, String>::Sent(Ok(())));
    let step = execution.step(Reply::<Rows, String>::Fetched(Err("syntax error".to_string())));
    assert!(matches!(step, Step::Failed(Error::DatabaseError(e)) if e == "syntax error"));
    assert!(execution.is_finished());
}

#[test]
fn missing_result_is_no_ordinary_failure() {
    let mut execution = Execution::start(false);
    execution.step(Reply::<Rows, String>::Sent(Ok(())));
    let step = execution.step(Reply::<Rows, String>::Fetched(Ok(None)));
    assert!(matches!(step, Step::MissingResult));
    assert!(execution.is_finished());
}
