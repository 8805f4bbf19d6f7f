use pg_statement::bare::{SendQuery, Statement};
use pg_statement::error::Error;
use pg_statement::exchange::{Execution, Reply, Step};
use pg_statement::prepared;
use pg_statement::types::{FailedToLookupTypeError, PgTypeMetadata};

type Rows = Vec<Vec<Option<Vec<u8>>>>;

/// A stand-in for a server behind a pooling proxy: it keeps nothing
/// between calls and answers a query with one row that holds the values
/// it was sent.
struct Proxy {
    queries: Vec<(Vec<u8>, i32, Vec<u32>)>,
    pending: Vec<Rows>,
    calls: Vec<&'static str>,
}

impl Proxy {
    fn new() -> Proxy {
        Proxy { queries: Vec::new(), pending: Vec::new(), calls: Vec::new() }
    }

    fn send_query(&mut self, request: &SendQuery) -> Result<(), String> {
        self.calls.push("send_query");
        let count = request.param_count as usize;
        assert_eq!(request.param_types.len(), count);
        assert_eq!(request.param_values.len(), count);
        assert_eq!(request.param_lengths.len(), count);
        assert_eq!(request.param_formats.len(), count);
        assert_eq!(request.result_format, 1);
        let mut row = Vec::new();
        for i in 0..count {
            assert_eq!(request.param_formats[i], 1);
            row.push(request.param_values[i].map(|p| p[..request.param_lengths[i] as usize].to_vec()));
        }
        self.queries.push((
            request.sql.as_bytes_with_nul().to_vec(),
            request.param_count,
            request.param_types.clone(),
        ));
        self.pending = vec![vec![row]];
        Ok(())
    }

    fn enable_row_by_row_mode(&mut self) -> Result<(), String> {
        self.calls.push("enable_row_by_row_mode");
        self.pending.push(Vec::new());
        Ok(())
    }

    fn get_next_result(&mut self) -> Result<Option<Rows>, String> {
        self.calls.push("get_next_result");
        if self.pending.is_empty() {
            Ok(None)
        } else {
            Ok(Some(self.pending.remove(0)))
        }
    }
}

fn int4() -> PgTypeMetadata {
    PgTypeMetadata::new(23, 1007)
}

fn unknown(typname: &str) -> PgTypeMetadata {
    PgTypeMetadata::from_result(Err(FailedToLookupTypeError {
        schema: Some("public".to_string()),
        typname: typname.to_string(),
    }))
}

fn execute(
    proxy: &mut Proxy,
    statement: &Statement,
    data: &[Option<Vec<u8>>],
    row_by_row: bool,
) -> Result<Rows, Error<String>> {
    assert_eq!(data.len(), statement.param_count());
    let (request, mut execution) = statement.execute(data, row_by_row)?;
    let mut reply = Reply::Sent(proxy.send_query(&request));
    loop {
        assert!(execution.accepts(&reply));
        match execution.step(reply) {
            Step::EnableRowByRowMode => {
                reply = Reply::RowByRowEnabled(proxy.enable_row_by_row_mode())
            }
            Step::GetNextResult => reply = Reply::Fetched(proxy.get_next_result()),
            Step::Done(rows) => return Ok(rows),
            Step::Failed(error) => return Err(error),
            Step::MissingResult => panic!("Is never none"),
        }
    }
}

#[test]
fn unnamed_statement_returns_the_value_and_then_null() {
    let mut proxy = Proxy::new();
    let statement = Statement::prepare::<String>("SELECT $1::int4", Some("s1"), &[int4()]).unwrap();
    assert!(proxy.calls.is_empty());

    let rows = execute(&mut proxy, &statement, &[Some(b"42".to_vec())], false).unwrap();
    assert_eq!(rows, vec![vec![Some(b"42".to_vec())]]);
    let rows = execute(&mut proxy, &statement, &[None], false).unwrap();
    assert_eq!(rows, vec![vec![None]]);

    assert_eq!(proxy.queries.len(), 2);
    for query in &proxy.queries {
        assert_eq!(query.0, b"SELECT $1::int4\0".to_vec());
        assert_eq!(query.1, 1);
        assert_eq!(query.2, vec![23]);
    }
}

#[test]
fn unnamed_statement_tells_null_from_the_empty_value() {
    let mut proxy = Proxy::new();
    let types = [PgTypeMetadata::new(25, 1009), PgTypeMetadata::new(25, 1009)];
    let statement = Statement::prepare::<String>("SELECT $1::text, $2::text", None, &types).unwrap();
    let rows = execute(&mut proxy, &statement, &[Some(Vec::new()), None], true).unwrap();
    assert_eq!(rows, vec![vec![Some(Vec::new()), None]]);
}

#[test]
fn unnamed_and_named_statements_send_the_same_arrays() {
    let data = vec![Some(b"42".to_vec()), None, Some(Vec::new())];
    let types = [int4(), int4(), int4()];
    let bare = Statement::prepare::<String>("SELECT $1, $2, $3", None, &types).unwrap();
    let (sent, started) = bare.execute::<String>(&data, true).unwrap();

    let preparation =
        prepared::Statement::prepare::<String>("SELECT $1, $2, $3", Some("s1"), &types).unwrap();
    let named = match preparation.step(prepared::PrepareReply::<(), String>::Prepared(Ok(()))) {
        prepared::PrepareStep::Inspect(next, ()) => {
            match next.step(prepared::PrepareReply::<(), String>::Inspected(Ok(()))) {
                prepared::PrepareStep::Done(statement) => statement,
                other => panic!("{:?}", other),
            }
        }
        other => panic!("{:?}", other),
    };
    let (by_name, also_started) = named.execute(&data, true);

    assert_eq!(sent.param_count, by_name.param_count);
    assert_eq!(sent.param_values, by_name.param_values);
    assert_eq!(sent.param_lengths, by_name.param_lengths);
    assert_eq!(&sent.param_formats[..], by_name.param_formats);
    assert_eq!(sent.result_format, by_name.result_format);
    assert_eq!(started, also_started);
    assert_eq!(sent.param_types, vec![23, 23, 23]);
}

#[test]
fn unnamed_request_carries_text_oids_and_arrays() {
    let types = [int4(), PgTypeMetadata::new(25, 1009)];
    let statement = Statement::prepare::<String>("SELECT $1, $2", None, &types).unwrap();
    assert_eq!(statement.param_count(), 2);
    let data = vec![Some(vec![0, 0, 0, 9]), None];
    let (request, execution) = statement.execute::<String>(&data, false).unwrap();
    assert_eq!(request.sql.as_bytes(), b"SELECT $1, $2");
    assert_eq!(request.param_count, 2);
    assert_eq!(request.param_types, vec![23, 25]);
    assert_eq!(request.param_values, vec![Some(&[0u8, 0, 0, 9][..]), None]);
    assert_eq!(request.param_lengths, vec![4, 0]);
    assert_eq!(request.param_formats, vec![1, 1]);
    assert_eq!(request.result_format, 1);
    assert_eq!(execution, Execution::start(false));
}

#[test]
fn unnamed_prepare_checks_nothing() {
    let types = [unknown("mood")];
    let statement = Statement::prepare::<String>("SELECT\0 $1", Some("s\01"), &types);
    assert!(statement.is_ok());
    assert_eq!(statement.unwrap().param_count(), 1);
}

#[test]
fn unnamed_execute_refuses_a_zero_byte_in_the_sql() {
    let mut proxy = Proxy::new();
    let statement = Statement::prepare::<String>("SELECT\0 1", None, &[]).unwrap();
    let refused = execute(&mut proxy, &statement, &[], false).unwrap_err();
    assert!(matches!(refused, Error::InvalidCString(e) if e.position == 6));
    assert!(proxy.calls.is_empty());
}

#[test]
fn unnamed_execute_fails_on_an_unresolved_type_and_sends_nothing() {
    let mut proxy = Proxy::new();
    let types = [int4(), unknown("mood"), unknown("colour")];
    let statement = Statement::prepare::<String>("SELECT $1, $2, $3", None, &types).unwrap();
    let data = vec![None, None, None];
    let refused = execute(&mut proxy, &statement, &data, false).unwrap_err();
    assert!(matches!(
        refused,
        Error::SerializationError(f) if f.typname == "mood" && f.schema.as_deref() == Some("public")
    ));
    assert!(proxy.calls.is_empty());
    assert!(proxy.queries.is_empty());
}

#[test]
fn unnamed_execute_checks_the_text_before_the_types() {
    let statement = Statement::prepare::<String>("\0", None, &[unknown("mood")]).unwrap();
    let refused = statement.execute::<String>(&[None], false).unwrap_err();
    assert!(matches!(refused, Error::InvalidCString(e) if e.position == 0));
}

#[test]
fn unnamed_execution_enables_row_by_row_between_send_and_fetch() {
    let mut proxy = Proxy::new();
    let statement = Statement::prepare::<String>("SELECT $1::int4", None, &[int4()]).unwrap();
    execute(&mut proxy, &statement, &[Some(b"42".to_vec())], true).unwrap();
    assert_eq!(proxy.calls, vec!["send_query", "enable_row_by_row_mode", "get_next_result"]);
    proxy.calls.clear();
    execute(&mut proxy, &statement, &[Some(b"42".to_vec())], false).unwrap();
    assert_eq!(proxy.calls, vec!["send_query", "get_next_result"]);
}

#[test]
fn unnamed_statement_sends_the_whole_text_every_time() {
    let mut proxy = Proxy::new();
    let statement = Statement::prepare::<String>("SELECT 1", None, &[]).unwrap();
    for _ in 0..3 {
        execute(&mut proxy, &statement, &[], false).unwrap();
    }
    assert_eq!(proxy.queries.len(), 3);
    assert!(proxy.queries.iter().all(|q| q.0 == b"SELECT 1\0".to_vec() && q.1 == 0));
}
