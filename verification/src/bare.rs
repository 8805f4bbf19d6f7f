//! Statements that are sent whole on every execution, for servers behind a
//! pooling proxy that keeps no prepared statement between calls.

use vstd::prelude::*;
use vstd::string::StringSliceAdditionalSpecFns;
use crate::error::Error;
use crate::exchange::{all_succeed, lemma_exchange_succeeds, steps_of, Execution, Step};
use crate::params::{
    all_binary, binary_formats, lengths_of, param_lengths, param_pointers, pointers_of,
    pointers_view, to_wire_int, wire_int, BINARY_FORMAT,
};
use crate::types::{
    all_resolved, is_first_unresolved, resolve_oids, resolved_oids, FailedToLookupTypeError,
    InnerPgTypeMetadata, Oid, PgTypeMetadata,
};
use crate::wire::{has_nul, is_first_nul, WireString};

verus! {

/// The arguments of the call that sends a query with its parameters.
#[derive(Debug)]
pub struct SendQuery<'a> {
    pub sql: WireString,
    pub param_count: i32,
    pub param_types: Vec<Oid>,
    pub param_values: Vec<Option<&'a [u8]>>,
    pub param_lengths: Vec<i32>,
    pub param_formats: Vec<i32>,
    pub result_format: i32,
}

/// A SQL text and the types of its parameters, kept as they were given.
#[derive(Debug)]
pub struct Statement {
    sql: Vec<u8>,
    param_types: Vec<PgTypeMetadata>,
}

/// What a statement holds.
pub ghost struct StatementView {
    pub sql: Seq<u8>,
    pub param_types: Seq<PgTypeMetadata>,
}

/// What the call that sends a query is given.
pub ghost struct SendQueryView {
    pub sql: Seq<u8>,
    pub param_count: i32,
    pub param_types: Seq<Oid>,
    pub param_values: Seq<Option<Seq<u8>>>,
    pub param_lengths: Seq<i32>,
    pub param_formats: Seq<i32>,
    pub result_format: i32,
}

impl<'a> View for SendQuery<'a> {
    type V = SendQueryView;

    open spec fn view(&self) -> SendQueryView {
        SendQueryView {
            sql: self.sql@,
            param_count: self.param_count,
            param_types: self.param_types@,
            param_values: pointers_view(self.param_values@),
            param_lengths: self.param_lengths@,
            param_formats: self.param_formats@,
            result_format: self.result_format,
        }
    }
}

impl View for Statement {
    type V = StatementView;

    closed spec fn view(&self) -> StatementView {
        StatementView { sql: self.sql@, param_types: self.param_types@ }
    }
}

impl StatementView {
    /// The number of parameters of the statement.
    pub open spec fn param_count(self) -> nat {
        self.param_types.len()
    }

    /// `execute` can send the statement: the SQL text holds no zero byte
    /// and every parameter type has its oid.
    pub open spec fn sendable(self) -> bool {
        !has_nul(self.sql) && all_resolved(self.param_types)
    }

    /// The call that executes the statement with `params`.
    pub open spec fn send_query(self, params: Seq<Option<Vec<u8>>>) -> SendQueryView {
        SendQueryView {
            sql: self.sql,
            param_count: wire_int(self.param_types.len()),
            param_types: resolved_oids(self.param_types),
            param_values: pointers_of(params),
            param_lengths: lengths_of(params),
            param_formats: all_binary(self.param_types.len()),
            result_format: BINARY_FORMAT,
        }
    }
}

impl Statement {
    /// Keeps the SQL text and the parameter types as they are. Nothing is
    /// checked and nothing is sent: this never fails, and the name is not
    /// used.
    pub fn prepare<E>(sql: &str, _name: Option<&str>, param_types: &[PgTypeMetadata]) -> (made: Result<
        Statement,
        Error<E>,
    >)
        ensures
            made is Ok,
            made->Ok_0@ == (StatementView { sql: sql.spec_bytes(), param_types: param_types@ }),
    {
        let text = sql.as_bytes();
        let mut bytes: Vec<u8> = Vec::new();
        let mut i: usize = 0;
        while i < text.len()
            invariant
                i <= text.len(),
                bytes@ == text@.subrange(0, i as int),
            decreases text.len() - i,
        {
            bytes.push(text[i]);
            proof {
                assert(bytes@ =~= text@.subrange(0, i + 1));
            }
            i += 1;
        }
        let mut types: Vec<PgTypeMetadata> = Vec::new();
        let mut k: usize = 0;
        while k < param_types.len()
            invariant
                k <= param_types.len(),
                types@ == param_types@.subrange(0, k as int),
            decreases param_types.len() - k,
        {
            types.push(param_types[k].clone());
            proof {
                assert(types@ =~= param_types@.subrange(0, k + 1));
            }
            k += 1;
        }
        proof {
            assert(bytes@ =~= text@);
            assert(types@ =~= param_types@);
        }
        Ok(Statement { sql: bytes, param_types: types })
    }

    /// The number of parameters of the statement.
    pub fn param_count(&self) -> (count: usize)
        ensures
            count == self@.param_count(),
    {
        self.param_types.len()
    }

    /// Builds the call that sends this statement with `param_data` and
    /// starts the exchange that follows it.
    ///
    /// Fails with `InvalidCString` if and only if the SQL text holds a zero
    /// byte. Otherwise fails with `SerializationError` if and only if some
    /// parameter type has no oid, and carries the failure of the first such
    /// type. No call is asked for on failure. On success the call carries
    /// the SQL text, the oid of every parameter type, one pointer and one
    /// length per parameter (a null pointer and length zero for an absent
    /// value), one binary format per parameter, and asks for binary
    /// results.
    pub fn execute<'a, E>(&self, param_data: &'a [Option<Vec<u8>>], row_by_row: bool) -> (call: Result<
        (SendQuery<'a>, Execution),
        Error<E>,
    >)
        requires
            param_data@.len() == self@.param_count(),
        ensures
            call is Ok <==> self@.sendable(),
            call matches Err(Error::InvalidCString(_)) <==> has_nul(self@.sql),
            call matches Err(Error::SerializationError(_)) <==> !has_nul(self@.sql) && !all_resolved(
                self@.param_types,
            ),
            match call {
                Ok(started) => started.0@ == self@.send_query(param_data@) && started.1
                    == Execution::initial(row_by_row),
                Err(Error::InvalidCString(e)) => is_first_nul(self@.sql, e.position as int),
                Err(Error::SerializationError(failure)) => !has_nul(self@.sql) && exists|at: int|
                    is_first_unresolved(self@.param_types, at) && (#[trigger] self@.param_types[at]).inner
                        == Err::<InnerPgTypeMetadata, FailedToLookupTypeError>(failure),
                Err(Error::DatabaseError(_)) => false,
            },
    {
        let sql = match WireString::from_bytes(self.sql.as_slice()) {
            Ok(sql) => sql,
            Err(e) => {
                return Err(Error::InvalidCString(e));
            },
        };
        let param_types = match resolve_oids(self.param_types.as_slice()) {
            Ok(oids) => oids,
            Err(failure) => {
                return Err(Error::SerializationError(failure));
            },
        };
        let param_values = param_pointers(param_data);
        let param_lengths = param_lengths(param_data);
        let param_formats = binary_formats(param_types.len());
        let request = SendQuery {
            sql,
            param_count: to_wire_int(param_types.len()),
            param_types,
            param_values,
            param_lengths,
            param_formats,
            result_format: BINARY_FORMAT,
        };
        Ok((request, Execution::start(row_by_row)))
    }
}

/// A statement whose SQL text holds no zero byte and whose parameter
/// types all have their oid is executed without error, provided that the
/// connection accepts every call and has a result: the call carries one
/// oid, one pointer, one length and one binary format per parameter, and
/// the execution ends with the result fetched.
pub proof fn lemma_prepare_then_execute_succeeds<R, E>(
    sql: Seq<u8>,
    types: Seq<PgTypeMetadata>,
    params: Seq<Option<Vec<u8>>>,
    row_by_row: bool,
    result: R,
)
    requires
        !has_nul(sql),
        all_resolved(types),
        params.len() == types.len(),
    ensures
        ({
            let statement = StatementView { sql, param_types: types };
            let request = statement.send_query(params);
            &&& statement.sendable()
            &&& request.sql == sql
            &&& request.param_types.len() == params.len()
            &&& request.param_values.len() == params.len()
            &&& request.param_lengths.len() == params.len()
            &&& request.param_formats == all_binary(params.len())
            &&& steps_of(Execution::initial(row_by_row), all_succeed::<R, E>(row_by_row, result)).last()
                == Step::<R, E>::Done(result)
        }),
{
    lemma_exchange_succeeds::<R, E>(row_by_row, result);
    assert(resolved_oids(types).len() == types.len());
}

/// The two kinds of statement hand the connection the same parameter
/// arrays for the same values: only the name on one side, and the SQL text
/// with the oids on the other, differ.
pub proof fn lemma_same_arrays_as_prepared(
    statement: StatementView,
    prepared: crate::prepared::StatementView,
    params: Seq<Option<Vec<u8>>>,
)
    requires
        params.len() == statement.param_count(),
        prepared.param_formats == all_binary(params.len()),
    ensures
        ({
            let sent = statement.send_query(params);
            let by_name = prepared.send_query_prepared(params);
            &&& sent.param_values == by_name.param_values
            &&& sent.param_lengths == by_name.param_lengths
            &&& sent.param_formats == by_name.param_formats
            &&& sent.param_count == by_name.param_count
            &&& sent.result_format == by_name.result_format
        }),
{
}

} // verus!
