//! Statements that the server prepares once under a name and executes by
//! that name afterwards.

use vstd::prelude::*;
use vstd::string::StringSliceAdditionalSpecFns;
use crate::error::Error;
use crate::exchange::{all_succeed, lemma_exchange_succeeds, steps_of, Execution, Step};
use crate::params::{
    all_binary, binary_formats, lengths_of, param_lengths, param_pointers, param_types_to_ptr,
    pointers_of, pointers_view, to_wire_int, wire_int, BINARY_FORMAT,
};
use crate::types::{
    all_resolved, is_first_unresolved, resolve_oids, resolved_oids, FailedToLookupTypeError,
    InnerPgTypeMetadata, Oid, PgTypeMetadata,
};
use crate::wire::{has_nul, is_first_nul, WireString};

verus! {

/// The bytes of the name that a statement is prepared under: those of the
/// name given, or none where no name is given.
pub open spec fn name_bytes(name: Option<&str>) -> Seq<u8> {
    match name {
        Some(name) => name.spec_bytes(),
        None => Seq::empty(),
    }
}

/// The call whose outcome a preparation waits for.
#[derive(Clone, Copy, Debug, PartialEq, Eq, Structural)]
pub enum PreparePhase {
    /// The statement has been handed to the connection.
    Preparing,
    /// The server's response is being inspected for errors.
    Inspecting,
}

/// The outcome of one call made for a preparation. `W` is the raw
/// response of the connection, `E` its error type.
#[derive(Debug)]
pub enum PrepareReply<W, E> {
    /// Of the prepare call.
    Prepared(Result<W, E>),
    /// Of inspecting the raw response: an error where the server refused
    /// the statement.
    Inspected(Result<(), E>),
}

/// What the driver of a preparation does next.
#[derive(Debug)]
pub enum PrepareStep<W, E> {
    /// Inspect this raw response, then go on with this preparation.
    Inspect(Preparation, W),
    /// The statement is prepared.
    Done(Statement),
    /// The preparation failed.
    Failed(Error<E>),
}

/// The arguments of the prepare call.
#[derive(Debug)]
pub struct PrepareRequest<'a> {
    pub name: &'a WireString,
    pub sql: &'a WireString,
    pub param_count: i32,
    pub param_types: Option<&'a [Oid]>,
}

/// The arguments of the call that executes a prepared statement.
#[derive(Debug)]
pub struct SendQueryPrepared<'a> {
    pub name: &'a WireString,
    pub param_count: i32,
    pub param_values: Vec<Option<&'a [u8]>>,
    pub param_lengths: Vec<i32>,
    pub param_formats: &'a [i32],
    pub result_format: i32,
}

/// A statement on its way to being prepared.
#[derive(Debug)]
pub struct Preparation {
    name: WireString,
    sql: WireString,
    param_types: Vec<Oid>,
    phase: PreparePhase,
}

/// A statement that the server has prepared.
#[derive(Debug)]
pub struct Statement {
    name: WireString,
    param_formats: Vec<i32>,
}

/// What a preparation holds.
pub ghost struct PreparationView {
    pub name: Seq<u8>,
    pub sql: Seq<u8>,
    pub param_types: Seq<Oid>,
    pub phase: PreparePhase,
}

/// What a prepared statement holds.
pub ghost struct StatementView {
    pub name: Seq<u8>,
    pub param_formats: Seq<i32>,
}

/// A step of a preparation, over what its parts hold.
pub ghost enum PrepareStepView<W, E> {
    Inspect(PreparationView, W),
    Done(StatementView),
    Failed(Error<E>),
}

/// What a prepare call is given.
pub ghost struct PrepareRequestView {
    pub name: Seq<u8>,
    pub sql: Seq<u8>,
    pub param_count: i32,
    pub param_types: Option<Seq<Oid>>,
}

/// What the call that executes a prepared statement is given.
pub ghost struct SendQueryPreparedView {
    pub name: Seq<u8>,
    pub param_count: i32,
    pub param_values: Seq<Option<Seq<u8>>>,
    pub param_lengths: Seq<i32>,
    pub param_formats: Seq<i32>,
    pub result_format: i32,
}

impl<'a> View for PrepareRequest<'a> {
    type V = PrepareRequestView;

    open spec fn view(&self) -> PrepareRequestView {
        PrepareRequestView {
            name: self.name@,
            sql: self.sql@,
            param_count: self.param_count,
            param_types: match self.param_types {
                Some(types) => Some(types@),
                None => None,
            },
        }
    }
}

impl<'a> View for SendQueryPrepared<'a> {
    type V = SendQueryPreparedView;

    open spec fn view(&self) -> SendQueryPreparedView {
        SendQueryPreparedView {
            name: self.name@,
            param_count: self.param_count,
            param_values: pointers_view(self.param_values@),
            param_lengths: self.param_lengths@,
            param_formats: self.param_formats@,
            result_format: self.result_format,
        }
    }
}

impl<W, E> View for PrepareStep<W, E> {
    type V = PrepareStepView<W, E>;

    open spec fn view(&self) -> PrepareStepView<W, E> {
        match *self {
            PrepareStep::Inspect(preparation, raw) => PrepareStepView::Inspect(preparation@, raw),
            PrepareStep::Done(statement) => PrepareStepView::Done(statement@),
            PrepareStep::Failed(error) => PrepareStepView::Failed(error),
        }
    }
}

impl View for Preparation {
    type V = PreparationView;

    closed spec fn view(&self) -> PreparationView {
        PreparationView {
            name: self.name@,
            sql: self.sql@,
            param_types: self.param_types@,
            phase: self.phase,
        }
    }
}

impl View for Statement {
    type V = StatementView;

    closed spec fn view(&self) -> StatementView {
        StatementView { name: self.name@, param_formats: self.param_formats@ }
    }
}

/// `prepare` accepts these arguments: neither text holds a zero byte and
/// every parameter type has its oid.
pub open spec fn prepare_accepts(name: Seq<u8>, sql: Seq<u8>, types: Seq<PgTypeMetadata>) -> bool {
    !has_nul(name) && !has_nul(sql) && all_resolved(types)
}

/// The preparation that `prepare` makes of arguments it accepts.
pub open spec fn preparation_of(
    name: Seq<u8>,
    sql: Seq<u8>,
    types: Seq<PgTypeMetadata>,
) -> PreparationView {
    PreparationView { name, sql, param_types: resolved_oids(types), phase: PreparePhase::Preparing }
}

impl PreparationView {
    /// `reply` is the outcome of the call that the preparation waits for.
    pub open spec fn awaits<W, E>(self, reply: PrepareReply<W, E>) -> bool {
        match (self.phase, reply) {
            (PreparePhase::Preparing, PrepareReply::Prepared(_)) => true,
            (PreparePhase::Inspecting, PrepareReply::Inspected(_)) => true,
            _ => false,
        }
    }

    /// The prepare call that the preparation asks for.
    pub open spec fn request(self) -> PrepareRequestView {
        PrepareRequestView {
            name: self.name,
            sql: self.sql,
            param_count: wire_int(self.param_types.len()),
            param_types: Some(self.param_types),
        }
    }

    /// The statement that the preparation ends in when the server accepts
    /// it: the name as given, and one binary format per parameter.
    pub open spec fn statement(self) -> StatementView {
        StatementView { name: self.name, param_formats: all_binary(self.param_types.len()) }
    }

    /// What the driver does after `reply`.
    pub open spec fn next_step<W, E>(self, reply: PrepareReply<W, E>) -> PrepareStepView<W, E> {
        match reply {
            PrepareReply::Prepared(Ok(raw)) => PrepareStepView::Inspect(
                PreparationView { phase: PreparePhase::Inspecting, ..self },
                raw,
            ),
            PrepareReply::Inspected(Ok(_)) => PrepareStepView::Done(self.statement()),
            PrepareReply::Prepared(Err(e)) => PrepareStepView::Failed(Error::DatabaseError(e)),
            PrepareReply::Inspected(Err(e)) => PrepareStepView::Failed(Error::DatabaseError(e)),
        }
    }
}

impl StatementView {
    /// The number of parameters that the statement was prepared with.
    pub open spec fn param_count(self) -> nat {
        self.param_formats.len()
    }

    /// The call that executes the statement with `params`.
    pub open spec fn send_query_prepared(self, params: Seq<Option<Vec<u8>>>) -> SendQueryPreparedView {
        SendQueryPreparedView {
            name: self.name,
            param_count: wire_int(params.len()),
            param_values: pointers_of(params),
            param_lengths: lengths_of(params),
            param_formats: self.param_formats,
            result_format: BINARY_FORMAT,
        }
    }
}

impl Preparation {
    /// Tells whether `reply` is the outcome that this preparation waits for.
    pub fn accepts<W, E>(&self, reply: &PrepareReply<W, E>) -> (accepted: bool)
        ensures
            accepted == self@.awaits(*reply),
    {
        match (self.phase, reply) {
            (PreparePhase::Preparing, PrepareReply::Prepared(_)) => true,
            (PreparePhase::Inspecting, PrepareReply::Inspected(_)) => true,
            _ => false,
        }
    }

    /// The arguments of the prepare call: the name, the SQL text, the
    /// number of parameters and their oids.
    pub fn request<'a>(&'a self) -> (request: PrepareRequest<'a>)
        ensures
            request@ == self@.request(),
    {
        PrepareRequest {
            name: &self.name,
            sql: &self.sql,
            param_count: to_wire_int(self.param_types.len()),
            param_types: param_types_to_ptr(Some(&self.param_types)),
        }
    }

    /// Takes the outcome of the call last asked for and says what to do
    /// next. The raw response of a successful prepare call is handed back
    /// for inspection, so that an error of the server shows now. An error
    /// of either call ends the preparation with that error.
    pub fn step<W, E>(self, reply: PrepareReply<W, E>) -> (step: PrepareStep<W, E>)
        requires
            self@.awaits(reply),
        ensures
            step@ == self@.next_step(reply),
    {
        match reply {
            PrepareReply::Prepared(Ok(raw)) => {
                let waiting = Preparation {
                    name: self.name,
                    sql: self.sql,
                    param_types: self.param_types,
                    phase: PreparePhase::Inspecting,
                };
                PrepareStep::Inspect(waiting, raw)
            },
            PrepareReply::Inspected(Ok(_)) => {
                let param_formats = binary_formats(self.param_types.len());
                PrepareStep::Done(Statement { name: self.name, param_formats })
            },
            PrepareReply::Prepared(Err(e)) => PrepareStep::Failed(Error::DatabaseError(e)),
            PrepareReply::Inspected(Err(e)) => PrepareStep::Failed(Error::DatabaseError(e)),
        }
    }
}

impl Statement {
    #[verifier::type_invariant]
    spec fn well_formed(&self) -> bool {
        self.param_formats@ == all_binary(self.param_formats@.len())
    }

    /// Checks the texts and resolves the parameter types of a statement
    /// to be prepared under `name`, or under the empty name where none is
    /// given.
    ///
    /// Fails with `InvalidCString` if and only if the name or the SQL text
    /// holds a zero byte, the name being looked at first. Otherwise fails
    /// with `SerializationError` if and only if some parameter type has no
    /// oid, and carries the failure of the first such type. No call is
    /// asked for on failure.
    pub fn prepare<E>(sql: &str, name: Option<&str>, param_types: &[PgTypeMetadata]) -> (made: Result<
        Preparation,
        Error<E>,
    >)
        ensures
            made is Ok <==> prepare_accepts(name_bytes(name), sql.spec_bytes(), param_types@),
            made matches Err(Error::InvalidCString(_)) <==> has_nul(name_bytes(name)) || has_nul(
                sql.spec_bytes(),
            ),
            made matches Err(Error::SerializationError(_)) <==> !has_nul(name_bytes(name)) && !has_nul(
                sql.spec_bytes(),
            ) && !all_resolved(param_types@),
            match made {
                Ok(preparation) => preparation@ == preparation_of(
                    name_bytes(name),
                    sql.spec_bytes(),
                    param_types@,
                ),
                Err(Error::InvalidCString(e)) => is_first_nul(name_bytes(name), e.position as int) || (
                !has_nul(name_bytes(name)) && is_first_nul(sql.spec_bytes(), e.position as int)),
                Err(Error::SerializationError(failure)) => !has_nul(name_bytes(name)) && !has_nul(
                    sql.spec_bytes(),
                ) && exists|at: int|
                    is_first_unresolved(param_types@, at) && (#[trigger] param_types@[at]).inner
                        == Err::<InnerPgTypeMetadata, FailedToLookupTypeError>(failure),
                Err(Error::DatabaseError(_)) => false,
            },
    {
        let name = match name {
            Some(name) => match WireString::new(name) {
                Ok(name) => name,
                Err(e) => {
                    return Err(Error::InvalidCString(e));
                },
            },
            None => WireString::empty(),
        };
        let sql = match WireString::new(sql) {
            Ok(sql) => sql,
            Err(e) => {
                return Err(Error::InvalidCString(e));
            },
        };
        let param_types = match resolve_oids(param_types) {
            Ok(oids) => oids,
            Err(failure) => {
                return Err(Error::SerializationError(failure));
            },
        };
        Ok(Preparation { name, sql, param_types, phase: PreparePhase::Preparing })
    }

    /// The number of parameters that the statement was prepared with.
    pub fn param_count(&self) -> (count: usize)
        ensures
            count == self@.param_count(),
    {
        self.param_formats.len()
    }

    /// Builds the call that executes this statement with `param_data` and
    /// starts the exchange that follows it.
    ///
    /// The call names the statement, carries one pointer and one length per
    /// parameter (a null pointer and length zero for an absent value), one
    /// binary format per parameter, and asks for binary results.
    pub fn execute<'a>(&'a self, param_data: &'a [Option<Vec<u8>>], row_by_row: bool) -> (call: (
        SendQueryPrepared<'a>,
        Execution,
    ))
        requires
            param_data@.len() == self@.param_count(),
        ensures
            call.0@ == self@.send_query_prepared(param_data@),
            call.0@.param_formats == all_binary(param_data@.len()),
            call.1 == Execution::initial(row_by_row),
    {
        proof {
            use_type_invariant(self);
        }
        let param_values = param_pointers(param_data);
        let param_lengths = param_lengths(param_data);
        let request = SendQueryPrepared {
            name: &self.name,
            param_count: to_wire_int(param_values.len()),
            param_values,
            param_lengths,
            param_formats: self.param_formats.as_slice(),
            result_format: BINARY_FORMAT,
        };
        (request, Execution::start(row_by_row))
    }
}

/// A statement whose name and SQL text hold no zero byte and whose
/// parameter types all have their oid is prepared and then executed
/// without error, provided that the connection accepts every call and has
/// a result: the preparation hands the raw response back for inspection
/// and ends in a statement with one binary format per parameter; an
/// execution of it with as many values ends with the result fetched.
pub proof fn lemma_prepare_then_execute_succeeds<W, R, E>(
    name: Seq<u8>,
    sql: Seq<u8>,
    types: Seq<PgTypeMetadata>,
    raw: W,
    params: Seq<Option<Vec<u8>>>,
    row_by_row: bool,
    result: R,
)
    requires
        prepare_accepts(name, sql, types),
        params.len() == types.len(),
    ensures
        ({
            let preparation = preparation_of(name, sql, types);
            let inspecting = PreparationView { phase: PreparePhase::Inspecting, ..preparation };
            let statement = preparation.statement();
            let request = statement.send_query_prepared(params);
            &&& preparation.awaits(PrepareReply::<W, E>::Prepared(Ok(raw)))
            &&& preparation.next_step(PrepareReply::<W, E>::Prepared(Ok(raw)))
                == PrepareStepView::<W, E>::Inspect(inspecting, raw)
            &&& inspecting.awaits(PrepareReply::<W, E>::Inspected(Ok(())))
            &&& inspecting.next_step(PrepareReply::<W, E>::Inspected(Ok(())))
                == PrepareStepView::<W, E>::Done(statement)
            &&& statement.name == name
            &&& statement.param_count() == params.len()
            &&& request.param_values.len() == params.len()
            &&& request.param_lengths.len() == params.len()
            &&& request.param_formats == all_binary(params.len())
            &&& steps_of(Execution::initial(row_by_row), all_succeed::<R, E>(row_by_row, result)).last()
                == Step::<R, E>::Done(result)
        }),
{
    lemma_exchange_succeeds::<R, E>(row_by_row, result);
    assert(resolved_oids(types).len() == types.len());
    assert(all_binary(types.len()).len() == types.len());
}

} // verus!
