//! Type metadata of bound parameters and its resolution to type oids.

use vstd::prelude::*;

verus! {

/// The server's numeric identifier of a SQL type.
pub type Oid = pq_sys::Oid;

/// The name under which a type was looked up when no oid was found for it.
#[derive(Debug)]
pub struct FailedToLookupTypeError {
    pub schema: Option<String>,
    pub typname: String,
}

impl Clone for FailedToLookupTypeError {
    fn clone(&self) -> (copy: Self)
        ensures
            copy == *self,
    {
        let schema = match &self.schema {
            Some(schema) => Some(schema.clone()),
            None => None,
        };
        FailedToLookupTypeError { schema, typname: self.typname.clone() }
    }
}

/// The pair of oids that the server gave one SQL type.
#[derive(Clone, Copy, Debug, PartialEq, Eq, Structural)]
pub struct InnerPgTypeMetadata {
    pub oid: Oid,
    pub array_oid: Oid,
}

/// What is known of the SQL type of one parameter: its oids, or the
/// reason why they could not be found.
#[derive(Debug)]
pub struct PgTypeMetadata {
    pub inner: Result<InnerPgTypeMetadata, FailedToLookupTypeError>,
}

impl Clone for PgTypeMetadata {
    fn clone(&self) -> (copy: Self)
        ensures
            copy == *self,
    {
        let inner = match &self.inner {
            Ok(found) => Ok(*found),
            Err(failure) => Err(failure.clone()),
        };
        PgTypeMetadata { inner }
    }
}

impl PgTypeMetadata {
    /// Metadata of a type whose oids are known.
    pub fn new(oid: Oid, array_oid: Oid) -> (meta: Self)
        ensures
            meta.inner == Ok::<InnerPgTypeMetadata, FailedToLookupTypeError>(
                InnerPgTypeMetadata { oid, array_oid },
            ),
    {
        PgTypeMetadata { inner: Ok(InnerPgTypeMetadata { oid, array_oid }) }
    }

    /// Metadata from the outcome of a lookup, kept as it is.
    pub fn from_result(lookup: Result<(Oid, Oid), FailedToLookupTypeError>) -> (meta: Self)
        ensures
            meta.inner == match lookup {
                Ok(pair) => Ok(InnerPgTypeMetadata { oid: pair.0, array_oid: pair.1 }),
                Err(failure) => Err(failure),
            },
    {
        match lookup {
            Ok((oid, array_oid)) => PgTypeMetadata::new(oid, array_oid),
            Err(failure) => PgTypeMetadata { inner: Err(failure) },
        }
    }

    /// The oid of the type, or the failed lookup.
    pub fn oid(&self) -> (found: Result<Oid, FailedToLookupTypeError>)
        ensures
            found == match self.inner {
                Ok(known) => Ok(known.oid),
                Err(failure) => Err(failure),
            },
    {
        match &self.inner {
            Ok(known) => Ok(known.oid),
            Err(failure) => Err(failure.clone()),
        }
    }

    /// The oid of arrays of the type, or the failed lookup.
    pub fn array_oid(&self) -> (found: Result<Oid, FailedToLookupTypeError>)
        ensures
            found == match self.inner {
                Ok(known) => Ok(known.array_oid),
                Err(failure) => Err(failure),
            },
    {
        match &self.inner {
            Ok(known) => Ok(known.array_oid),
            Err(failure) => Err(failure.clone()),
        }
    }
}

/// Every entry of `types` has its oids.
pub open spec fn all_resolved(types: Seq<PgTypeMetadata>) -> bool {
    forall|i: int| 0 <= i < types.len() ==> (#[trigger] types[i]).inner is Ok
}

/// `at` is the index of the first entry of `types` without oids.
pub open spec fn is_first_unresolved(types: Seq<PgTypeMetadata>, at: int) -> bool {
    &&& 0 <= at < types.len()
    &&& types[at].inner is Err
    &&& forall|j: int| 0 <= j < at ==> (#[trigger] types[j]).inner is Ok
}

/// The oid of each entry of `types`, in order. Meaningful where
/// `all_resolved(types)`.
pub open spec fn resolved_oids(types: Seq<PgTypeMetadata>) -> Seq<Oid> {
    Seq::new(types.len(), |i: int| types[i].inner->Ok_0.oid)
}

/// Resolves every entry to its oid, or fails with the lookup failure of
/// the first entry that has none. No oid is handed out on failure.
pub fn resolve_oids(types: &[PgTypeMetadata]) -> (resolved: Result<Vec<Oid>, FailedToLookupTypeError>)
    ensures
        match resolved {
            Ok(oids) => all_resolved(types@) && oids@ == resolved_oids(types@),
            Err(failure) => exists|at: int|
                is_first_unresolved(types@, at) && (#[trigger] types@[at]).inner == Err::<
                    InnerPgTypeMetadata,
                    FailedToLookupTypeError,
                >(failure),
        },
{
    let mut oids: Vec<Oid> = Vec::new();
    let mut i: usize = 0;
    while i < types.len()
        invariant
            i <= types.len(),
            oids@.len() == i,
            forall|j: int| 0 <= j < i ==> (#[trigger] types@[j]).inner is Ok,
            forall|j: int| 0 <= j < i ==> oids@[j] == (#[trigger] types@[j]).inner->Ok_0.oid,
        decreases types.len() - i,
    {
        match types[i].oid() {
            Ok(oid) => oids.push(oid),
            Err(failure) => {
                proof {
                    assert(is_first_unresolved(types@, i as int));
                }
                return Err(failure);
            },
        }
        i += 1;
    }
    proof {
        assert(oids@ =~= resolved_oids(types@));
    }
    Ok(oids)
}

/// A sequence of metadata either resolves as a whole or has a first entry
/// that does not: the two outcomes of `resolve_oids` exclude each other.
pub proof fn lemma_unresolved_excludes_resolved(types: Seq<PgTypeMetadata>, at: int)
    requires
        is_first_unresolved(types, at),
    ensures
        !all_resolved(types),
{
}

/// The first entry without oids stands at one place only.
pub proof fn lemma_first_unresolved_unique(types: Seq<PgTypeMetadata>, a: int, b: int)
    requires
        is_first_unresolved(types, a),
        is_first_unresolved(types, b),
    ensures
        a == b,
{
}

} // verus!
