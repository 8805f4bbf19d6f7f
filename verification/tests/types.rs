use pg_statement::types::{
    resolve_oids, FailedToLookupTypeError, InnerPgTypeMetadata, PgTypeMetadata,
};

fn unknown(schema: Option<&str>, typname: &str) -> PgTypeMetadata {
    PgTypeMetadata::from_result(Err(FailedToLookupTypeError {
        schema: schema.map(|s| s.to_string()),
        typname: typname.to_string(),
    }))
}

#[test]
fn metadata_gives_back_its_oids() {
    let int4 = PgTypeMetadata::new(23, 1007);
    assert_eq!(int4.oid().unwrap(), 23);
    assert_eq!(int4.array_oid().unwrap(), 1007);
    assert_eq!(int4.inner.as_ref().unwrap(), &InnerPgTypeMetadata { oid: 23, array_oid: 1007 });
}

#[test]
fn metadata_from_a_lookup_keeps_its_outcome() {
    let text = PgTypeMetadata::from_result(Ok((25, 1009)));
    assert_eq!(text.oid().unwrap(), 25);
    assert_eq!(text.array_oid().unwrap(), 1009);
    let missing = unknown(Some("public"), "mood");
    let failure = missing.oid().unwrap_err();
    assert_eq!(failure.schema.as_deref(), Some("public"));
    assert_eq!(failure.typname, "mood");
    let failure = missing.array_oid().unwrap_err();
    assert_eq!(failure.typname, "mood");
}

#[test]
fn metadata_clone_keeps_everything() {
    let int4 = PgTypeMetadata::new(23, 1007).clone();
    assert_eq!(int4.oid().unwrap(), 23);
    let missing = unknown(None, "mood").clone();
    let failure = missing.oid().unwrap_err();
    assert_eq!(failure.schema, None);
    assert_eq!(failure.typname, "mood");
}

#[test]
fn resolve_oids_keeps_order() {
    let types = vec![
        PgTypeMetadata::new(23, 1007),
        PgTypeMetadata::new(25, 1009),
        PgTypeMetadata::new(16, 1000),
    ];
    assert_eq!(resolve_oids(&types).unwrap(), vec![23, 25, 16]);
}

#[test]
fn resolve_oids_of_nothing_is_empty() {
    assert_eq!(resolve_oids(&[]).unwrap(), Vec::<u32>::new());
}

#[test]
fn resolve_oids_fails_with_the_first_unresolved_type() {
    let types = vec![
        PgTypeMetadata::new(23, 1007),
        unknown(Some("public"), "mood"),
        PgTypeMetadata::new(25, 1009),
        unknown(None, "colour"),
    ];
    let failure = resolve_oids(&types).unwrap_err();
    assert_eq!(failure.schema.as_deref(), Some("public"));
    assert_eq!(failure.typname, "mood");
}
