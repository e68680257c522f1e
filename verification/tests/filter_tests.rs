use memory_server::error::AppError;
use memory_server::json::{to_json_text, JsonEntry, JsonValue};
use memory_server::metadata_filter::{
    MetadataFilter, MetadataFilterClause, MetadataFilterOperators, MetadataFilterPredicate,
};

fn s(x: &str) -> JsonValue {
    JsonValue::Str(x.to_string())
}

fn arr(items: Vec<JsonValue>) -> JsonValue {
    JsonValue::Array(items)
}

/// An object with its keys in ascending order, as JSON objects are kept.
fn obj(mut entries: Vec<(&str, JsonValue)>) -> JsonValue {
    entries.sort_by(|a, b| a.0.cmp(b.0));
    JsonValue::Object(
        entries
            .into_iter()
            .map(|(k, v)| JsonEntry { key: k.to_string(), value: v })
            .collect(),
    )
}

fn ops() -> MetadataFilterOperators {
    MetadataFilterOperators { eq: None, ne: None, in_values: None, exists: None }
}

fn eq_op(v: JsonValue) -> MetadataFilterPredicate {
    MetadataFilterPredicate::Operators(MetadataFilterOperators { eq: Some(v), ..ops() })
}

fn in_op(vs: Vec<JsonValue>) -> MetadataFilterPredicate {
    MetadataFilterPredicate::Operators(MetadataFilterOperators { in_values: Some(vs), ..ops() })
}

fn clause(field: &str, p: MetadataFilterPredicate) -> MetadataFilterClause {
    MetadataFilterClause(vec![(field.to_string(), p)])
}

fn schema() -> JsonValue {
    obj(vec![
        (
            "filterable_fields",
            arr(vec![s("memory_type"), s("subject"), s("topics"), s("sentiment")]),
        ),
        (
            "entity_types",
            obj(vec![(
                "housing_preference",
                obj(vec![(
                    "fields",
                    obj(vec![
                        (
                            "memory_type",
                            obj(vec![
                                ("type", s("string")),
                                ("required", JsonValue::Bool(true)),
                                ("filterable", JsonValue::Bool(true)),
                                ("enum", arr(vec![s("housing_preference")])),
                            ]),
                        ),
                        (
                            "subject",
                            obj(vec![("type", s("string")), ("filterable", JsonValue::Bool(true))]),
                        ),
                        (
                            "topics",
                            obj(vec![("type", s("array")), ("filterable", JsonValue::Bool(true))]),
                        ),
                        (
                            "sentiment",
                            obj(vec![
                                ("type", s("string")),
                                ("filterable", JsonValue::Bool(true)),
                                (
                                    "enum",
                                    arr(vec![s("positive"), s("negative"), s("neutral")]),
                                ),
                            ]),
                        ),
                    ]),
                )]),
            )]),
        ),
    ])
}

#[test]
fn validates_filterable_fields() {
    let filter = MetadataFilter {
        clauses: vec![
            clause("memory_type", eq_op(s("housing_preference"))),
            clause("subject", in_op(vec![s("rust"), s("cpp")])),
        ],
    };
    assert!(filter.validate_against_schema(&schema()).is_ok());
}

#[test]
fn rejects_non_filterable_fields() {
    let filter = MetadataFilter { clauses: vec![clause("private_note", eq_op(s("x")))] };
    assert!(matches!(
        filter.validate_against_schema(&schema()),
        Err(AppError::Validation(_))
    ));
}

#[test]
fn matches_eq_in_and_array_values() {
    let filter = MetadataFilter {
        clauses: vec![
            clause("memory_type", MetadataFilterPredicate::Eq(s("preference"))),
            clause("subject", in_op(vec![s("rust"), s("cpp")])),
            clause("topics", in_op(vec![s("systems")])),
        ],
    };
    let metadata = obj(vec![
        ("memory_type", s("preference")),
        ("subject", s("rust")),
        ("topics", arr(vec![s("systems"), s("memory")])),
    ]);
    assert!(filter.matches(&metadata));
}

#[test]
fn supports_exists_false() {
    let filter = MetadataFilter {
        clauses: vec![clause(
            "subject",
            MetadataFilterPredicate::Operators(MetadataFilterOperators { exists: Some(false), ..ops() }),
        )],
    };
    assert!(filter.matches(&obj(vec![("memory_type", s("fact"))])));
    assert!(!filter.matches(&obj(vec![("subject", s("rust"))])));
}

#[test]
fn rejects_values_outside_schema_enum() {
    let filter = MetadataFilter { clauses: vec![clause("sentiment", eq_op(s("积极")))] };
    match filter.validate_against_schema(&schema()) {
        Err(AppError::Validation(message)) => {
            assert!(message.contains("sentiment") && message.contains("not allowed"));
            assert_eq!(
                message,
                "metadata_filter field 'sentiment' value \"积极\" is not allowed by profile schema enum [\"positive\",\"negative\",\"neutral\"]"
            );
        }
        other => panic!("unexpected: {:?}", other),
    }
}

#[test]
fn accepts_values_inside_schema_enum() {
    let filter = MetadataFilter { clauses: vec![clause("sentiment", eq_op(s("positive")))] };
    assert!(filter.validate_against_schema(&schema()).is_ok());
}

#[test]
fn empty_clause_and_empty_in_are_refused() {
    let filter = MetadataFilter { clauses: vec![MetadataFilterClause(vec![])] };
    match filter.validate_against_schema(&schema()) {
        Err(AppError::Validation(m)) => {
            assert_eq!(m, "metadata_filter.where cannot contain empty clauses")
        }
        other => panic!("unexpected: {:?}", other),
    }
    let filter = MetadataFilter { clauses: vec![clause("subject", in_op(vec![]))] };
    match filter.validate_against_schema(&schema()) {
        Err(AppError::Validation(m)) => assert_eq!(m, "metadata_filter field 'subject'.in cannot be empty"),
        other => panic!("unexpected: {:?}", other),
    }
    let filter = MetadataFilter {
        clauses: vec![clause("subject", MetadataFilterPredicate::Operators(ops()))],
    };
    match filter.validate_against_schema(&schema()) {
        Err(AppError::Validation(m)) => assert_eq!(m, "metadata_filter field 'subject' has no operator"),
        other => panic!("unexpected: {:?}", other),
    }
}

#[test]
fn too_many_clauses_are_refused() {
    let mut clauses = Vec::new();
    for _ in 0..17 {
        clauses.push(clause("subject", eq_op(s("x"))));
    }
    let filter = MetadataFilter { clauses };
    match filter.validate_against_schema(&schema()) {
        Err(AppError::Validation(m)) => {
            assert_eq!(m, "metadata_filter.where supports at most 16 clauses")
        }
        other => panic!("unexpected: {:?}", other),
    }
}

#[test]
fn empty_filter_matches_everything_and_needs_no_schema() {
    let filter = MetadataFilter { clauses: vec![] };
    assert!(filter.is_empty());
    assert!(filter.matches(&JsonValue::Null));
    assert!(filter.validate_against_schema(&JsonValue::Null).is_ok());
    let filter = MetadataFilter { clauses: vec![clause("subject", eq_op(s("x")))] };
    match filter.validate_against_schema(&obj(vec![])) {
        Err(AppError::Validation(m)) => assert_eq!(
            m,
            "metadata_filter requires profile metadata_schema.filterable_fields"
        ),
        other => panic!("unexpected: {:?}", other),
    }
}

#[test]
fn dotted_fields_reach_nested_values_and_ne_rejects() {
    let metadata = obj(vec![("owner", obj(vec![("name", s("ann"))]))]);
    let filter = MetadataFilter { clauses: vec![clause("owner.name", eq_op(s("ann")))] };
    assert!(filter.matches(&metadata));
    let filter = MetadataFilter {
        clauses: vec![clause(
            "owner.name",
            MetadataFilterPredicate::Operators(MetadataFilterOperators { ne: Some(s("ann")), ..ops() }),
        )],
    };
    assert!(!filter.matches(&metadata));
}

#[test]
fn every_clause_must_hold() {
    let filter = MetadataFilter {
        clauses: vec![
            clause("subject", eq_op(s("go"))),
            clause("memory_type", eq_op(s("fact"))),
        ],
    };
    assert!(!filter.matches(&obj(vec![("memory_type", s("fact"))])));
    assert!(filter.matches(&obj(vec![("memory_type", s("fact")), ("subject", s("go"))])));
}

#[test]
fn json_text_is_compact_with_sorted_keys() {
    let v = obj(vec![
        ("theme", s("dark")),
        ("memory_type", s("ui_preference")),
        ("channel", s("explicit")),
    ]);
    assert_eq!(
        to_json_text(&v),
        "{\"channel\":\"explicit\",\"memory_type\":\"ui_preference\",\"theme\":\"dark\"}"
    );
    assert_eq!(to_json_text(&s("a\"b\n")), "\"a\\\"b\\n\"");
    assert_eq!(to_json_text(&arr(vec![JsonValue::Null, JsonValue::Bool(false)])), "[null,false]");
}
