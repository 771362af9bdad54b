use sqlx_macros::args::bind_arguments;
use sqlx_macros::error::ExpandError;
use sqlx_macros::expand::{
    error_span, expand_query, expand_query_as, expand_query_file, expand_query_file_as, QueryPlan,
};
use sqlx_macros::output::{columns_to_rust, resolve_output, OutputPlan};
use sqlx_macros::postgres::{
    postgres_registry, BOOL_OID, FLOAT8_OID, INT2_OID, INT4_OID, INT8_OID, TEXT_OID,
};
use sqlx_macros::registry::{HostMapping, ParamChecking, TypeMappingRegistry};
use sqlx_macros::types::{
    wrap, Argument, ColumnDescriptor, DescribeError, DescribeFailure, DescribeResult, HostKind,
    Nullability, OutputTarget, QueryInput, RustType, SourceSpan, TargetField, TypeId,
};

fn span(start: usize, end: usize) -> SourceSpan {
    SourceSpan { start, end }
}

fn input(sql: &str, args: Vec<(&str, HostKind)>) -> QueryInput {
    let arguments = args
        .into_iter()
        .enumerate()
        .map(|(i, (expr, host))| Argument {
            expr: expr.to_string(),
            host,
            span: span(100 + 10 * i, 105 + 10 * i),
        })
        .collect();
    QueryInput { source: sql.to_string(), source_span: span(0, sql.len()), arguments }
}

fn col(name: &str, oid: u32, nullability: Nullability) -> ColumnDescriptor {
    ColumnDescriptor { name: name.to_string(), type_id: TypeId { oid }, nullability }
}

fn described(params: Vec<u32>, columns: Vec<ColumnDescriptor>) -> Result<DescribeResult, DescribeError> {
    Ok(DescribeResult {
        parameter_types: params.into_iter().map(|oid| TypeId { oid }).collect(),
        result_columns: columns,
    })
}

fn field(name: &str, host: HostKind, optional: bool) -> TargetField {
    TargetField { name: name.to_string(), declared: RustType { host, optional } }
}

fn bare(host: HostKind) -> RustType {
    RustType { host, optional: false }
}

fn opt(host: HostKind) -> RustType {
    RustType { host, optional: true }
}

fn fields_of(plan: &QueryPlan) -> Vec<(String, usize, RustType)> {
    let columns = match &plan.output {
        OutputPlan::Unit => return vec![],
        OutputPlan::Fresh { columns } => columns,
        OutputPlan::Existing { columns, .. } => columns,
    };
    columns.iter().map(|c| (c.field_name.clone(), c.column_index, c.ty)).collect()
}

#[test]
fn anonymous_record_from_two_literals() {
    let reg = postgres_registry();
    let q = input("select 1 as id, 'x' as name", vec![]);
    let d = described(
        vec![],
        vec![
            col("id", INT4_OID, Nullability::DefinitelyNotNull),
            col("name", TEXT_OID, Nullability::DefinitelyNotNull),
        ],
    );
    let plan = expand_query(&q, &d, &reg).unwrap();
    assert!(plan.bindings.is_empty());
    assert!(matches!(plan.output, OutputPlan::Fresh { .. }));
    assert_eq!(
        fields_of(&plan),
        vec![
            ("id".to_string(), 0, bare(HostKind::I32)),
            ("name".to_string(), 1, bare(HostKind::String)),
        ]
    );
    assert_eq!(plan.sql, "select 1 as id, 'x' as name");
}

#[test]
fn strong_checking_accepts_exact_and_rejects_widening() {
    let reg = postgres_registry();
    let q = input("select * from t where id = $1", vec![("id", HostKind::I32)]);
    let cols = vec![col("id", INT4_OID, Nullability::DefinitelyNotNull)];
    let ok = expand_query(&q, &described(vec![INT4_OID], cols.clone()), &reg).unwrap();
    assert_eq!(ok.bindings.len(), 1);
    assert_eq!(ok.bindings[0].position, 0);
    assert_eq!(ok.bindings[0].expr, "id");
    assert_eq!(ok.bindings[0].host, HostKind::I32);

    let err = expand_query(&q, &described(vec![INT8_OID], cols), &reg).unwrap_err();
    match err {
        ExpandError::ArgTypeMismatch { position, expected, declared } => {
            assert_eq!(position, 0);
            assert_eq!(expected, TypeId { oid: INT8_OID });
            assert_eq!(declared, HostKind::I32);
        }
        other => panic!("unexpected {:?}", other),
    }
}

#[test]
fn weak_checking_accepts_registered_conversion() {
    let strong = postgres_registry();
    let weak = TypeMappingRegistry::new(ParamChecking::Weak, strong.entries.clone());
    assert!(!strong.is_param_compatible(TypeId { oid: INT8_OID }, HostKind::I32));
    assert!(weak.is_param_compatible(TypeId { oid: INT8_OID }, HostKind::I32));
    assert!(!weak.is_param_compatible(TypeId { oid: INT8_OID }, HostKind::String));
    let q = input("select $1", vec![("x", HostKind::I32)]);
    let plan = expand_query(&q, &described(vec![INT8_OID], vec![]), &weak).unwrap();
    assert_eq!(plan.bindings.len(), 1);
}

#[test]
fn field_mismatch_reports_both_directions() {
    let reg = postgres_registry();
    let q = input("select id, name from users", vec![]);
    let d = described(
        vec![],
        vec![
            col("id", INT4_OID, Nullability::DefinitelyNotNull),
            col("name", TEXT_OID, Nullability::DefinitelyNotNull),
        ],
    );
    let fields = vec![field("id", HostKind::I32, false), field("email", HostKind::String, false)];
    let err = expand_query_as(&q, "User".to_string(), fields, &d, &reg).unwrap_err();
    match err {
        ExpandError::FieldMismatch { missing, extra } => {
            assert_eq!(missing, vec!["email".to_string()]);
            assert_eq!(extra, vec!["name".to_string()]);
        }
        other => panic!("unexpected {:?}", other),
    }
}

#[test]
fn unknown_nullability_into_bare_field_is_type_mismatch() {
    let reg = postgres_registry();
    let q = input("select id, name from users", vec![]);
    let d = described(
        vec![],
        vec![
            col("id", INT4_OID, Nullability::DefinitelyNotNull),
            col("name", TEXT_OID, Nullability::Unknown),
        ],
    );
    let fields = vec![field("id", HostKind::I32, false), field("name", HostKind::String, false)];
    let err = expand_query_as(&q, "Account".to_string(), fields, &d, &reg).unwrap_err();
    match err {
        ExpandError::FieldTypeMismatch { field, column_type, field_type } => {
            assert_eq!(field, "name");
            assert_eq!(column_type, opt(HostKind::String));
            assert_eq!(field_type, bare(HostKind::String));
        }
        other => panic!("unexpected {:?}", other),
    }
    let fields = vec![field("id", HostKind::I32, false), field("name", HostKind::String, true)];
    assert!(expand_query_as(&q, "Account".to_string(), fields, &d, &reg).is_ok());
}

#[test]
fn arity_mismatch_stops_before_output() {
    let reg = postgres_registry();
    let q = input("select $1, $2", vec![("a", HostKind::I32)]);
    // the duplicate column names would fail output resolution, which is never reached
    let d = described(
        vec![INT4_OID, INT4_OID],
        vec![col("a", INT4_OID, Nullability::Unknown), col("a", INT4_OID, Nullability::Unknown)],
    );
    match expand_query(&q, &d, &reg).unwrap_err() {
        ExpandError::ArityMismatch { parameters, arguments } => {
            assert_eq!(parameters, 2);
            assert_eq!(arguments, 1);
        }
        other => panic!("unexpected {:?}", other),
    }
}

#[test]
fn no_columns_anonymous_is_unit_named_is_error() {
    let reg = postgres_registry();
    let q = input("delete from t", vec![]);
    let d = described(vec![], vec![]);
    let plan = expand_query(&q, &d, &reg).unwrap();
    assert!(matches!(plan.output, OutputPlan::Unit));
    let err = expand_query_as(&q, "Row".to_string(), vec![], &d, &reg).unwrap_err();
    assert!(matches!(err, ExpandError::NoColumns));
}

#[test]
fn wrapping_depends_on_nullability_only() {
    let reg = postgres_registry();
    let cols = vec![
        col("a", INT4_OID, Nullability::Unknown),
        col("b", INT4_OID, Nullability::DefinitelyNotNull),
        col("c", INT4_OID, Nullability::DefinitelyNull),
        col("d", INT4_OID, Nullability::Unknown),
    ];
    let out = columns_to_rust(&cols, &reg).unwrap();
    let tys: Vec<RustType> = out.iter().map(|c| c.ty).collect();
    assert_eq!(
        tys,
        vec![opt(HostKind::I32), bare(HostKind::I32), opt(HostKind::I32), opt(HostKind::I32)]
    );
    assert_eq!(wrap(HostKind::Bool, Nullability::Unknown), opt(HostKind::Bool));
    assert_eq!(wrap(HostKind::Bool, Nullability::DefinitelyNotNull), bare(HostKind::Bool));
}

#[test]
fn named_target_order_follows_fields() {
    let reg = postgres_registry();
    let q = input("select id, name, active from users", vec![]);
    let d = described(
        vec![],
        vec![
            col("id", INT4_OID, Nullability::DefinitelyNotNull),
            col("name", TEXT_OID, Nullability::Unknown),
            col("active", BOOL_OID, Nullability::DefinitelyNotNull),
        ],
    );
    let fields = vec![
        field("active", HostKind::Bool, false),
        field("name", HostKind::String, true),
        field("id", HostKind::I32, false),
    ];
    let plan = expand_query_as(&q, "User".to_string(), fields, &d, &reg).unwrap();
    match &plan.output {
        OutputPlan::Existing { path, .. } => assert_eq!(path, "User"),
        other => panic!("unexpected {:?}", other),
    }
    assert_eq!(
        fields_of(&plan),
        vec![
            ("active".to_string(), 2, bare(HostKind::Bool)),
            ("name".to_string(), 1, opt(HostKind::String)),
            ("id".to_string(), 0, bare(HostKind::I32)),
        ]
    );
}

#[test]
fn adding_a_field_names_exactly_it() {
    let reg = postgres_registry();
    let cols = vec![
        col("id", INT4_OID, Nullability::DefinitelyNotNull),
        col("name", TEXT_OID, Nullability::DefinitelyNotNull),
    ];
    let target = OutputTarget::Named {
        path: "User".to_string(),
        fields: vec![
            field("name", HostKind::String, false),
            field("id", HostKind::I32, false),
            field("age", HostKind::I16, false),
        ],
    };
    match resolve_output(&target, &cols, &reg).unwrap_err() {
        ExpandError::FieldMismatch { missing, extra } => {
            assert_eq!(missing, vec!["age".to_string()]);
            assert!(extra.is_empty());
        }
        other => panic!("unexpected {:?}", other),
    }
}

#[test]
fn expansion_is_repeatable() {
    let reg = postgres_registry();
    let q = input("select id, name from users where id = $1", vec![("id", HostKind::I32)]);
    let d = described(
        vec![INT4_OID],
        vec![
            col("id", INT4_OID, Nullability::DefinitelyNotNull),
            col("name", TEXT_OID, Nullability::Unknown),
        ],
    );
    let a = expand_query(&q, &d, &reg).unwrap();
    let b = expand_query(&q, &d, &reg).unwrap();
    assert_eq!(fields_of(&a), fields_of(&b));
    assert_eq!(a.bindings.len(), b.bindings.len());
    assert_eq!(a.bindings[0].expr, b.bindings[0].expr);
}

#[test]
fn duplicate_column_names_fail() {
    let reg = postgres_registry();
    let q = input("select 1 as a, 2 as b, 3 as a", vec![]);
    let d = described(
        vec![],
        vec![
            col("a", INT4_OID, Nullability::Unknown),
            col("b", INT4_OID, Nullability::Unknown),
            col("a", INT4_OID, Nullability::Unknown),
        ],
    );
    match expand_query(&q, &d, &reg).unwrap_err() {
        ExpandError::DuplicateColumnName { name } => assert_eq!(name, "a"),
        other => panic!("unexpected {:?}", other),
    }
}

#[test]
fn duplicate_field_names_fail() {
    let reg = postgres_registry();
    let q = input("select 1 as a", vec![]);
    let d = described(vec![], vec![col("a", INT4_OID, Nullability::Unknown)]);
    let fields = vec![field("a", HostKind::I32, true), field("a", HostKind::I32, true)];
    match expand_query_as(&q, "T".to_string(), fields, &d, &reg).unwrap_err() {
        ExpandError::DuplicateFieldName { name } => assert_eq!(name, "a"),
        other => panic!("unexpected {:?}", other),
    }
}

#[test]
fn unregistered_column_type_fails() {
    let reg = postgres_registry();
    let q = input("select x from t", vec![]);
    let d = described(
        vec![],
        vec![col("ok", INT2_OID, Nullability::Unknown), col("x", 17, Nullability::Unknown)],
    );
    match expand_query(&q, &d, &reg).unwrap_err() {
        ExpandError::UnresolvedColumnType { column, type_id } => {
            assert_eq!(column, "x");
            assert_eq!(type_id, TypeId { oid: 17 });
        }
        other => panic!("unexpected {:?}", other),
    }
}

#[test]
fn column_name_that_is_no_identifier_fails() {
    let reg = postgres_registry();
    let q = input("select 1 as \"two words\"", vec![]);
    for bad in ["two words", "type", "1st", "", "_"] {
        let d = described(vec![], vec![col(bad, INT4_OID, Nullability::Unknown)]);
        match expand_query(&q, &d, &reg).unwrap_err() {
            ExpandError::InvalidIdentifier { name } => assert_eq!(name, bad),
            other => panic!("unexpected {:?}", other),
        }
    }
    let d = described(vec![], vec![col("total_2", FLOAT8_OID, Nullability::Unknown)]);
    let plan = expand_query(&q, &d, &reg).unwrap();
    assert_eq!(fields_of(&plan), vec![("total_2".to_string(), 0, opt(HostKind::Float64))]);
}

#[test]
fn describe_failure_is_passed_through() {
    let reg = postgres_registry();
    let q = input("selec 1", vec![]);
    let d: Result<DescribeResult, DescribeError> = Err(DescribeError {
        kind: DescribeFailure::Rejected,
        message: "syntax error at or near \"selec\"".to_string(),
    });
    match expand_query(&q, &d, &reg).unwrap_err() {
        ExpandError::Describe { kind, message } => {
            assert_eq!(kind, DescribeFailure::Rejected);
            assert_eq!(message, "syntax error at or near \"selec\"");
        }
        other => panic!("unexpected {:?}", other),
    }
}

#[test]
fn file_variants_use_file_contents() {
    let reg = postgres_registry();
    let q = input("tests/test-query.sql", vec![]);
    let d = described(vec![], vec![col("id", INT4_OID, Nullability::DefinitelyNotNull)]);
    let sql = "select 1 as id".to_string();
    let plan = expand_query_file(q.clone(), sql.clone(), &d, &reg).unwrap();
    assert_eq!(plan.sql, sql);
    let fields = vec![field("id", HostKind::I32, false)];
    let plan = expand_query_file_as(q, sql.clone(), "Row".to_string(), fields, &d, &reg).unwrap();
    assert_eq!(plan.sql, sql);
    assert_eq!(fields_of(&plan), vec![("id".to_string(), 0, bare(HostKind::I32))]);
}

#[test]
fn errors_point_at_their_argument() {
    let reg = postgres_registry();
    let q = input("select $1, $2", vec![("a", HostKind::I32), ("b", HostKind::Bool)]);
    let d = described(vec![INT4_OID, INT4_OID], vec![]);
    let err = expand_query(&q, &d, &reg).unwrap_err();
    assert!(matches!(err, ExpandError::ArgTypeMismatch { position: 1, .. }));
    assert_eq!(error_span(&q, &err), span(110, 115));
    assert_eq!(error_span(&q, &ExpandError::NoColumns), q.source_span);
}

#[test]
fn registry_lists_hosts_in_order() {
    let reg = postgres_registry();
    assert_eq!(
        reg.compatible_host_types(TypeId { oid: INT8_OID }),
        vec![HostKind::I64, HostKind::I32, HostKind::I16]
    );
    assert_eq!(reg.resolve(TypeId { oid: TEXT_OID }), Some(HostKind::String));
    assert_eq!(reg.resolve(TypeId { oid: 17 }), None);
    assert!(reg.compatible_host_types(TypeId { oid: 17 }).is_empty());
}

#[test]
fn string_and_str_arguments_bind_to_text() {
    let reg = postgres_registry();
    let args = vec![
        Argument { expr: "string".to_string(), host: HostKind::String, span: span(0, 1) },
        Argument { expr: "string[..]".to_string(), host: HostKind::Str, span: span(2, 3) },
    ];
    let params = vec![TypeId { oid: TEXT_OID }, TypeId { oid: TEXT_OID }];
    let b = bind_arguments(&args, &params, &reg).unwrap();
    assert_eq!(b.iter().map(|x| x.position).collect::<Vec<_>>(), vec![0, 1]);
    assert_eq!(b[1].expr, "string[..]");
}
