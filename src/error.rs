use vstd::prelude::*;
use crate::types::{DescribeFailure, HostKind, RustType, TypeId};

verus! {

/// Why one invocation failed. Every error ends that invocation.
#[derive(Clone, Debug)]
pub enum ExpandError {
    /// The database could not describe the statement.
    Describe { kind: DescribeFailure, message: String },
    /// The number of arguments differs from the number of parameters.
    ArityMismatch { parameters: usize, arguments: usize },
    /// The argument at `position` has a host type that the parameter's
    /// backend type does not accept.
    ArgTypeMismatch { position: usize, expected: TypeId, declared: HostKind },
    /// A result column's backend type has no registered host type.
    UnresolvedColumnType { column: String, type_id: TypeId },
    /// The named target's fields and the result columns differ: `missing`
    /// holds the fields that no column supplies, in field order; `extra`
    /// the columns that no field takes, in column order.
    FieldMismatch { missing: Vec<String>, extra: Vec<String> },
    /// Two result columns share this name.
    DuplicateColumnName { name: String },
    /// Two fields of the named target share this name.
    DuplicateFieldName { name: String },
    /// A named target was given, and the statement has no result column.
    NoColumns,
    /// A column name that cannot be a field of the fresh record.
    InvalidIdentifier { name: String },
    /// A target field's declared type cannot hold what its column decodes to.
    FieldTypeMismatch { field: String, column_type: RustType, field_type: RustType },
}

pub enum ExpandErrorModel {
    Describe { kind: DescribeFailure, message: Seq<char> },
    ArityMismatch { parameters: nat, arguments: nat },
    ArgTypeMismatch { position: nat, expected: TypeId, declared: HostKind },
    UnresolvedColumnType { column: Seq<char>, type_id: TypeId },
    FieldMismatch { missing: Seq<Seq<char>>, extra: Seq<Seq<char>> },
    DuplicateColumnName { name: Seq<char> },
    DuplicateFieldName { name: Seq<char> },
    NoColumns,
    InvalidIdentifier { name: Seq<char> },
    FieldTypeMismatch { field: Seq<char>, column_type: RustType, field_type: RustType },
}

pub open spec fn strings_view(v: Seq<String>) -> Seq<Seq<char>> {
    v.map_values(|s: String| s@)
}

pub proof fn lemma_strings_view_push(s: Seq<String>, x: String)
    ensures
        strings_view(s.push(x)) == strings_view(s).push(x@),
{
    assert(strings_view(s.push(x)) =~= strings_view(s).push(x@));
}

impl View for ExpandError {
    type V = ExpandErrorModel;

    open spec fn view(&self) -> ExpandErrorModel {
        match self {
            ExpandError::Describe { kind, message } => ExpandErrorModel::Describe {
                kind: *kind,
                message: message@,
            },
            ExpandError::ArityMismatch { parameters, arguments } => ExpandErrorModel::ArityMismatch {
                parameters: *parameters as nat,
                arguments: *arguments as nat,
            },
            ExpandError::ArgTypeMismatch { position, expected, declared } =>
                ExpandErrorModel::ArgTypeMismatch {
                position: *position as nat,
                expected: *expected,
                declared: *declared,
            },
            ExpandError::UnresolvedColumnType { column, type_id } =>
                ExpandErrorModel::UnresolvedColumnType { column: column@, type_id: *type_id },
            ExpandError::FieldMismatch { missing, extra } => ExpandErrorModel::FieldMismatch {
                missing: strings_view(missing@),
                extra: strings_view(extra@),
            },
            ExpandError::DuplicateColumnName { name } => ExpandErrorModel::DuplicateColumnName {
                name: name@,
            },
            ExpandError::DuplicateFieldName { name } => ExpandErrorModel::DuplicateFieldName {
                name: name@,
            },
            ExpandError::NoColumns => ExpandErrorModel::NoColumns,
            ExpandError::InvalidIdentifier { name } => ExpandErrorModel::InvalidIdentifier {
                name: name@,
            },
            ExpandError::FieldTypeMismatch { field, column_type, field_type } =>
                ExpandErrorModel::FieldTypeMismatch {
                field: field@,
                column_type: *column_type,
                field_type: *field_type,
            },
        }
    }
}

} // verus!
