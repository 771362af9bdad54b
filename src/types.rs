use vstd::prelude::*;

verus! {

/// A backend's identifier for one of its types (for Postgres, a type OID).
#[derive(Clone, Copy, Debug, PartialEq, Eq, Structural)]
pub struct TypeId {
    pub oid: u32,
}

/// The host-language types that a backend registers for its own types.
#[derive(Clone, Copy, Debug, PartialEq, Eq, Structural)]
pub enum HostKind {
    Bool,
    Str,
    String,
    I16,
    I32,
    I64,
    Float32,
    Float64,
    Uuid,
    NaiveTime,
    NaiveDate,
    NaiveDateTime,
    DateTimeUtc,
}

/// A host type, possibly wrapped in `Option`.
#[derive(Clone, Copy, Debug, PartialEq, Eq, Structural)]
pub struct RustType {
    pub host: HostKind,
    pub optional: bool,
}

/// What the database knows of whether a result column can be null.
#[derive(Clone, Copy, Debug, PartialEq, Eq, Structural)]
pub enum Nullability {
    DefinitelyNotNull,
    DefinitelyNull,
    Unknown,
}

/// The type a column decodes to: `Option`-wrapped unless the column is
/// known never to be null.
pub open spec fn wrap_spec(host: HostKind, nullability: Nullability) -> RustType {
    RustType { host, optional: !(nullability is DefinitelyNotNull) }
}

pub fn wrap(host: HostKind, nullability: Nullability) -> (r: RustType)
    ensures
        r == wrap_spec(host, nullability),
{
    match nullability {
        Nullability::DefinitelyNotNull => RustType { host, optional: false },
        _ => RustType { host, optional: true },
    }
}

/// A region of the invocation's source, as byte offsets.
#[derive(Clone, Copy, Debug, PartialEq, Eq, Structural)]
pub struct SourceSpan {
    pub start: usize,
    pub end: usize,
}

/// One bind argument: its expression as written, the host type that the
/// host language inferred for it, and where it stands.
#[derive(Clone, Debug)]
pub struct Argument {
    pub expr: String,
    pub host: HostKind,
    pub span: SourceSpan,
}

/// One invocation: the SQL text, where it stands, and its arguments in order.
#[derive(Clone, Debug)]
pub struct QueryInput {
    pub source: String,
    pub source_span: SourceSpan,
    pub arguments: Vec<Argument>,
}

/// One result column as the database describes it. Names may repeat.
#[derive(Clone, Debug)]
pub struct ColumnDescriptor {
    pub name: String,
    pub type_id: TypeId,
    pub nullability: Nullability,
}

/// The database's description of a statement: parameter types and result
/// columns, both in order.
#[derive(Clone, Debug)]
pub struct DescribeResult {
    pub parameter_types: Vec<TypeId>,
    pub result_columns: Vec<ColumnDescriptor>,
}

/// Why the database could not describe a statement.
#[derive(Clone, Copy, Debug, PartialEq, Eq, Structural)]
pub enum DescribeFailure {
    Connection,
    Rejected,
    NotDescribable,
}

/// A failed describe round trip, with the server's diagnostic text.
#[derive(Clone, Debug)]
pub struct DescribeError {
    pub kind: DescribeFailure,
    pub message: String,
}

/// One field of a caller-supplied output type.
#[derive(Clone, Debug)]
pub struct TargetField {
    pub name: String,
    pub declared: RustType,
}

/// The requested output shape: a fresh record, or a named type with its
/// fields in declaration order.
#[derive(Clone, Debug)]
pub enum OutputTarget {
    Anonymous,
    Named { path: String, fields: Vec<TargetField> },
}

} // verus!
