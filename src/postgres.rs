use vstd::prelude::*;
use crate::registry::{HostMapping, ParamChecking, TypeMappingRegistry};
use crate::types::{HostKind, TypeId};

verus! {

pub const BOOL_OID: u32 = 16;
pub const INT8_OID: u32 = 20;
pub const INT2_OID: u32 = 21;
pub const INT4_OID: u32 = 23;
pub const TEXT_OID: u32 = 25;
pub const FLOAT4_OID: u32 = 700;
pub const FLOAT8_OID: u32 = 701;
pub const VARCHAR_OID: u32 = 1043;
pub const DATE_OID: u32 = 1082;
pub const TIME_OID: u32 = 1083;
pub const TIMESTAMP_OID: u32 = 1114;
pub const TIMESTAMPTZ_OID: u32 = 1184;
pub const UUID_OID: u32 = 2950;

pub open spec fn exact(oid: u32, host: HostKind) -> HostMapping {
    HostMapping { type_id: TypeId { oid }, host, exact: true }
}

pub open spec fn coerced(oid: u32, host: HostKind) -> HostMapping {
    HostMapping { type_id: TypeId { oid }, host, exact: false }
}

/// The Postgres table. For each type the first entry is the type a column
/// decodes to; the entries that are not exact are widening conversions,
/// accepted only under weak checking.
pub open spec fn postgres_entries() -> Seq<HostMapping> {
    seq![
        exact(BOOL_OID, HostKind::Bool),
        exact(TEXT_OID, HostKind::String),
        exact(TEXT_OID, HostKind::Str),
        exact(VARCHAR_OID, HostKind::String),
        exact(VARCHAR_OID, HostKind::Str),
        exact(INT2_OID, HostKind::I16),
        exact(INT4_OID, HostKind::I32),
        coerced(INT4_OID, HostKind::I16),
        exact(INT8_OID, HostKind::I64),
        coerced(INT8_OID, HostKind::I32),
        coerced(INT8_OID, HostKind::I16),
        exact(FLOAT4_OID, HostKind::Float32),
        exact(FLOAT8_OID, HostKind::Float64),
        coerced(FLOAT8_OID, HostKind::Float32),
        exact(UUID_OID, HostKind::Uuid),
        exact(TIME_OID, HostKind::NaiveTime),
        exact(DATE_OID, HostKind::NaiveDate),
        exact(TIMESTAMP_OID, HostKind::NaiveDateTime),
        exact(TIMESTAMPTZ_OID, HostKind::DateTimeUtc),
    ]
}

fn entry(oid: u32, host: HostKind, exact: bool) -> (r: HostMapping)
    ensures
        r == (HostMapping { type_id: TypeId { oid }, host, exact }),
{
    HostMapping { type_id: TypeId { oid }, host, exact }
}

/// The Postgres registry, with strong checking.
pub fn postgres_registry() -> (r: TypeMappingRegistry)
    ensures
        r.checking == ParamChecking::Strong,
        r.entries@ == postgres_entries(),
{
    let entries = vec![
        entry(BOOL_OID, HostKind::Bool, true),
        entry(TEXT_OID, HostKind::String, true),
        entry(TEXT_OID, HostKind::Str, true),
        entry(VARCHAR_OID, HostKind::String, true),
        entry(VARCHAR_OID, HostKind::Str, true),
        entry(INT2_OID, HostKind::I16, true),
        entry(INT4_OID, HostKind::I32, true),
        entry(INT4_OID, HostKind::I16, false),
        entry(INT8_OID, HostKind::I64, true),
        entry(INT8_OID, HostKind::I32, false),
        entry(INT8_OID, HostKind::I16, false),
        entry(FLOAT4_OID, HostKind::Float32, true),
        entry(FLOAT8_OID, HostKind::Float64, true),
        entry(FLOAT8_OID, HostKind::Float32, false),
        entry(UUID_OID, HostKind::Uuid, true),
        entry(TIME_OID, HostKind::NaiveTime, true),
        entry(DATE_OID, HostKind::NaiveDate, true),
        entry(TIMESTAMP_OID, HostKind::NaiveDateTime, true),
        entry(TIMESTAMPTZ_OID, HostKind::DateTimeUtc, true),
    ];
    assert(entries@ =~= postgres_entries());
    TypeMappingRegistry { checking: ParamChecking::Strong, entries }
}

} // verus!
