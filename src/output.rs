use vstd::prelude::*;
use crate::error::{ExpandError, ExpandErrorModel, strings_view};
use crate::ident::{is_rust_ident, parses_as_ident};
use crate::names::{
    absent_names, column_names, column_names_of, field_names, field_names_of, find_duplicate,
    first_duplicate, first_index, lemma_first_index, names_absent, position_of,
};
use crate::registry::{compatible_spec, resolve_spec, TypeMappingRegistry};
use crate::search::{first_failing, lemma_first_failing_stable};
use crate::types::{ColumnDescriptor, OutputTarget, RustType, TargetField, wrap, wrap_spec};

verus! {

/// One output field: its name, the result column it decodes from, and the
/// type it decodes to.
#[derive(Clone, Debug)]
pub struct RustColumn {
    pub field_name: String,
    pub column_index: usize,
    pub ty: RustType,
}

pub struct RustColumnModel {
    pub field_name: Seq<char>,
    pub column_index: nat,
    pub ty: RustType,
}

impl View for RustColumn {
    type V = RustColumnModel;

    open spec fn view(&self) -> RustColumnModel {
        RustColumnModel {
            field_name: self.field_name@,
            column_index: self.column_index as nat,
            ty: self.ty,
        }
    }
}

pub open spec fn rust_columns_view(v: Seq<RustColumn>) -> Seq<RustColumnModel> {
    v.map_values(|c: RustColumn| c@)
}

/// How each returned row is turned into a value.
#[derive(Clone, Debug)]
pub enum OutputPlan {
    /// The statement returns no columns: rows carry nothing.
    Unit,
    /// A fresh record type, one field per column, in column order.
    Fresh { columns: Vec<RustColumn> },
    /// The caller's type at `path`, its fields in declaration order.
    Existing { path: String, columns: Vec<RustColumn> },
}

pub enum OutputPlanModel {
    Unit,
    Fresh { columns: Seq<RustColumnModel> },
    Existing { path: Seq<char>, columns: Seq<RustColumnModel> },
}

impl View for OutputPlan {
    type V = OutputPlanModel;

    open spec fn view(&self) -> OutputPlanModel {
        match self {
            OutputPlan::Unit => OutputPlanModel::Unit,
            OutputPlan::Fresh { columns } => OutputPlanModel::Fresh {
                columns: rust_columns_view(columns@),
            },
            OutputPlan::Existing { path, columns } => OutputPlanModel::Existing {
                path: path@,
                columns: rust_columns_view(columns@),
            },
        }
    }
}

pub open spec fn column_resolves(reg: TypeMappingRegistry, cols: Seq<ColumnDescriptor>) -> spec_fn(
    int,
) -> bool {
    |i: int| resolve_spec(reg, cols[i].type_id) is Some
}

/// The first column whose backend type has no registered host type.
pub open spec fn first_unresolved(reg: TypeMappingRegistry, cols: Seq<ColumnDescriptor>) -> Option<
    nat,
> {
    first_failing(column_resolves(reg, cols), cols.len())
}

/// What a resolved column decodes to: its first registered host type,
/// wrapped in `Option` as its nullability asks.
pub open spec fn column_type(reg: TypeMappingRegistry, c: ColumnDescriptor) -> RustType {
    wrap_spec(resolve_spec(reg, c.type_id)->0, c.nullability)
}

pub open spec fn rust_columns_spec(reg: TypeMappingRegistry, cols: Seq<ColumnDescriptor>) -> Seq<
    RustColumnModel,
> {
    Seq::new(
        cols.len(),
        |i: int|
            RustColumnModel {
                field_name: cols[i].name@,
                column_index: i as nat,
                ty: column_type(reg, cols[i]),
            },
    )
}

pub open spec fn columns_to_rust_spec(reg: TypeMappingRegistry, cols: Seq<ColumnDescriptor>) -> Result<
    Seq<RustColumnModel>,
    ExpandErrorModel,
> {
    match first_unresolved(reg, cols) {
        Some(j) => Err(
            ExpandErrorModel::UnresolvedColumnType {
                column: cols[j as int].name@,
                type_id: cols[j as int].type_id,
            },
        ),
        None => Ok(rust_columns_spec(reg, cols)),
    }
}

pub open spec fn columns_result_view(r: Result<Vec<RustColumn>, ExpandError>) -> Result<
    Seq<RustColumnModel>,
    ExpandErrorModel,
> {
    match r {
        Ok(v) => Ok(rust_columns_view(v@)),
        Err(e) => Err(e@),
    }
}

/// One `RustColumn` per described column, in column order.
pub fn columns_to_rust(columns: &Vec<ColumnDescriptor>, registry: &TypeMappingRegistry) -> (r: Result<
    Vec<RustColumn>,
    ExpandError,
>)
    ensures
        columns_result_view(r) == columns_to_rust_spec(*registry, columns@),
{
    let ghost cols = columns@;
    let mut out: Vec<RustColumn> = Vec::new();
    let mut i: usize = 0;
    while i < columns.len()
        invariant
            i <= cols.len(),
            cols == columns@,
            first_failing(column_resolves(*registry, cols), i as nat) is None,
            rust_columns_view(out@) =~= rust_columns_spec(*registry, cols).take(i as int),
        decreases cols.len() - i,
    {
        let c = &columns[i];
        assert(column_resolves(*registry, cols)(i as int) == (resolve_spec(*registry, cols[i as int].type_id) is Some));
        match registry.resolve(c.type_id) {
            None => {
                proof {
                    lemma_first_failing_stable(column_resolves(*registry, cols), (i + 1) as nat, cols.len());
                }
                return Err(ExpandError::UnresolvedColumnType { column: c.name.clone(), type_id: c.type_id });
            },
            Some(h) => {
                let rc = RustColumn { field_name: c.name.clone(), column_index: i, ty: wrap(h, c.nullability) };
                proof {
                    assert(rust_columns_view(out@.push(rc)) =~= rust_columns_view(out@).push(rc@));
                }
                out.push(rc);
            },
        }
        i = i + 1;
    }
    assert(rust_columns_spec(*registry, cols).take(cols.len() as int) =~= rust_columns_spec(*registry, cols));
    Ok(out)
}

pub open spec fn names_a_field(cols: Seq<ColumnDescriptor>) -> spec_fn(int) -> bool {
    |i: int| is_rust_ident(cols[i].name@)
}

/// The first column whose name cannot be a field of the fresh record.
pub open spec fn first_invalid_ident(cols: Seq<ColumnDescriptor>) -> Option<nat> {
    first_failing(names_a_field(cols), cols.len())
}

/// The column that supplies the field named `name`.
pub open spec fn column_for(cols: Seq<ColumnDescriptor>, name: Seq<char>) -> int {
    first_index(column_names(cols), name, cols.len())->0 as int
}

/// Whether a field declared as `declared` can hold what column `c` decodes
/// to: its host type is accepted for the column's backend type, as for an
/// argument, and it is `Option` wherever the column may be null.
pub open spec fn field_fits(reg: TypeMappingRegistry, c: ColumnDescriptor, declared: RustType) -> bool {
    &&& compatible_spec(reg, c.type_id, declared.host)
    &&& (column_type(reg, c).optional ==> declared.optional)
}

pub open spec fn field_ok(
    reg: TypeMappingRegistry,
    cols: Seq<ColumnDescriptor>,
    fields: Seq<TargetField>,
) -> spec_fn(int) -> bool {
    |i: int| field_fits(reg, cols[column_for(cols, fields[i].name@)], fields[i].declared)
}

/// The first field, in declaration order, that cannot hold its column.
pub open spec fn first_unfit_field(
    reg: TypeMappingRegistry,
    cols: Seq<ColumnDescriptor>,
    fields: Seq<TargetField>,
) -> Option<nat> {
    first_failing(field_ok(reg, cols, fields), fields.len())
}

/// The target's fields in declaration order, each with its column.
pub open spec fn named_columns_spec(
    reg: TypeMappingRegistry,
    cols: Seq<ColumnDescriptor>,
    fields: Seq<TargetField>,
) -> Seq<RustColumnModel> {
    Seq::new(
        fields.len(),
        |i: int| rust_columns_spec(reg, cols)[column_for(cols, fields[i].name@)],
    )
}

/// Resolution for a named target, once columns are unique and resolved.
pub open spec fn resolve_named_spec(
    reg: TypeMappingRegistry,
    cols: Seq<ColumnDescriptor>,
    path: Seq<char>,
    fields: Seq<TargetField>,
) -> Result<OutputPlanModel, ExpandErrorModel> {
    let fnames = field_names(fields);
    let cnames = column_names(cols);
    match first_duplicate(fnames, fields.len()) {
        Some(j) => Err(ExpandErrorModel::DuplicateFieldName { name: fnames[j as int] }),
        None => {
            let missing = names_absent(fnames, cnames, fields.len());
            let extra = names_absent(cnames, fnames, cols.len());
            if missing.len() > 0 || extra.len() > 0 {
                Err(ExpandErrorModel::FieldMismatch { missing, extra })
            } else {
                match first_unfit_field(reg, cols, fields) {
                    Some(i) => {
                        let f = fields[i as int];
                        Err(
                            ExpandErrorModel::FieldTypeMismatch {
                                field: f.name@,
                                column_type: column_type(reg, cols[column_for(cols, f.name@)]),
                                field_type: f.declared,
                            },
                        )
                    },
                    None => Ok(
                        OutputPlanModel::Existing {
                            path,
                            columns: named_columns_spec(reg, cols, fields),
                        },
                    ),
                }
            }
        },
    }
}

/// The output plan for a target and the described columns. Checks come in
/// this order: no columns, duplicate column names, unresolved column types,
/// then for a fresh record the column names as identifiers, and for a named
/// target duplicate field names, the two name sets, and each field's type.
pub open spec fn resolve_output_spec(
    reg: TypeMappingRegistry,
    target: OutputTarget,
    cols: Seq<ColumnDescriptor>,
) -> Result<OutputPlanModel, ExpandErrorModel> {
    if cols.len() == 0 {
        match target {
            OutputTarget::Anonymous => Ok(OutputPlanModel::Unit),
            OutputTarget::Named { .. } => Err(ExpandErrorModel::NoColumns),
        }
    } else {
        match first_duplicate(column_names(cols), cols.len()) {
            Some(j) => Err(ExpandErrorModel::DuplicateColumnName { name: cols[j as int].name@ }),
            None => match first_unresolved(reg, cols) {
                Some(j) => Err(
                    ExpandErrorModel::UnresolvedColumnType {
                        column: cols[j as int].name@,
                        type_id: cols[j as int].type_id,
                    },
                ),
                None => match target {
                    OutputTarget::Anonymous => match first_invalid_ident(cols) {
                        Some(j) => Err(ExpandErrorModel::InvalidIdentifier { name: cols[j as int].name@ }),
                        None => Ok(OutputPlanModel::Fresh { columns: rust_columns_spec(reg, cols) }),
                    },
                    OutputTarget::Named { path, fields } => resolve_named_spec(reg, cols, path@, fields@),
                },
            },
        }
    }
}

pub open spec fn output_result_view(r: Result<OutputPlan, ExpandError>) -> Result<
    OutputPlanModel,
    ExpandErrorModel,
> {
    match r {
        Ok(p) => Ok(p@),
        Err(e) => Err(e@),
    }
}

pub proof fn lemma_none_absent(a: Seq<Seq<char>>, b: Seq<Seq<char>>, n: nat)
    requires
        n <= a.len(),
        names_absent(a, b, n).len() == 0,
    ensures
        forall|i: int| 0 <= i < n ==> b.contains(#[trigger] a[i]),
    decreases n,
{
    if n > 0 {
        lemma_none_absent(a, b, (n - 1) as nat);
    }
}

/// The first column whose name is not an identifier, if any.
fn find_invalid_ident(columns: &Vec<ColumnDescriptor>) -> (r: Option<usize>)
    ensures
        r matches Some(p) ==> p < columns@.len(),
        first_invalid_ident(columns@) == match r {
            Some(p) => Some(p as nat),
            None => None::<nat>,
        },
{
    let ghost cols = columns@;
    let mut i: usize = 0;
    while i < columns.len()
        invariant
            i <= cols.len(),
            cols == columns@,
            first_failing(names_a_field(cols), i as nat) is None,
        decreases cols.len() - i,
    {
        assert(names_a_field(cols)(i as int) == is_rust_ident(cols[i as int].name@));
        if !parses_as_ident(columns[i].name.as_str()) {
            proof {
                lemma_first_failing_stable(names_a_field(cols), (i + 1) as nat, cols.len());
            }
            return Some(i);
        }
        i = i + 1;
    }
    None
}

fn resolve_named(
    columns: &Vec<ColumnDescriptor>,
    rust_cols: &Vec<RustColumn>,
    cnames: &Vec<String>,
    path: &String,
    fields: &Vec<TargetField>,
    registry: &TypeMappingRegistry,
) -> (r: Result<OutputPlan, ExpandError>)
    requires
        strings_view(cnames@) == column_names(columns@),
        rust_columns_view(rust_cols@) == rust_columns_spec(*registry, columns@),
    ensures
        output_result_view(r) == resolve_named_spec(*registry, columns@, path@, fields@),
{
    let ghost cols = columns@;
    let ghost cv = column_names(cols);
    let fnames = field_names_of(fields);
    let ghost fv = field_names(fields@);
    assert(fnames@.len() == fv.len() && fv.len() == fields@.len());
    assert(cnames@.len() == cv.len() && cv.len() == cols.len());
    assert(rust_cols@.len() == rust_columns_spec(*registry, cols).len());
    match find_duplicate(&fnames) {
        Some(j) => {
            return Err(ExpandError::DuplicateFieldName { name: fnames[j].clone() });
        },
        None => {},
    }
    let missing = absent_names(&fnames, cnames);
    let extra = absent_names(cnames, &fnames);
    assert(strings_view(missing@).len() == missing@.len());
    assert(strings_view(extra@).len() == extra@.len());
    if missing.len() > 0 || extra.len() > 0 {
        return Err(ExpandError::FieldMismatch { missing, extra });
    }
    proof {
        lemma_none_absent(fv, cv, fv.len());
    }
    let mut out: Vec<RustColumn> = Vec::new();
    let mut i: usize = 0;
    while i < fields.len()
        invariant
            i <= fields@.len(),
            cols == columns@,
            cv == column_names(cols),
            fv == field_names(fields@),
            strings_view(cnames@) == cv,
            rust_columns_view(rust_cols@) == rust_columns_spec(*registry, cols),
            cnames@.len() == cols.len(),
            rust_cols@.len() == cols.len(),
            fields@.len() == fv.len(),
            first_duplicate(fv, fv.len()) is None,
            names_absent(fv, cv, fv.len()).len() == 0,
            names_absent(cv, fv, cv.len()).len() == 0,
            forall|k: int| 0 <= k < fv.len() ==> cv.contains(#[trigger] fv[k]),
            first_failing(field_ok(*registry, cols, fields@), i as nat) is None,
            rust_columns_view(out@) =~= named_columns_spec(*registry, cols, fields@).take(i as int),
        decreases fields@.len() - i,
    {
        let f = &fields[i];
        proof {
            assert(fv[i as int] == f.name@);
            lemma_first_index(cv, f.name@, cv.len());
        }
        let k = match position_of(cnames, &f.name, cnames.len()) {
            Some(k) => k,
            None => {
                return Err(ExpandError::NoColumns);
            },
        };
        assert(k as int == column_for(cols, f.name@));
        let rc = &rust_cols[k];
        assert(rc@ == rust_columns_spec(*registry, cols)[k as int]);
        let fits = registry.is_param_compatible(columns[k].type_id, f.declared.host) && (!rc.ty.optional
            || f.declared.optional);
        assert(field_ok(*registry, cols, fields@)(i as int) == field_fits(*registry, cols[k as int], f.declared));
        if !fits {
            proof {
                lemma_first_failing_stable(field_ok(*registry, cols, fields@), (i + 1) as nat, fields@.len());
            }
            return Err(
                ExpandError::FieldTypeMismatch {
                    field: f.name.clone(),
                    column_type: rc.ty,
                    field_type: f.declared,
                },
            );
        }
        let nc = RustColumn { field_name: rc.field_name.clone(), column_index: rc.column_index, ty: rc.ty };
        proof {
            assert(rust_columns_view(out@.push(nc)) =~= rust_columns_view(out@).push(nc@));
        }
        out.push(nc);
        i = i + 1;
    }
    assert(named_columns_spec(*registry, cols, fields@).take(fields@.len() as int)
        =~= named_columns_spec(*registry, cols, fields@));
    Ok(OutputPlan::Existing { path: path.clone(), columns: out })
}

/// Reconciles the described columns with the requested output shape.
pub fn resolve_output(
    target: &OutputTarget,
    columns: &Vec<ColumnDescriptor>,
    registry: &TypeMappingRegistry,
) -> (r: Result<OutputPlan, ExpandError>)
    ensures
        output_result_view(r) == resolve_output_spec(*registry, *target, columns@),
{
    if columns.len() == 0 {
        return match target {
            OutputTarget::Anonymous => Ok(OutputPlan::Unit),
            OutputTarget::Named { .. } => Err(ExpandError::NoColumns),
        };
    }
    let cnames = column_names_of(columns);
    assert(cnames@.len() == strings_view(cnames@).len());
    match find_duplicate(&cnames) {
        Some(j) => {
            return Err(ExpandError::DuplicateColumnName { name: columns[j].name.clone() });
        },
        None => {},
    }
    let rust_cols = match columns_to_rust(columns, registry) {
        Ok(v) => v,
        Err(e) => {
            return Err(e);
        },
    };
    match target {
        OutputTarget::Anonymous => match find_invalid_ident(columns) {
            Some(j) => Err(ExpandError::InvalidIdentifier { name: columns[j].name.clone() }),
            None => Ok(OutputPlan::Fresh { columns: rust_cols }),
        },
        OutputTarget::Named { path, fields } => resolve_named(
            columns,
            &rust_cols,
            &cnames,
            path,
            fields,
            registry,
        ),
    }
}

} // verus!
