use vstd::prelude::*;
use crate::error::ExpandErrorModel;
use crate::args::{arg_fits, bind_spec, first_arg_mismatch, BindingModel};
use crate::expand::expand_spec;
use crate::names::{column_names, field_names, first_duplicate, lemma_first_index, names_absent, new_at};
use crate::output::{
    column_for, field_ok, first_unfit_field, lemma_none_absent, first_unresolved, named_columns_spec, names_a_field,
    resolve_named_spec, resolve_output_spec, rust_columns_spec, OutputPlanModel,
};
use crate::registry::{resolve_spec, TypeMappingRegistry};
use crate::search::{lemma_first_failing_congruent, lemma_first_failing_none, lemma_first_failing_some};
use crate::output::column_resolves;
use crate::types::{
    Argument, ColumnDescriptor, DescribeError, DescribeResult, Nullability, OutputTarget, QueryInput,
    TargetField, TypeId,
};

verus! {

/// When the number of arguments differs from the number of described
/// parameters, expansion fails with an arity error, before any output
/// resolution.
pub proof fn law_arity_mismatch_fails(
    reg: TypeMappingRegistry,
    input: QueryInput,
    target: OutputTarget,
    d: DescribeResult,
)
    requires
        input.arguments@.len() != d.parameter_types@.len(),
    ensures
        expand_spec(reg, input, target, Ok(d)) == Err::<crate::expand::QueryPlanModel, ExpandErrorModel>(
            ExpandErrorModel::ArityMismatch {
                parameters: d.parameter_types@.len(),
                arguments: input.arguments@.len(),
            },
        ),
{
}

/// With no result column, a fresh-record target yields no output type, and
/// a named target fails with `NoColumns`.
pub proof fn law_no_columns(reg: TypeMappingRegistry, target: OutputTarget, cols: Seq<ColumnDescriptor>)
    requires
        cols.len() == 0,
    ensures
        target is Anonymous ==> resolve_output_spec(reg, target, cols) == Ok::<OutputPlanModel, ExpandErrorModel>(
            OutputPlanModel::Unit,
        ),
        target is Named ==> resolve_output_spec(reg, target, cols) == Err::<OutputPlanModel, ExpandErrorModel>(
            ExpandErrorModel::NoColumns,
        ),
{
}

/// A column's decoded type is its registered host type, wrapped in
/// `Option` exactly when the column is not known to be non-null; two
/// columns of the same backend type and nullability decode alike, whatever
/// their names and positions.
pub proof fn law_wrapping_follows_nullability(
    reg: TypeMappingRegistry,
    cols: Seq<ColumnDescriptor>,
    i: int,
    j: int,
)
    requires
        first_unresolved(reg, cols) is None,
        0 <= i < cols.len(),
        0 <= j < cols.len(),
    ensures
        rust_columns_spec(reg, cols)[i].ty.optional == !(cols[i].nullability is DefinitelyNotNull),
        cols[i].nullability == Nullability::Unknown ==> rust_columns_spec(reg, cols)[i].ty.optional,
        Some(rust_columns_spec(reg, cols)[i].ty.host) == resolve_spec(reg, cols[i].type_id),
        cols[i].type_id == cols[j].type_id && cols[i].nullability == cols[j].nullability ==> rust_columns_spec(reg, cols)[i].ty
            == rust_columns_spec(reg, cols)[j].ty,
{
    lemma_first_failing_none(column_resolves(reg, cols), cols.len());
    assert(column_resolves(reg, cols)(i));
}

proof fn lemma_push_to_set(s: Seq<Seq<char>>, x: Seq<char>)
    ensures
        s.push(x).to_set() == s.to_set().insert(x),
{
    assert forall|y: Seq<char>| s.push(x).to_set().contains(y) implies s.to_set().insert(x).contains(y) by {
        let k = choose|k: int| 0 <= k < s.push(x).len() && s.push(x)[k] == y;
        if k < s.len() {
            assert(s[k] == y);
        }
    }
    assert forall|y: Seq<char>| s.to_set().insert(x).contains(y) implies s.push(x).to_set().contains(y) by {
        if y == x {
            assert(s.push(x)[s.len() as int] == y);
        } else {
            let k = choose|k: int| 0 <= k < s.len() && s[k] == y;
            assert(s.push(x)[k] == y);
        }
    }
    assert(s.push(x).to_set() =~= s.to_set().insert(x));
}

proof fn lemma_absent_as_set(a: Seq<Seq<char>>, b: Seq<Seq<char>>, n: nat)
    requires
        n <= a.len(),
    ensures
        names_absent(a, b, n).to_set() == a.take(n as int).to_set().difference(b.to_set()),
    decreases n,
{
    if n > 0 {
        lemma_absent_as_set(a, b, (n - 1) as nat);
        let prev = a.take(n - 1);
        let y = a[n - 1];
        assert(a.take(n as int) =~= prev.push(y));
        lemma_push_to_set(prev, y);
        let rp = names_absent(a, b, (n - 1) as nat);
        if !b.contains(y) {
            lemma_push_to_set(rp, y);
        }
        assert(names_absent(a, b, n).to_set() =~= a.take(n as int).to_set().difference(b.to_set()));
    } else {
        assert(names_absent(a, b, n).to_set() =~= a.take(n as int).to_set().difference(b.to_set()));
    }
}

proof fn lemma_empty_iff_empty_set(s: Seq<Seq<char>>)
    ensures
        s.len() == 0 <==> s.to_set() == Set::<Seq<char>>::empty(),
{
    if s.len() == 0 {
        assert(s.to_set() =~= Set::<Seq<char>>::empty());
    } else {
        assert(s.to_set().contains(s[0]));
    }
}

/// For a named target, the field names must equal the column names as
/// sets: order never matters, and on a mismatch `missing` holds exactly
/// the field names that no column has, and `extra` exactly the column
/// names that no field has.
pub proof fn law_named_fields_match_as_sets(
    reg: TypeMappingRegistry,
    cols: Seq<ColumnDescriptor>,
    path: Seq<char>,
    fields: Seq<TargetField>,
)
    requires
        first_duplicate(field_names(fields), fields.len()) is None,
    ensures
        (resolve_named_spec(reg, cols, path, fields) is Err && resolve_named_spec(
            reg,
            cols,
            path,
            fields,
        )->Err_0 is FieldMismatch) <==> field_names(fields).to_set() != column_names(cols).to_set(),
        resolve_named_spec(reg, cols, path, fields) matches Err(
            ExpandErrorModel::FieldMismatch { missing, extra },
        ) ==> missing.to_set() == field_names(fields).to_set().difference(column_names(cols).to_set())
            && extra.to_set() == column_names(cols).to_set().difference(field_names(fields).to_set()),
{
    let f = field_names(fields);
    let c = column_names(cols);
    lemma_absent_as_set(f, c, f.len());
    lemma_absent_as_set(c, f, c.len());
    assert(f.take(f.len() as int) =~= f);
    assert(c.take(c.len() as int) =~= c);
    let missing = names_absent(f, c, f.len());
    let extra = names_absent(c, f, c.len());
    lemma_empty_iff_empty_set(missing);
    lemma_empty_iff_empty_set(extra);
    if f.to_set() == c.to_set() {
        assert(missing.to_set() =~= Set::<Seq<char>>::empty());
        assert(extra.to_set() =~= Set::<Seq<char>>::empty());
    } else {
        if missing.len() == 0 && extra.len() == 0 {
            assert(f.to_set() =~= c.to_set()) by {
                assert forall|x: Seq<char>| f.to_set().contains(x) implies c.to_set().contains(x) by {
                    assert(!missing.to_set().contains(x));
                }
                assert forall|x: Seq<char>| c.to_set().contains(x) implies f.to_set().contains(x) by {
                    assert(!extra.to_set().contains(x));
                }
            }
        }
    }
}

pub open spec fn same_columns(a: Seq<ColumnDescriptor>, b: Seq<ColumnDescriptor>) -> bool {
    &&& a.len() == b.len()
    &&& forall|i: int|
        0 <= i < a.len() ==> a[i].name@ == b[i].name@ && a[i].type_id == b[i].type_id
            && a[i].nullability == b[i].nullability
}

pub open spec fn same_arguments(a: Seq<Argument>, b: Seq<Argument>) -> bool {
    &&& a.len() == b.len()
    &&& forall|i: int| 0 <= i < a.len() ==> a[i].expr@ == b[i].expr@ && a[i].host == b[i].host
}

pub open spec fn same_fields(a: Seq<TargetField>, b: Seq<TargetField>) -> bool {
    &&& a.len() == b.len()
    &&& forall|i: int| 0 <= i < a.len() ==> a[i].name@ == b[i].name@ && a[i].declared == b[i].declared
}

pub open spec fn same_target(a: OutputTarget, b: OutputTarget) -> bool {
    match (a, b) {
        (OutputTarget::Anonymous, OutputTarget::Anonymous) => true,
        (OutputTarget::Named { path: p, fields: f }, OutputTarget::Named { path: q, fields: g }) => p@
            == q@ && same_fields(f@, g@),
        _ => false,
    }
}

pub open spec fn same_described(
    a: Result<DescribeResult, DescribeError>,
    b: Result<DescribeResult, DescribeError>,
) -> bool {
    match (a, b) {
        (Ok(d), Ok(e)) => d.parameter_types@ == e.parameter_types@ && same_columns(
            d.result_columns@,
            e.result_columns@,
        ),
        (Err(d), Err(e)) => d.kind == e.kind && d.message@ == e.message@,
        _ => false,
    }
}

proof fn lemma_bind_congruent(reg: TypeMappingRegistry, params: Seq<TypeId>, a: Seq<Argument>, b: Seq<Argument>)
    requires
        same_arguments(a, b),
    ensures
        bind_spec(reg, params, a) == bind_spec(reg, params, b),
{
    assert forall|i: int| 0 <= i < a.len() implies #[trigger] arg_fits(reg, params, a)(i) == arg_fits(
        reg,
        params,
        b,
    )(i) by {}
    lemma_first_failing_congruent(arg_fits(reg, params, a), arg_fits(reg, params, b), a.len());
    lemma_first_failing_some(arg_fits(reg, params, a), a.len());
    if a.len() == params.len() && first_arg_mismatch(reg, params, a) is None {
        assert(Seq::new(
            a.len(),
            |i: int| BindingModel { position: i as nat, expr: a[i].expr@, host: a[i].host },
        ) =~= Seq::new(
            b.len(),
            |i: int| BindingModel { position: i as nat, expr: b[i].expr@, host: b[i].host },
        ));
    }
}

proof fn lemma_output_congruent(
    reg: TypeMappingRegistry,
    s: OutputTarget,
    t: OutputTarget,
    a: Seq<ColumnDescriptor>,
    b: Seq<ColumnDescriptor>,
)
    requires
        same_target(s, t),
        same_columns(a, b),
    ensures
        resolve_output_spec(reg, s, a) == resolve_output_spec(reg, t, b),
{
    assert(column_names(a) =~= column_names(b));
    assert forall|i: int| 0 <= i < a.len() implies #[trigger] column_resolves(reg, a)(i) == column_resolves(
        reg,
        b,
    )(i) by {}
    lemma_first_failing_congruent(column_resolves(reg, a), column_resolves(reg, b), a.len());
    assert forall|i: int| 0 <= i < a.len() implies #[trigger] names_a_field(a)(i) == names_a_field(b)(i) by {}
    lemma_first_failing_congruent(names_a_field(a), names_a_field(b), a.len());
    assert(rust_columns_spec(reg, a) =~= rust_columns_spec(reg, b));
    lemma_first_failing_some(new_at(column_names(a)), a.len());
    lemma_first_failing_some(column_resolves(reg, a), a.len());
    lemma_first_failing_some(names_a_field(a), a.len());
    match (s, t) {
        (OutputTarget::Named { path: p, fields: f }, OutputTarget::Named { path: q, fields: g }) => {
            let fa = f@;
            let fb = g@;
            let fna = field_names(fa);
            let cna = column_names(a);
            assert(fna =~= field_names(fb));
            if names_absent(fna, cna, fa.len()).len() == 0 {
                lemma_none_absent(fna, cna, fa.len());
                assert forall|i: int| 0 <= i < fa.len() implies 0 <= #[trigger] column_for(a, fa[i].name@)
                    < a.len() && column_for(a, fa[i].name@) == column_for(b, fb[i].name@) by {
                    assert(fna[i] == fa[i].name@);
                    lemma_first_index(cna, fa[i].name@, a.len());
                }
                assert forall|i: int| 0 <= i < fa.len() implies #[trigger] field_ok(reg, a, fa)(i)
                    == field_ok(reg, b, fb)(i) by {
                    assert(0 <= column_for(a, fa[i].name@) < a.len());
                }
                lemma_first_failing_congruent(field_ok(reg, a, fa), field_ok(reg, b, fb), fa.len());
                lemma_first_failing_some(field_ok(reg, a, fa), fa.len());
                assert(named_columns_spec(reg, a, fa) =~= named_columns_spec(reg, b, fb));
                match first_unfit_field(reg, a, fa) {
                    Some(i) => {
                        assert(0 <= column_for(a, fa[i as int].name@) < a.len());
                    },
                    None => {},
                }
            }
            assert(resolve_named_spec(reg, a, p@, fa) == resolve_named_spec(reg, b, q@, fb));
        },
        _ => {},
    }
}

/// Expansion depends on what its inputs hold and on nothing else: inputs
/// with the same texts, types and orders give the same plan, field for
/// field and in the same order, or the same error.
pub proof fn law_expansion_is_repeatable(
    reg: TypeMappingRegistry,
    i1: QueryInput,
    i2: QueryInput,
    t1: OutputTarget,
    t2: OutputTarget,
    d1: Result<DescribeResult, DescribeError>,
    d2: Result<DescribeResult, DescribeError>,
)
    requires
        i1.source@ == i2.source@,
        same_arguments(i1.arguments@, i2.arguments@),
        same_target(t1, t2),
        same_described(d1, d2),
    ensures
        expand_spec(reg, i1, t1, d1) == expand_spec(reg, i2, t2, d2),
{
    match (d1, d2) {
        (Ok(a), Ok(b)) => {
            lemma_bind_congruent(reg, a.parameter_types@, i1.arguments@, i2.arguments@);
            lemma_output_congruent(reg, t1, t2, a.result_columns@, b.result_columns@);
        },
        _ => {},
    }
}

} // verus!
