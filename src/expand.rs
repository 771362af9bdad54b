use vstd::prelude::*;
use crate::args::{bind_arguments, bind_result_view, bind_spec, bindings_view, Binding, BindingModel};
use crate::error::{ExpandError, ExpandErrorModel};
use crate::output::{output_result_view, resolve_output, resolve_output_spec, OutputPlan, OutputPlanModel};
use crate::registry::TypeMappingRegistry;
use crate::types::{DescribeError, DescribeResult, OutputTarget, QueryInput, SourceSpan, TargetField};

verus! {

/// Everything needed to emit one invocation's code: the SQL text, how each
/// argument is bound, and how each row is decoded.
#[derive(Clone, Debug)]
pub struct QueryPlan {
    pub sql: String,
    pub bindings: Vec<Binding>,
    pub output: OutputPlan,
}

pub struct QueryPlanModel {
    pub sql: Seq<char>,
    pub bindings: Seq<BindingModel>,
    pub output: OutputPlanModel,
}

impl View for QueryPlan {
    type V = QueryPlanModel;

    open spec fn view(&self) -> QueryPlanModel {
        QueryPlanModel { sql: self.sql@, bindings: bindings_view(self.bindings@), output: self.output@ }
    }
}

pub open spec fn plan_result_view(r: Result<QueryPlan, ExpandError>) -> Result<
    QueryPlanModel,
    ExpandErrorModel,
> {
    match r {
        Ok(p) => Ok(p@),
        Err(e) => Err(e@),
    }
}

/// One invocation from start to end: the describe outcome, then the
/// arguments, then the output shape; the first failure ends it.
pub open spec fn expand_spec(
    reg: TypeMappingRegistry,
    input: QueryInput,
    target: OutputTarget,
    described: Result<DescribeResult, DescribeError>,
) -> Result<QueryPlanModel, ExpandErrorModel> {
    match described {
        Err(e) => Err(ExpandErrorModel::Describe { kind: e.kind, message: e.message@ }),
        Ok(d) => match bind_spec(reg, d.parameter_types@, input.arguments@) {
            Err(e) => Err(e),
            Ok(b) => match resolve_output_spec(reg, target, d.result_columns@) {
                Err(e) => Err(e),
                Ok(o) => Ok(QueryPlanModel { sql: input.source@, bindings: b, output: o }),
            },
        },
    }
}

/// Runs the checks of one invocation against the database's description
/// of its statement, and plans the code to emit.
pub fn expand(
    input: &QueryInput,
    target: &OutputTarget,
    described: &Result<DescribeResult, DescribeError>,
    registry: &TypeMappingRegistry,
) -> (r: Result<QueryPlan, ExpandError>)
    ensures
        plan_result_view(r) == expand_spec(*registry, *input, *target, *described),
{
    let d = match described {
        Err(e) => {
            return Err(ExpandError::Describe { kind: e.kind, message: e.message.clone() });
        },
        Ok(d) => d,
    };
    let bindings = bind_arguments(&input.arguments, &d.parameter_types, registry);
    assert(bind_result_view(bindings) == bind_spec(*registry, d.parameter_types@, input.arguments@));
    let bindings = match bindings {
        Err(e) => {
            return Err(e);
        },
        Ok(b) => b,
    };
    let output = resolve_output(target, &d.result_columns, registry);
    assert(output_result_view(output) == resolve_output_spec(*registry, *target, d.result_columns@));
    match output {
        Err(e) => Err(e),
        Ok(o) => Ok(QueryPlan { sql: input.source.clone(), bindings, output: o }),
    }
}

/// An invocation whose rows become a fresh record type.
pub fn expand_query(
    input: &QueryInput,
    described: &Result<DescribeResult, DescribeError>,
    registry: &TypeMappingRegistry,
) -> (r: Result<QueryPlan, ExpandError>)
    ensures
        plan_result_view(r) == expand_spec(*registry, *input, OutputTarget::Anonymous, *described),
{
    expand(input, &OutputTarget::Anonymous, described, registry)
}

/// An invocation whose rows become values of the caller's type at `path`,
/// whose fields are `fields` in declaration order.
pub fn expand_query_as(
    input: &QueryInput,
    path: String,
    fields: Vec<TargetField>,
    described: &Result<DescribeResult, DescribeError>,
    registry: &TypeMappingRegistry,
) -> (r: Result<QueryPlan, ExpandError>)
    ensures
        plan_result_view(r) == expand_spec(
            *registry,
            *input,
            OutputTarget::Named { path, fields },
            *described,
        ),
{
    let target = OutputTarget::Named { path, fields };
    expand(input, &target, described, registry)
}

pub open spec fn with_source(input: QueryInput, contents: String) -> QueryInput {
    QueryInput { source: contents, ..input }
}

/// `expand_query` on SQL text read from a file: `contents` takes the
/// place of the invocation's source.
pub fn expand_query_file(
    input: QueryInput,
    contents: String,
    described: &Result<DescribeResult, DescribeError>,
    registry: &TypeMappingRegistry,
) -> (r: Result<QueryPlan, ExpandError>)
    ensures
        plan_result_view(r) == expand_spec(
            *registry,
            with_source(input, contents),
            OutputTarget::Anonymous,
            *described,
        ),
{
    let loaded = QueryInput { source: contents, ..input };
    expand_query(&loaded, described, registry)
}

/// `expand_query_as` on SQL text read from a file.
pub fn expand_query_file_as(
    input: QueryInput,
    contents: String,
    path: String,
    fields: Vec<TargetField>,
    described: &Result<DescribeResult, DescribeError>,
    registry: &TypeMappingRegistry,
) -> (r: Result<QueryPlan, ExpandError>)
    ensures
        plan_result_view(r) == expand_spec(
            *registry,
            with_source(input, contents),
            OutputTarget::Named { path, fields },
            *described,
        ),
{
    let loaded = QueryInput { source: contents, ..input };
    expand_query_as(&loaded, path, fields, described, registry)
}

/// Where a diagnostic for `err` points: the offending argument for an
/// argument type mismatch, the whole query otherwise.
pub fn error_span(input: &QueryInput, err: &ExpandError) -> (r: SourceSpan)
    ensures
        r == match *err {
            ExpandError::ArgTypeMismatch { position, .. } => if position < input.arguments@.len() {
                input.arguments@[position as int].span
            } else {
                input.source_span
            },
            _ => input.source_span,
        },
{
    match err {
        ExpandError::ArgTypeMismatch { position, .. } => {
            if *position < input.arguments.len() {
                input.arguments[*position].span
            } else {
                input.source_span
            }
        },
        _ => input.source_span,
    }
}

} // verus!
