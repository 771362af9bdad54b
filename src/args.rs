use vstd::prelude::*;
use crate::error::{ExpandError, ExpandErrorModel};
use crate::registry::{compatible_spec, TypeMappingRegistry};
use crate::search::{first_failing, lemma_first_failing_stable};
use crate::types::{Argument, HostKind, TypeId};

verus! {

/// Attach the argument `expr`, of host type `host`, as parameter `position`.
#[derive(Clone, Debug)]
pub struct Binding {
    pub position: usize,
    pub expr: String,
    pub host: HostKind,
}

pub struct BindingModel {
    pub position: nat,
    pub expr: Seq<char>,
    pub host: HostKind,
}

impl View for Binding {
    type V = BindingModel;

    open spec fn view(&self) -> BindingModel {
        BindingModel { position: self.position as nat, expr: self.expr@, host: self.host }
    }
}

pub open spec fn bindings_view(v: Seq<Binding>) -> Seq<BindingModel> {
    v.map_values(|b: Binding| b@)
}

pub open spec fn arg_fits(reg: TypeMappingRegistry, params: Seq<TypeId>, args: Seq<Argument>) -> spec_fn(
    int,
) -> bool {
    |i: int| compatible_spec(reg, params[i], args[i].host)
}

/// The first argument whose host type its parameter does not accept.
pub open spec fn first_arg_mismatch(
    reg: TypeMappingRegistry,
    params: Seq<TypeId>,
    args: Seq<Argument>,
) -> Option<nat> {
    first_failing(arg_fits(reg, params, args), args.len())
}

/// The binding plan: argument `i` becomes parameter `i`, once the count
/// and every argument's type have been checked against the parameters.
pub open spec fn bind_spec(reg: TypeMappingRegistry, params: Seq<TypeId>, args: Seq<Argument>) -> Result<
    Seq<BindingModel>,
    ExpandErrorModel,
> {
    if args.len() != params.len() {
        Err(ExpandErrorModel::ArityMismatch { parameters: params.len(), arguments: args.len() })
    } else {
        match first_arg_mismatch(reg, params, args) {
            Some(p) => Err(
                ExpandErrorModel::ArgTypeMismatch {
                    position: p,
                    expected: params[p as int],
                    declared: args[p as int].host,
                },
            ),
            None => Ok(
                Seq::new(
                    args.len(),
                    |i: int| BindingModel { position: i as nat, expr: args[i].expr@, host: args[i].host },
                ),
            ),
        }
    }
}

pub open spec fn bind_result_view(r: Result<Vec<Binding>, ExpandError>) -> Result<
    Seq<BindingModel>,
    ExpandErrorModel,
> {
    match r {
        Ok(v) => Ok(bindings_view(v@)),
        Err(e) => Err(e@),
    }
}

/// Pairs arguments with parameters by position and checks each pair.
pub fn bind_arguments(
    arguments: &Vec<Argument>,
    parameter_types: &Vec<TypeId>,
    registry: &TypeMappingRegistry,
) -> (r: Result<Vec<Binding>, ExpandError>)
    ensures
        bind_result_view(r) == bind_spec(*registry, parameter_types@, arguments@),
{
    if arguments.len() != parameter_types.len() {
        return Err(
            ExpandError::ArityMismatch {
                parameters: parameter_types.len(),
                arguments: arguments.len(),
            },
        );
    }
    let mut out: Vec<Binding> = Vec::new();
    let mut i: usize = 0;
    while i < arguments.len()
        invariant
            i <= arguments@.len(),
            arguments@.len() == parameter_types@.len(),
            first_failing(arg_fits(*registry, parameter_types@, arguments@), i as nat) is None,
            bindings_view(out@) =~= Seq::new(
                i as nat,
                |k: int|
                    BindingModel {
                        position: k as nat,
                        expr: arguments@[k].expr@,
                        host: arguments@[k].host,
                    },
            ),
        decreases arguments@.len() - i,
    {
        let arg = &arguments[i];
        let expected = parameter_types[i];
        assert(arg_fits(*registry, parameter_types@, arguments@)(i as int) == compatible_spec(
            *registry,
            expected,
            arg.host,
        ));
        if !registry.is_param_compatible(expected, arg.host) {
            proof {
                lemma_first_failing_stable(
                    arg_fits(*registry, parameter_types@, arguments@),
                    (i + 1) as nat,
                    arguments@.len(),
                );
            }
            return Err(ExpandError::ArgTypeMismatch { position: i, expected, declared: arg.host });
        }
        let b = Binding { position: i, expr: arg.expr.clone(), host: arg.host };
        proof {
            let ghost old_out = out@;
            assert(bindings_view(old_out.push(b)) =~= bindings_view(old_out).push(b@));
        }
        out.push(b);
        i = i + 1;
    }
    Ok(out)
}

} // verus!
