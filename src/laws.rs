//! Properties of the whole expansion, stated over its mathematical model.
use crate::arguments::{first_arg_outcome, names_strategy, strategy_key, strategy_of, AttrArg};
use crate::diagnostic::ErrorModel;
use crate::expansion::expansion_of;
use crate::signature::{
    binding_model, binding_of, lemma_first_refused_none, param_accepted, pat_of, ty_of, BindingModel,
    Param,
};
use vstd::prelude::*;

verus! {

proof fn lemma_all_accepted_binds(ps: Seq<Param>)
    requires
        forall|j: int| 0 <= j < ps.len() ==> param_accepted(#[trigger] ps[j]),
    ensures
        binding_of(ps) == Ok::<BindingModel, ErrorModel>(binding_model(ps)),
{
    lemma_first_refused_none(ps, 0);
}

/// A lone `strategy = "..."` argument whose text parses as an expression is
/// accepted, and the strategy is exactly that text.
pub proof fn lemma_single_strategy_accepted(key: String, value: String)
    requires
        key@ == strategy_key(),
    ensures
        strategy_of(seq![AttrArg::KeyValueStr { key, value }], None) == Ok::<
            Seq<char>,
            ErrorModel,
        >(value@),
{
}

/// A function without parameters expands under any valid strategy, and the
/// callback binds nothing.
pub proof fn lemma_no_params_binds_nothing(args: Seq<AttrArg>, parse: Option<Seq<char>>, params: Seq<Param>)
    requires
        strategy_of(args, parse) is Ok,
        params.len() == 0,
    ensures
        expansion_of(args, parse, params) == Ok::<(Seq<char>, BindingModel), ErrorModel>(
            (strategy_of(args, parse)->Ok_0, BindingModel::Empty),
        ),
{
    lemma_all_accepted_binds(params);
}

/// A function with one plain parameter `p: T` gets the callback binding
/// `p: T`, with no tuple around it.
pub proof fn lemma_one_param_binds_directly(args: Seq<AttrArg>, parse: Option<Seq<char>>, params: Seq<Param>)
    requires
        strategy_of(args, parse) is Ok,
        params.len() == 1,
        param_accepted(params[0]),
    ensures
        expansion_of(args, parse, params) == Ok::<(Seq<char>, BindingModel), ErrorModel>(
            (
                strategy_of(args, parse)->Ok_0,
                BindingModel::Single { pat: pat_of(params[0]), ty: ty_of(params[0]) },
            ),
        ),
{
    lemma_all_accepted_binds(params);
}

/// A function with two or more plain parameters gets a tuple pattern of all
/// patterns typed by the tuple of all types, both in declaration order.
pub proof fn lemma_many_params_bind_tuple(args: Seq<AttrArg>, parse: Option<Seq<char>>, params: Seq<Param>)
    requires
        strategy_of(args, parse) is Ok,
        params.len() >= 2,
        forall|j: int| 0 <= j < params.len() ==> param_accepted(#[trigger] params[j]),
    ensures
        expansion_of(args, parse, params) matches Ok((s, BindingModel::Tuple { pats, tys })) && {
            &&& s == strategy_of(args, parse)->Ok_0
            &&& pats.len() == params.len()
            &&& tys.len() == params.len()
            &&& forall|k: int|
                0 <= k < params.len() ==> #[trigger] pats[k] == pat_of(params[k]) && tys[k]
                    == ty_of(params[k])
        },
{
    lemma_all_accepted_binds(params);
}

/// Reordering the parameters reorders the tuple binding in the same way.
pub proof fn lemma_binding_follows_param_order(ps: Seq<Param>, qs: Seq<Param>, perm: Seq<int>)
    requires
        ps.len() >= 2,
        qs.len() == ps.len(),
        perm.len() == ps.len(),
        forall|j: int| 0 <= j < ps.len() ==> param_accepted(#[trigger] ps[j]),
        forall|k: int| 0 <= k < qs.len() ==> 0 <= #[trigger] perm[k] < ps.len(),
        forall|k: int| 0 <= k < qs.len() ==> #[trigger] qs[k] == ps[perm[k]],
    ensures
        binding_of(ps) matches Ok(BindingModel::Tuple { pats: pp, tys: tp }) && binding_of(
            qs,
        ) matches Ok(BindingModel::Tuple { pats: pq, tys: tq }) && forall|k: int|
            0 <= k < qs.len() ==> #[trigger] pq[k] == pp[perm[k]] && tq[k] == tp[perm[k]],
{
    assert forall|j: int| 0 <= j < qs.len() implies param_accepted(#[trigger] qs[j]) by {
        assert(qs[j] == ps[perm[j]]);
    }
    lemma_all_accepted_binds(ps);
    lemma_all_accepted_binds(qs);
}

/// A first argument `strategy = "..."` whose text does not parse is always
/// reported as an invalid expression at that argument, with the parser's
/// message, whatever arguments follow it and in whatever order, and whatever
/// the function's parameters.
pub proof fn lemma_invalid_strategy_text_rejected(
    args1: Seq<AttrArg>,
    args2: Seq<AttrArg>,
    message: Seq<char>,
    params1: Seq<Param>,
    params2: Seq<Param>,
)
    requires
        args1.len() > 0,
        args2.len() > 0,
        args1[0] == args2[0],
        args1[0] matches AttrArg::KeyValueStr { key, .. } && key@ == strategy_key(),
    ensures
        expansion_of(args1, Some(message), params1) == Err::<
            (Seq<char>, BindingModel),
            ErrorModel,
        >(ErrorModel::InvalidStrategyExpression { arg: 0, reason: message }),
        expansion_of(args1, Some(message), params1) == expansion_of(
            args2,
            Some(message),
            params2,
        ),
{
}

/// Without any `strategy` argument the expansion always fails: with
/// `MissingStrategy` exactly when there are no arguments at all, else at the
/// first argument, which is unknown.
pub proof fn lemma_no_strategy_fails(
    args: Seq<AttrArg>,
    parse: Option<Seq<char>>,
    params: Seq<Param>,
)
    requires
        forall|i: int| 0 <= i < args.len() ==> !names_strategy(#[trigger] args[i]),
    ensures
        expansion_of(args, parse, params) is Err,
        args.len() == 0 ==> expansion_of(args, parse, params) == Err::<
            (Seq<char>, BindingModel),
            ErrorModel,
        >(ErrorModel::MissingStrategy),
        args.len() > 0 ==> expansion_of(args, parse, params) == Err::<
            (Seq<char>, BindingModel),
            ErrorModel,
        >(ErrorModel::UnknownArgument { arg: 0 }),
{
    if args.len() > 0 {
        assert(!names_strategy(args[0]));
    }
}

/// With two `strategy` arguments of which the first is valid, the expansion
/// fails with `DuplicateStrategy` at the second.
pub proof fn lemma_second_strategy_is_duplicate(
    args: Seq<AttrArg>,
    parse: Option<Seq<char>>,
    params: Seq<Param>,
)
    requires
        args.len() == 2,
        first_arg_outcome(args[0], parse) is Ok,
        names_strategy(args[1]),
    ensures
        expansion_of(args, parse, params) == Err::<(Seq<char>, BindingModel), ErrorModel>(
            ErrorModel::DuplicateStrategy { arg: 1 },
        ),
{
}

} // verus!
