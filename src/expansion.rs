//! One whole expansion: validated strategy, callback binding, and the emitted
//! zero-argument test function.
use crate::arguments::{outcome_view, parse_arguments, strategy_of, AttrArg};
use crate::diagnostic::{ErrorModel, ExpansionError};
use crate::signature::{rewrite_params, binding_of, texts, Binding, BindingModel, Param};
use vstd::prelude::*;
use vstd::string::*;

verus! {

/// The annotated function, as source text split into the parts the
/// transformation reads.
#[derive(Debug, Clone, PartialEq, Eq)]
pub struct FnItem {
    /// Each outer attribute, e.g. `#[test]`.
    pub attrs: Vec<String>,
    /// The visibility, possibly empty.
    pub vis: String,
    /// Everything before the parameter list: qualifiers, `fn`, name, generic parameters.
    pub head: String,
    /// The `where` clause, possibly empty.
    pub where_clause: String,
    pub params: Vec<Param>,
    /// The declared return type, without the arrow.
    pub ret: Option<String>,
    /// Each statement of the body.
    pub stmts: Vec<String>,
}

/// The rewritten function: the parts of the original signature that stay, the
/// strategy expression, and the callback binding.
#[derive(Debug, Clone, PartialEq, Eq)]
pub struct Expansion {
    pub attrs: Vec<String>,
    pub vis: String,
    pub head: String,
    pub where_clause: String,
    pub strategy: String,
    pub binding: Binding,
    pub ret: Option<String>,
    pub stmts: Vec<String>,
}

/// What an expansion decides: the strategy text and the callback binding, or
/// the first error, given what parsing the first argument's text reported.
/// Arguments are judged before parameters.
pub open spec fn expansion_of(
    args: Seq<AttrArg>,
    parse: Option<Seq<char>>,
    params: Seq<Param>,
) -> Result<(Seq<char>, BindingModel), ErrorModel> {
    match strategy_of(args, parse) {
        Err(e) => Err(e),
        Ok(s) => match binding_of(params) {
            Err(e) => Err(e),
            Ok(b) => Ok((s, b)),
        },
    }
}

/// What assembling `item` around `strategy` yields: the callback binding, or
/// the error of the first refused parameter.
pub open spec fn assembled(strategy: Seq<char>, params: Seq<Param>) -> Result<
    (Seq<char>, BindingModel),
    ErrorModel,
> {
    match binding_of(params) {
        Err(e) => Err(e),
        Ok(b) => Ok((strategy, b)),
    }
}

/// Whether `r` is the expansion `model` of `item`: the decided parts as the
/// model says, every other part of the function passed through.
pub open spec fn realizes(
    r: Result<Expansion, ExpansionError>,
    item: FnItem,
    model: Result<(Seq<char>, BindingModel), ErrorModel>,
) -> bool {
    match r {
        Ok(x) => {
            &&& model == Ok::<(Seq<char>, BindingModel), ErrorModel>((x.strategy@, x.binding@))
            &&& x.attrs == item.attrs
            &&& x.vis == item.vis
            &&& x.head == item.head
            &&& x.where_clause == item.where_clause
            &&& x.ret == item.ret
            &&& x.stmts == item.stmts
        },
        Err(e) => model == Err::<(Seq<char>, BindingModel), ErrorModel>(e@),
    }
}

/// Rewrites `item` around an already accepted strategy expression.
pub fn assemble(strategy: String, item: FnItem) -> (r: Result<Expansion, ExpansionError>)
    ensures
        realizes(r, item, assembled(strategy@, item.params@)),
{
    let binding = match rewrite_params(&item.params) {
        Ok(b) => b,
        Err(e) => {
            return Err(e);
        },
    };
    Ok(
        Expansion {
            attrs: item.attrs,
            vis: item.vis,
            head: item.head,
            where_clause: item.where_clause,
            strategy,
            binding,
            ret: item.ret,
            stmts: item.stmts,
        },
    )
}

/// Rewrites `item` under the attribute arguments `args`: the outcome is the
/// model's for some outcome of parsing the strategy text.
pub fn expand(args: &Vec<AttrArg>, item: FnItem) -> (r: Result<Expansion, ExpansionError>)
    ensures
        exists|p: Option<Seq<char>>| realizes(r, item, #[trigger] expansion_of(args@, p, item.params@)),
{
    let strategy = match parse_arguments(args) {
        Ok(s) => s,
        Err(e) => {
            let ghost p = choose|p: Option<Seq<char>>| outcome_view(Err(e)) == #[trigger] strategy_of(args@, p);
            assert(realizes(Err(e), item, expansion_of(args@, p, item.params@)));
            return Err(e);
        },
    };
    let ghost p = choose|p: Option<Seq<char>>| outcome_view(Ok(strategy)) == #[trigger] strategy_of(args@, p);
    let r = assemble(strategy, item);
    assert(realizes(r, item, expansion_of(args@, p, item.params@)));
    r
}

/// The parts, with `sep` between each two neighbours.
pub open spec fn join(parts: Seq<Seq<char>>, sep: Seq<char>) -> Seq<char>
    decreases parts.len(),
{
    if parts.len() == 0 {
        Seq::empty()
    } else if parts.len() == 1 {
        parts[0]
    } else {
        join(parts.drop_last(), sep) + sep + parts.last()
    }
}

/// The callback's parameter list, between the two bars of the closure.
pub open spec fn binding_text(b: BindingModel) -> Seq<char> {
    match b {
        BindingModel::Empty => Seq::empty(),
        BindingModel::Single { pat, ty } => pat + ": "@ + ty,
        BindingModel::Tuple { pats, tys } => "("@ + join(pats, ", "@) + "): ("@ + join(tys, ", "@)
            + ")"@,
    }
}

/// The callback's declared return type, with its arrow, or nothing.
pub open spec fn ret_text(ret: Option<String>) -> Seq<char> {
    match ret {
        None => Seq::empty(),
        Some(t) => "-> "@ + t@ + " "@,
    }
}

/// The source text of the emitted function.
pub open spec fn rendered(x: Expansion) -> Seq<char> {
    join(texts(x.attrs@), "\n"@) + "\n"@ + x.vis@ + " "@ + x.head@ + "() "@ + x.where_clause@
        + " {\n    let strategy =\n"@ + x.strategy@
        + "\n;\n    let runner_settings = ::core::default::Default::default();\n"@
        + "    let mut runner = ::proptest::test_runner::TestRunner::new(runner_settings);\n"@
        + "    let result = runner.run(&strategy, |"@ + binding_text(x.binding@) + "| "@
        + ret_text(x.ret) + "{\n"@ + join(texts(x.stmts@), "\n"@)
        + "\n    });\n    result.unwrap();\n}\n"@
}

fn join_texts(parts: &Vec<String>, sep: &str) -> (r: String)
    ensures
        r@ == join(texts(parts@), sep@),
{
    let mut out = String::new();
    let mut i: usize = 0;
    while i < parts.len()
        invariant
            i <= parts.len(),
            out@ == join(texts(parts@.take(i as int)), sep@),
        decreases parts.len() - i,
    {
        let ghost before = texts(parts@.take(i as int));
        let ghost after = texts(parts@.take(i as int + 1));
        assert(after.drop_last() =~= before);
        assert(i == 0 ==> before.len() == 0);
        if i > 0 {
            out.append(sep);
        }
        out.append(parts[i].as_str());
        i = i + 1;
    }
    assert(parts@.take(i as int) =~= parts@);
    out
}

fn render_binding(b: &Binding) -> (r: String)
    ensures
        r@ == binding_text(b@),
{
    match b {
        Binding::Empty => String::new(),
        Binding::Single { pat, ty } => {
            let mut out = pat.clone();
            out.append(": ");
            out.append(ty.as_str());
            out
        },
        Binding::Tuple { pats, tys } => {
            let mut out = String::from_str("(");
            let p = join_texts(pats, ", ");
            out.append(p.as_str());
            out.append("): (");
            let t = join_texts(tys, ", ");
            out.append(t.as_str());
            out.append(")");
            out
        },
    }
}

impl Expansion {
    /// The emitted function as Rust source text: the original attributes,
    /// visibility and signature head with no parameters and no return type, and
    /// a body that hands the strategy and a callback running the original
    /// statements to a default-configured test runner, then unwraps the result.
    pub fn render(&self) -> (r: String)
        ensures
            r@ == rendered(*self),
    {
        let mut out = join_texts(&self.attrs, "\n");
        out.append("\n");
        out.append(self.vis.as_str());
        out.append(" ");
        out.append(self.head.as_str());
        out.append("() ");
        out.append(self.where_clause.as_str());
        out.append(" {\n    let strategy =\n");
        out.append(self.strategy.as_str());
        out.append("\n;\n    let runner_settings = ::core::default::Default::default();\n");
        out.append("    let mut runner = ::proptest::test_runner::TestRunner::new(runner_settings);\n");
        out.append("    let result = runner.run(&strategy, |");
        let b = render_binding(&self.binding);
        out.append(b.as_str());
        out.append("| ");
        match &self.ret {
            None => {},
            Some(t) => {
                out.append("-> ");
                out.append(t.as_str());
                out.append(" ");
            },
        }
        out.append("{\n");
        let body = join_texts(&self.stmts, "\n");
        out.append(body.as_str());
        out.append("\n    });\n    result.unwrap();\n}\n");
        out
    }
}

} // verus!
