//! The attribute's argument list, reduced to one validated strategy expression.
use crate::diagnostic::{ErrorModel, ExpansionError};
use vstd::prelude::*;
use vstd::string::*;

verus! {

/// One argument of the attribute, classified by its shape.
#[derive(Debug, Clone, PartialEq, Eq)]
pub enum AttrArg {
    /// `key = "text"`; `value` is the literal's content, escapes resolved.
    KeyValueStr { key: String, value: String },
    /// `key = value`, where `value` is a literal other than a string.
    KeyValueOther { key: String },
    /// A bare path such as `asdf`.
    Bare { name: String },
    /// Any other shape: a nested list, a lone literal.
    Unrecognized,
}

/// The one key that the attribute accepts.
pub open spec fn strategy_key() -> Seq<char> {
    "strategy"@
}

/// Whether the argument has the form `strategy = ...`, whatever its value.
pub open spec fn names_strategy(a: AttrArg) -> bool {
    match a {
        AttrArg::KeyValueStr { key, .. } => key@ == strategy_key(),
        AttrArg::KeyValueOther { key } => key@ == strategy_key(),
        _ => false,
    }
}

/// Relies on `syn::parse_str::<syn::Expr>`: `None` when the text parses as one
/// Rust expression, else the error's `Display` text. Every literal token the
/// lexer yields becomes a `syn::Lit`, with `Lit::Verbatim` for forms syn does not
/// know, so no text makes the call panic. Which lexer reads the text depends on
/// whether the call runs inside a procedural macro, so nothing is stated of the
/// outcome.
#[verifier::external_body]
fn expr_parse_error(text: &String) -> (r: Option<String>) {
    match syn::parse_str::<syn::Expr>(text) {
        Ok(_) => None,
        Err(e) => Some(e.to_string()),
    }
}

/// The mathematical value of a parse outcome: `None` when the text parsed.
pub open spec fn parse_view(p: Option<String>) -> Option<Seq<char>> {
    match p {
        None => None,
        Some(m) => Some(m@),
    }
}

/// The mathematical value of what the argument parser returns.
pub open spec fn outcome_view(r: Result<String, ExpansionError>) -> Result<Seq<char>, ErrorModel> {
    match r {
        Ok(s) => Ok(s@),
        Err(e) => Err(e@),
    }
}

/// Whether the argument is `strategy = "..."`, the one form whose text is parsed.
pub open spec fn is_strategy_string(a: AttrArg) -> bool {
    a matches AttrArg::KeyValueStr { key, .. } && key@ == strategy_key()
}

/// The content of a string-valued argument.
pub open spec fn string_value(a: AttrArg) -> Seq<char> {
    match a {
        AttrArg::KeyValueStr { value, .. } => value@,
        _ => Seq::empty(),
    }
}

/// How one argument is judged when no strategy has been accepted before it;
/// `parse` is what parsing its text as an expression reported.
pub open spec fn first_arg_outcome(a: AttrArg, parse: Option<Seq<char>>) -> Result<
    Seq<char>,
    ErrorModel,
> {
    match a {
        AttrArg::KeyValueStr { key, value } => if key@ == strategy_key() {
            match parse {
                None => Ok(value@),
                Some(m) => Err(ErrorModel::InvalidStrategyExpression { arg: 0, reason: m }),
            }
        } else {
            Err(ErrorModel::UnknownArgument { arg: 0 })
        },
        AttrArg::KeyValueOther { key } => if key@ == strategy_key() {
            Err(ErrorModel::StrategyNotAStringLiteral { arg: 0 })
        } else {
            Err(ErrorModel::UnknownArgument { arg: 0 })
        },
        _ => Err(ErrorModel::UnknownArgument { arg: 0 }),
    }
}

/// The strategy expression that the argument list yields, or the first error,
/// given what parsing the first argument's text reported.
///
/// Every argument that does not name `strategy` is unknown, so a valid list
/// holds exactly one argument; the one after an accepted strategy is either a
/// duplicate or unknown.
pub open spec fn strategy_of(args: Seq<AttrArg>, parse: Option<Seq<char>>) -> Result<
    Seq<char>,
    ErrorModel,
> {
    if args.len() == 0 {
        Err(ErrorModel::MissingStrategy)
    } else {
        match first_arg_outcome(args[0], parse) {
            Err(e) => Err(e),
            Ok(s) => if args.len() == 1 {
                Ok(s)
            } else if names_strategy(args[1]) {
                Err(ErrorModel::DuplicateStrategy { arg: 1 })
            } else {
                Err(ErrorModel::UnknownArgument { arg: 1 })
            },
        }
    }
}

fn is_strategy_key(key: &String) -> (r: bool)
    ensures
        r == (key@ == strategy_key()),
{
    let expected = String::from_str("strategy");
    *key == expected
}

/// Classifies every argument in source order and returns the text of the one
/// accepted strategy expression, or the first violation. `first_parse` is what
/// parsing the first argument's text as an expression reported; it is read
/// only where that argument is `strategy = "..."`.
pub fn judge_arguments(args: &Vec<AttrArg>, first_parse: Option<String>) -> (r: Result<
    String,
    ExpansionError,
>)
    ensures
        outcome_view(r) == strategy_of(args@, parse_view(first_parse)),
{
    let mut accepted: Option<String> = None;
    let mut i: usize = 0;
    while i < args.len()
        invariant
            i <= 1,
            i <= args.len(),
            i == 0 ==> accepted is None,
            i == 1 ==> accepted is Some && first_arg_outcome(args@[0], parse_view(first_parse))
                == Ok::<Seq<char>, ErrorModel>(accepted->Some_0@),
        decreases args.len() - i,
    {
        let arg = &args[i];
        match arg {
            AttrArg::KeyValueStr { key, value } => {
                if !is_strategy_key(key) {
                    return Err(ExpansionError::UnknownArgument { arg: i });
                }
                if accepted.is_some() {
                    return Err(ExpansionError::DuplicateStrategy { arg: i });
                }
                match &first_parse {
                    None => {
                        accepted = Some(value.clone());
                    },
                    Some(reason) => {
                        return Err(
                            ExpansionError::InvalidStrategyExpression {
                                arg: i,
                                reason: reason.clone(),
                            },
                        );
                    },
                }
            },
            AttrArg::KeyValueOther { key } => {
                if !is_strategy_key(key) {
                    return Err(ExpansionError::UnknownArgument { arg: i });
                }
                if accepted.is_some() {
                    return Err(ExpansionError::DuplicateStrategy { arg: i });
                }
                return Err(ExpansionError::StrategyNotAStringLiteral { arg: i });
            },
            _ => {
                return Err(ExpansionError::UnknownArgument { arg: i });
            },
        }
        i = i + 1;
    }
    match accepted {
        Some(s) => Ok(s),
        None => Err(ExpansionError::MissingStrategy),
    }
}

/// Parses the first argument's text when it is `strategy = "..."`, then judges
/// the whole list. The result is what [`judge_arguments`] gives for some parse
/// outcome; in particular an accepted strategy is the text of the only argument.
pub fn parse_arguments(args: &Vec<AttrArg>) -> (r: Result<String, ExpansionError>)
    ensures
        exists|p: Option<Seq<char>>| outcome_view(r) == #[trigger] strategy_of(args@, p),
        match r {
            Ok(s) => args@.len() == 1 && is_strategy_string(args@[0]) && string_value(args@[0])
                == s@,
            Err(ExpansionError::InvalidStrategyExpression { arg, .. }) => arg == 0
                && is_strategy_string(args@[0]),
            _ => true,
        },
{
    let first_parse = if args.len() == 0 {
        None
    } else {
        match &args[0] {
            AttrArg::KeyValueStr { key, value } => if is_strategy_key(key) {
                expr_parse_error(value)
            } else {
                None
            },
            _ => None,
        }
    };
    let r = judge_arguments(args, first_parse);
    assert(outcome_view(r) == strategy_of(args@, parse_view(first_parse)));
    r
}

} // verus!
