//! Errors of one expansion, their messages and where they point.
use vstd::prelude::*;
use vstd::string::*;

verus! {

/// Why an expansion was refused. Indices count attribute arguments or function
/// parameters from zero, in source order.
#[derive(Debug, Clone, PartialEq, Eq)]
pub enum ExpansionError {
    MissingStrategy,
    DuplicateStrategy { arg: usize },
    StrategyNotAStringLiteral { arg: usize },
    InvalidStrategyExpression { arg: usize, reason: String },
    UnknownArgument { arg: usize },
    ReceiverNotAllowed { param: usize },
    ParameterAttributesNotAllowed { param: usize },
}

/// The mathematical value of an [`ExpansionError`].
pub enum ErrorModel {
    MissingStrategy,
    DuplicateStrategy { arg: int },
    StrategyNotAStringLiteral { arg: int },
    InvalidStrategyExpression { arg: int, reason: Seq<char> },
    UnknownArgument { arg: int },
    ReceiverNotAllowed { param: int },
    ParameterAttributesNotAllowed { param: int },
}

impl View for ExpansionError {
    type V = ErrorModel;

    open spec fn view(&self) -> ErrorModel {
        match self {
            ExpansionError::MissingStrategy => ErrorModel::MissingStrategy,
            ExpansionError::DuplicateStrategy { arg } => ErrorModel::DuplicateStrategy {
                arg: *arg as int,
            },
            ExpansionError::StrategyNotAStringLiteral { arg } =>
                ErrorModel::StrategyNotAStringLiteral { arg: *arg as int },
            ExpansionError::InvalidStrategyExpression { arg, reason } =>
                ErrorModel::InvalidStrategyExpression { arg: *arg as int, reason: reason@ },
            ExpansionError::UnknownArgument { arg } => ErrorModel::UnknownArgument {
                arg: *arg as int,
            },
            ExpansionError::ReceiverNotAllowed { param } => ErrorModel::ReceiverNotAllowed {
                param: *param as int,
            },
            ExpansionError::ParameterAttributesNotAllowed { param } =>
                ErrorModel::ParameterAttributesNotAllowed { param: *param as int },
        }
    }
}

/// The source location a diagnostic is attached to.
#[derive(Debug, Clone, Copy, PartialEq, Eq)]
pub enum Anchor {
    /// The attribute invocation as a whole: no narrower location exists.
    CallSite,
    /// The whole attribute argument with this index.
    Argument(usize),
    /// The value to the right of `=` in the attribute argument with this index.
    ArgumentValue(usize),
    /// The parameter with this index.
    Parameter(usize),
    /// The first attribute carried by the parameter with this index.
    ParameterAttribute(usize),
}

pub open spec fn anchor_of(e: ExpansionError) -> Anchor {
    match e {
        ExpansionError::MissingStrategy => Anchor::CallSite,
        ExpansionError::DuplicateStrategy { arg } => Anchor::Argument(arg),
        ExpansionError::StrategyNotAStringLiteral { arg } => Anchor::ArgumentValue(arg),
        ExpansionError::InvalidStrategyExpression { arg, .. } => Anchor::ArgumentValue(arg),
        ExpansionError::UnknownArgument { arg } => Anchor::Argument(arg),
        ExpansionError::ReceiverNotAllowed { param } => Anchor::Parameter(param),
        ExpansionError::ParameterAttributesNotAllowed { param } => Anchor::ParameterAttribute(
            param,
        ),
    }
}

pub open spec fn message_of(e: ErrorModel) -> Seq<char> {
    match e {
        ErrorModel::MissingStrategy => "no strategy specified for this proptest"@,
        ErrorModel::DuplicateStrategy { .. } => "multiple strategies are not allowed"@,
        ErrorModel::StrategyNotAStringLiteral { .. } =>
            "invalid strategy: must be a string literal"@,
        ErrorModel::InvalidStrategyExpression { reason, .. } =>
            "strategy is not a valid Rust expression: "@ + reason,
        ErrorModel::UnknownArgument { .. } => "unknown argument"@,
        ErrorModel::ReceiverNotAllowed { .. } =>
            "receiver arguments are invalid in the testing context"@,
        ErrorModel::ParameterAttributesNotAllowed { .. } =>
            "proptest-attr does not allow to have attributes for function arguments"@,
    }
}

impl ExpansionError {
    /// The most specific location this error can be reported at.
    pub fn anchor(&self) -> (r: Anchor)
        ensures
            r == anchor_of(*self),
    {
        match self {
            ExpansionError::MissingStrategy => Anchor::CallSite,
            ExpansionError::DuplicateStrategy { arg } => Anchor::Argument(*arg),
            ExpansionError::StrategyNotAStringLiteral { arg } => Anchor::ArgumentValue(*arg),
            ExpansionError::InvalidStrategyExpression { arg, .. } => Anchor::ArgumentValue(*arg),
            ExpansionError::UnknownArgument { arg } => Anchor::Argument(*arg),
            ExpansionError::ReceiverNotAllowed { param } => Anchor::Parameter(*param),
            ExpansionError::ParameterAttributesNotAllowed { param } => Anchor::ParameterAttribute(
                *param,
            ),
        }
    }

    /// The text of the compile-time diagnostic.
    pub fn message(&self) -> (r: String)
        ensures
            r@ == message_of(self@),
    {
        match self {
            ExpansionError::MissingStrategy => String::from_str(
                "no strategy specified for this proptest",
            ),
            ExpansionError::DuplicateStrategy { .. } => String::from_str(
                "multiple strategies are not allowed",
            ),
            ExpansionError::StrategyNotAStringLiteral { .. } => String::from_str(
                "invalid strategy: must be a string literal",
            ),
            ExpansionError::InvalidStrategyExpression { reason, .. } => {
                let mut text = String::from_str("strategy is not a valid Rust expression: ");
                text.append(reason.as_str());
                text
            },
            ExpansionError::UnknownArgument { .. } => String::from_str("unknown argument"),
            ExpansionError::ReceiverNotAllowed { .. } => String::from_str(
                "receiver arguments are invalid in the testing context",
            ),
            ExpansionError::ParameterAttributesNotAllowed { .. } => String::from_str(
                "proptest-attr does not allow to have attributes for function arguments",
            ),
        }
    }
}

} // verus!
