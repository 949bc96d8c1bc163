use proptest_attr::arguments::{judge_arguments, parse_arguments, AttrArg};
use proptest_attr::diagnostic::{Anchor, ExpansionError};
use proptest_attr::expansion::{expand, Expansion, FnItem};
use proptest_attr::signature::{rewrite_params, Binding, Param};

fn s(text: &str) -> String {
    text.to_string()
}

fn strategy(value: &str) -> AttrArg {
    AttrArg::KeyValueStr { key: s("strategy"), value: s(value) }
}

fn typed(pat: &str, ty: &str) -> Param {
    Param::Typed { attrs: vec![], pat: s(pat), ty: s(ty) }
}

fn item(attrs: Vec<&str>, params: Vec<Param>) -> FnItem {
    FnItem {
        attrs: attrs.into_iter().map(s).collect(),
        vis: s(""),
        head: s("fn basic_test"),
        where_clause: s(""),
        params,
        ret: Some(s("Result<(), TestCaseError>")),
        stmts: vec![s("Ok(())")],
    }
}

fn expand_one(args: Vec<AttrArg>, params: Vec<Param>) -> Result<Expansion, ExpansionError> {
    expand(&args, item(vec![], params))
}

#[test]
fn basic_test() {
    let args = vec![strategy("0..10u8")];
    let out = expand(&args, item(vec!["#[test]"], vec![typed("_value", "u8")])).unwrap();
    assert_eq!(out.strategy, "0..10u8");
    assert_eq!(out.binding, Binding::Single { pat: s("_value"), ty: s("u8") });
    assert_eq!(
        out.render(),
        "#[test]\n fn basic_test()  {\n    let strategy =\n0..10u8\n;\n    \
         let runner_settings = ::core::default::Default::default();\n    \
         let mut runner = ::proptest::test_runner::TestRunner::new(runner_settings);\n    \
         let result = runner.run(&strategy, |_value: u8| -> Result<(), TestCaseError> {\n\
         Ok(())\n    });\n    result.unwrap();\n}\n"
    );
}

#[test]
fn compile_tests() {
    // valid example
    assert!(expand_one(vec![strategy("0..=10u8")], vec![typed("value", "u8")]).is_ok());
    // valid example, several values given as one tuple parameter
    let out = expand_one(vec![strategy("(0..10u8, 10..100u32)")], vec![typed("(a, b)", "(u8, u32)")])
        .unwrap();
    assert_eq!(out.binding, Binding::Single { pat: s("(a, b)"), ty: s("(u8, u32)") });
    // no strategy
    assert_eq!(expand_one(vec![], vec![typed("_value", "u8")]), Err(ExpansionError::MissingStrategy));
    // multiple strategies
    assert_eq!(
        expand_one(vec![strategy("0..10u8"), strategy("5..10u8")], vec![typed("_value", "u8")]),
        Err(ExpansionError::DuplicateStrategy { arg: 1 })
    );
    // unknown argument
    assert_eq!(
        expand_one(
            vec![AttrArg::KeyValueStr { key: s("helloworld"), value: s("abc") }],
            vec![typed("_value", "u8")]
        ),
        Err(ExpansionError::UnknownArgument { arg: 0 })
    );
    assert_eq!(
        expand_one(vec![AttrArg::Bare { name: s("asdf") }], vec![typed("_value", "u8")]),
        Err(ExpansionError::UnknownArgument { arg: 0 })
    );
    // invalid strategy string
    let bad = expand_one(vec![strategy("123\\sdfq;;@")], vec![typed("_value", "u8")]);
    assert!(matches!(bad, Err(ExpansionError::InvalidStrategyExpression { arg: 0, .. })));
    // strategy given as a number
    assert_eq!(
        expand_one(
            vec![AttrArg::KeyValueOther { key: s("strategy") }],
            vec![typed("_value", "u8")]
        ),
        Err(ExpansionError::StrategyNotAStringLiteral { arg: 0 })
    );
    // an undefined function parses: the compiler reports it later
    assert!(expand_one(vec![strategy("hello_world()")], vec![typed("_value", "u8")]).is_ok());
    // a mutable binding
    let out = expand_one(
        vec![strategy("(0..10u8, 10..100u32)")],
        vec![typed("a", "u8"), typed("mut _b", "u32")],
    )
    .unwrap();
    assert_eq!(
        out.binding,
        Binding::Tuple { pats: vec![s("a"), s("mut _b")], tys: vec![s("u8"), s("u32")] }
    );
}

#[test]
fn single_parameter_runs_strategy_through_runner() {
    let out = expand_one(vec![strategy("0..=10u8")], vec![typed("value", "u8")]).unwrap();
    let text = out.render();
    assert!(text.contains("let strategy =\n0..=10u8\n;"));
    assert!(text.contains("runner.run(&strategy, |value: u8| -> Result<(), TestCaseError> {\nOk(())\n    });"));
    assert!(text.contains(" fn basic_test() "));
}

#[test]
fn two_parameters_bind_a_tuple() {
    let out = expand_one(vec![strategy("(0..10u8, 10..100u32)")], vec![typed("a", "u8"), typed("b", "u32")])
        .unwrap();
    assert!(out.render().contains("|(a, b): (u8, u32)|"));
}

#[test]
fn reordered_parameters_reorder_the_tuple() {
    let params = vec![typed("c", "i64"), typed("a", "u8"), typed("b", "u32")];
    let out = expand_one(vec![strategy("(0..1i64, 0..10u8, 10..100u32)")], params).unwrap();
    assert!(out.render().contains("|(c, a, b): (i64, u8, u32)|"));
}

#[test]
fn no_parameters_bind_nothing() {
    let out = expand_one(vec![strategy("Just(())")], vec![]).unwrap();
    assert_eq!(out.binding, Binding::Empty);
    assert!(out.render().contains("|| -> "));
}

#[test]
fn no_arguments_reads_missing_strategy() {
    let err = expand_one(vec![], vec![]).unwrap_err();
    assert_eq!(err.message(), "no strategy specified for this proptest");
    assert_eq!(err.anchor(), Anchor::CallSite);
}

#[test]
fn no_strategy_with_other_arguments_is_unknown() {
    let err = expand_one(vec![AttrArg::Unrecognized, AttrArg::Bare { name: s("x") }], vec![]).unwrap_err();
    assert_eq!(err, ExpansionError::UnknownArgument { arg: 0 });
    assert_eq!(err.message(), "unknown argument");
    assert_eq!(err.anchor(), Anchor::Argument(0));
}

#[test]
fn duplicate_points_at_second_occurrence() {
    let args = vec![strategy("0..10u8"), AttrArg::KeyValueOther { key: s("strategy") }];
    let err = parse_arguments(&args).unwrap_err();
    assert_eq!(err, ExpansionError::DuplicateStrategy { arg: 1 });
    assert_eq!(err.anchor(), Anchor::Argument(1));
    assert_eq!(err.message(), "multiple strategies are not allowed");
}

#[test]
fn unknown_key_after_strategy_is_unknown() {
    let args = vec![strategy("0..10u8"), AttrArg::KeyValueStr { key: s("cases"), value: s("5") }];
    assert_eq!(parse_arguments(&args), Err(ExpansionError::UnknownArgument { arg: 1 }));
}

#[test]
fn invalid_expression_carries_parser_message() {
    for args in [
        vec![strategy("123\\sdfq;;@")],
        vec![strategy("123\\sdfq;;@"), AttrArg::Unrecognized],
        vec![strategy("123\\sdfq;;@"), strategy("0..1u8")],
    ] {
        match parse_arguments(&args) {
            Err(e @ ExpansionError::InvalidStrategyExpression { arg: 0, .. }) => {
                let ExpansionError::InvalidStrategyExpression { reason, .. } = &e else { unreachable!() };
                assert!(!reason.is_empty());
                assert_ne!(reason, "123\\sdfq;;@");
                assert_eq!(
                    e.message(),
                    format!("strategy is not a valid Rust expression: {}", reason)
                );
                assert_eq!(e.anchor(), Anchor::ArgumentValue(0));
            }
            other => panic!("unexpected {:?}", other),
        }
    }
}

#[test]
fn valid_expression_is_kept_verbatim() {
    assert_eq!(parse_arguments(&vec![strategy("any::<u32>()")]), Ok(s("any::<u32>()")));
}

#[test]
fn non_string_strategy_points_at_value() {
    let err = parse_arguments(&vec![AttrArg::KeyValueOther { key: s("strategy") }]).unwrap_err();
    assert_eq!(err.anchor(), Anchor::ArgumentValue(0));
    assert_eq!(err.message(), "invalid strategy: must be a string literal");
}

#[test]
fn receiver_is_refused() {
    let err = rewrite_params(&vec![typed("a", "u8"), Param::Receiver]).unwrap_err();
    assert_eq!(err, ExpansionError::ReceiverNotAllowed { param: 1 });
    assert_eq!(err.anchor(), Anchor::Parameter(1));
    assert_eq!(err.message(), "receiver arguments are invalid in the testing context");
}

#[test]
fn attributed_parameter_is_refused() {
    let params = vec![
        typed("a", "u8"),
        Param::Typed { attrs: vec![s("#[allow(unused)]")], pat: s("b"), ty: s("u32") },
        Param::Receiver,
    ];
    let err = rewrite_params(&params).unwrap_err();
    assert_eq!(err, ExpansionError::ParameterAttributesNotAllowed { param: 1 });
    assert_eq!(err.anchor(), Anchor::ParameterAttribute(1));
    assert_eq!(
        err.message(),
        "proptest-attr does not allow to have attributes for function arguments"
    );
}

#[test]
fn arguments_are_judged_before_parameters() {
    let err = expand_one(vec![], vec![Param::Receiver]).unwrap_err();
    assert_eq!(err, ExpansionError::MissingStrategy);
}

#[test]
fn rendered_function_keeps_header_and_parses() {
    let it = FnItem {
        attrs: vec![s("#[test]"), s("#[ignore]")],
        vis: s("pub"),
        head: s("fn generic_test<T>"),
        where_clause: s("where T: Clone"),
        params: vec![typed("a", "u8"), typed("mut b", "u32")],
        ret: None,
        stmts: vec![s("let _c = a;"), s("b += 1;")],
    };
    let text = expand(&vec![strategy("(0..10u8, 10..100u32)")], it).unwrap().render();
    let parsed: syn::ItemFn = syn::parse_str(&text).unwrap();
    assert_eq!(parsed.attrs.len(), 2);
    assert!(parsed.sig.inputs.is_empty());
    assert!(matches!(parsed.sig.output, syn::ReturnType::Default));
    assert_eq!(parsed.sig.ident, "generic_test");
    assert!(parsed.sig.generics.where_clause.is_some());
    assert_eq!(parsed.block.stmts.len(), 5);
}

#[test]
fn judged_parse_failure_is_invalid_expression() {
    let args = vec![strategy("1 +"), strategy("0..1u8")];
    let err = judge_arguments(&args, Some(s("unexpected end of input"))).unwrap_err();
    assert_eq!(
        err,
        ExpansionError::InvalidStrategyExpression { arg: 0, reason: s("unexpected end of input") }
    );
    assert_eq!(err.message(), "strategy is not a valid Rust expression: unexpected end of input");
}

#[test]
fn judged_parse_success_accepts_the_text() {
    assert_eq!(judge_arguments(&vec![strategy("0..=10u8")], None), Ok(s("0..=10u8")));
    assert_eq!(
        judge_arguments(&vec![strategy("0..=10u8"), strategy("1..2u8")], None),
        Err(ExpansionError::DuplicateStrategy { arg: 1 })
    );
    // the outcome is read only for a first `strategy = "..."` argument
    assert_eq!(
        judge_arguments(&vec![AttrArg::Bare { name: s("x") }], Some(s("ignored"))),
        Err(ExpansionError::UnknownArgument { arg: 0 })
    );
    assert_eq!(judge_arguments(&vec![], None), Err(ExpansionError::MissingStrategy));
}

#[test]
fn strategy_with_line_comment_renders_a_valid_function() {
    let out = expand_one(vec![strategy("0..10u8 // upper bound")], vec![typed("v", "u8")]).unwrap();
    let parsed: syn::ItemFn = syn::parse_str(&out.render()).unwrap();
    assert_eq!(parsed.block.stmts.len(), 5);
}

#[test]
fn c_string_strategy_is_parsed_not_panicked_on() {
    assert_eq!(parse_arguments(&vec![strategy("c\"abc\"")]), Ok(s("c\"abc\"")));
    assert!(parse_arguments(&vec![strategy("(/*ERROR*/)")]).is_ok());
}
