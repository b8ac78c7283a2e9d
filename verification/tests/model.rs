//! The rule on trees written out by hand.

use no_prototype_builtins::{
    get_message, is_banned_property, str_eq, CallExpr, Context, Diagnostic, ExprOrSuper, Ident,
    LintRule, MemberExpr, NoPrototypeBuiltins, NoPrototypeBuiltinsVisitor, Node, Program, Span,
    BANNED_PROPERTIES, CODE,
};

fn at(lo: u32, hi: u32) -> Span {
    Span { lo, hi }
}

fn ident(lo: u32, name: &str) -> Node {
    Node::Ident(Ident { span: at(lo, lo + name.len() as u32), sym: name.to_string() })
}

fn target(node: Node) -> ExprOrSuper {
    ExprOrSuper::Expr(Box::new(node))
}

fn member(span: Span, obj: ExprOrSuper, prop: Node, computed: bool) -> Node {
    Node::Member(MemberExpr { span, obj, prop: Box::new(prop), computed })
}

fn call(span: Span, callee: ExprOrSuper, args: Vec<Node>) -> CallExpr {
    CallExpr { span, callee, args }
}

/// `foo.<property>(bar)` at offset `lo`.
fn direct_call(lo: u32, property: &str) -> CallExpr {
    let dot = lo + 3;
    let open = dot + 1 + property.len() as u32;
    call(
        at(lo, open + 5),
        target(member(at(lo, open), target(ident(lo, "foo")), ident(dot + 1, property), false)),
        vec![ident(open + 1, "bar")],
    )
}

fn finding(span: Span, property: &str) -> Diagnostic {
    Diagnostic {
        span,
        code: "no-prototype-builtins".to_string(),
        message: format!("Access to Object.prototype.{} is not allowed from target object", property),
    }
}

fn visit_call(call: &CallExpr) -> Vec<Diagnostic> {
    let mut context = Context::new();
    let mut visitor = NoPrototypeBuiltinsVisitor::new(&mut context);
    visitor.visit_call_expr(call);
    context.diagnostics
}

fn lint(body: Vec<Node>) -> Vec<Diagnostic> {
    let mut context = Context::new();
    NoPrototypeBuiltins::new().lint_program(&mut context, &Program { body });
    context.diagnostics
}

#[test]
fn message_has_the_exact_wording() {
    assert_eq!(
        get_message("hasOwnProperty"),
        "Access to Object.prototype.hasOwnProperty is not allowed from target object"
    );
    assert_eq!(
        get_message("isPrototypeOf"),
        "Access to Object.prototype.isPrototypeOf is not allowed from target object"
    );
    assert_eq!(
        get_message("propertyIsEnumberable"),
        "Access to Object.prototype.propertyIsEnumberable is not allowed from target object"
    );
    assert_eq!(get_message(""), "Access to Object.prototype. is not allowed from target object");
    assert_eq!(
        get_message("a b\u{e9}"),
        "Access to Object.prototype.a b\u{e9} is not allowed from target object"
    );
}

#[test]
fn the_banned_names_are_fixed() {
    assert_eq!(BANNED_PROPERTIES, ["hasOwnProperty", "isPrototypeOf", "propertyIsEnumberable"]);
    assert!(is_banned_property("hasOwnProperty"));
    assert!(is_banned_property("isPrototypeOf"));
    assert!(is_banned_property("propertyIsEnumberable"));
}

#[test]
fn other_names_are_not_banned() {
    assert!(!is_banned_property("propertyIsEnumerable"));
    assert!(!is_banned_property("hasownproperty"));
    assert!(!is_banned_property("HASOWNPROPERTY"));
    assert!(!is_banned_property("hasOwnProperty "));
    assert!(!is_banned_property(" hasOwnProperty"));
    assert!(!is_banned_property("hasOwnPropert"));
    assert!(!is_banned_property("isPrototypeOf\u{0}"));
    assert!(!is_banned_property("call"));
    assert!(!is_banned_property("apply"));
    assert!(!is_banned_property("toString"));
    assert!(!is_banned_property(""));
    assert!(!is_banned_property("h\u{430}sOwnProperty"));
}

#[test]
fn texts_are_compared_exactly() {
    assert!(str_eq("", ""));
    assert!(str_eq("abc", "abc"));
    assert!(str_eq("na\u{ef}ve \u{1f600}", "na\u{ef}ve \u{1f600}"));
    assert!(!str_eq("abc", "abd"));
    assert!(!str_eq("abc", "ab"));
    assert!(!str_eq("ab", "abc"));
    assert!(!str_eq("abc", "ABC"));
    assert!(!str_eq("", " "));
    assert!(!str_eq("e\u{301}", "\u{e9}"));
    assert!(!str_eq("\u{e9}", "\u{e8}"));
}

#[test]
fn the_rule_has_its_code_and_tags() {
    let rule = NoPrototypeBuiltins::new();
    assert_eq!(rule.code(), "no-prototype-builtins");
    assert_eq!(rule.code(), CODE);
    assert_eq!(rule.tags(), ["recommended"]);
}

#[test]
fn a_context_records_in_order() {
    let mut context = Context::new();
    assert!(context.diagnostics.is_empty());

    context.add_diagnostic(at(4, 9), "some-code", "first".to_string());
    context.add_diagnostic(at(0, 2), "other-code", "second".to_string());
    context.add_diagnostic(at(4, 9), "some-code", "first".to_string());

    let first = Diagnostic { span: at(4, 9), code: "some-code".to_string(), message: "first".to_string() };
    let second = Diagnostic { span: at(0, 2), code: "other-code".to_string(), message: "second".to_string() };
    assert_eq!(context.diagnostics, vec![first.clone(), second, first]);
}

#[test]
fn a_visitor_reports_to_its_context() {
    let mut context = Context::new();
    context.add_diagnostic(at(1, 2), "earlier", "kept".to_string());
    {
        let mut visitor = NoPrototypeBuiltinsVisitor::new(&mut context);
        assert_eq!(visitor.context.diagnostics.len(), 1);
        visitor.visit_call_expr(&direct_call(10, "isPrototypeOf"));
    }
    let kept = Diagnostic { span: at(1, 2), code: "earlier".to_string(), message: "kept".to_string() };
    assert_eq!(context.diagnostics, vec![kept, finding(at(10, 32), "isPrototypeOf")]);
}

#[test]
fn a_direct_call_is_reported_once_at_its_span() {
    for property in ["hasOwnProperty", "isPrototypeOf", "propertyIsEnumberable"] {
        let call = direct_call(7, property);
        assert_eq!(visit_call(&call), vec![finding(call.span, property)]);
    }
}

#[test]
fn the_target_object_does_not_count() {
    let targets = vec![
        ExprOrSuper::Super(at(0, 5)),
        target(ident(0, "foo")),
        target(Node::Other(vec![])),
        target(Node::Call(direct_call(0, "hasOwnProperty"))),
        target(member(at(0, 7), target(ident(0, "foo")), ident(4, "bar"), true)),
        target(Node::Other(vec![ident(0, "a"), Node::Other(vec![ident(2, "b")])])),
    ];
    for obj in targets {
        let callee = member(at(0, 40), obj, ident(26, "hasOwnProperty"), false);
        let call = call(at(0, 47), target(callee), vec![]);
        assert_eq!(visit_call(&call), vec![finding(at(0, 47), "hasOwnProperty")]);
    }
}

#[test]
fn a_computed_access_is_skipped() {
    let callee = member(at(0, 21), target(ident(0, "foo")), ident(4, "hasOwnProperty"), true);
    assert_eq!(visit_call(&call(at(0, 28), target(callee), vec![])), vec![]);
}

#[test]
fn a_callee_that_is_no_member_access_is_skipped() {
    let plain = call(at(0, 19), target(ident(0, "hasOwnProperty")), vec![ident(15, "foo")]);
    assert_eq!(visit_call(&plain), vec![]);

    let on_super = call(at(0, 7), ExprOrSuper::Super(at(0, 5)), vec![]);
    assert_eq!(visit_call(&on_super), vec![]);

    let wrapped = Node::Other(vec![member(
        at(1, 19),
        target(ident(1, "foo")),
        ident(5, "hasOwnProperty"),
        false,
    )]);
    assert_eq!(visit_call(&call(at(0, 22), target(wrapped), vec![])), vec![]);

    let result = call(at(0, 24), target(Node::Call(direct_call(0, "hasOwnProperty"))), vec![]);
    assert_eq!(visit_call(&result), vec![]);
}

#[test]
fn a_property_that_is_no_identifier_is_skipped() {
    let odd_props = vec![
        Node::Other(vec![]),
        Node::Other(vec![ident(4, "hasOwnProperty")]),
        Node::Call(direct_call(4, "hasOwnProperty")),
        member(at(4, 22), target(ident(4, "bar")), ident(8, "hasOwnProperty"), false),
    ];
    for prop in odd_props {
        let callee = member(at(0, 30), target(ident(0, "foo")), prop, false);
        assert_eq!(visit_call(&call(at(0, 32), target(callee), vec![])), vec![]);
    }
}

#[test]
fn another_property_is_skipped() {
    for property in ["call", "apply", "toString", "propertyIsEnumerable", "hasOwnproperty", ""] {
        assert_eq!(visit_call(&direct_call(0, property)), vec![]);
    }
}

#[test]
fn one_visit_does_not_look_below_the_call() {
    let inner = direct_call(4, "hasOwnProperty");
    let inner_span = inner.span;
    let outer = call(at(0, 30), target(ident(0, "foo")), vec![Node::Call(inner)]);
    assert_eq!(visit_call(&outer), vec![]);
    assert_eq!(lint(vec![Node::Call(outer)]), vec![finding(inner_span, "hasOwnProperty")]);
}

#[test]
fn each_visit_reports_again() {
    let call = direct_call(3, "hasOwnProperty");
    let mut context = Context::new();
    let mut visitor = NoPrototypeBuiltinsVisitor::new(&mut context);
    visitor.visit_call_expr(&call);
    visitor.visit_call_expr(&call);
    let expected = finding(call.span, "hasOwnProperty");
    assert_eq!(context.diagnostics, vec![expected.clone(), expected]);
}

#[test]
fn a_pass_visits_every_call_in_order() {
    // a.isPrototypeOf(b.hasOwnProperty(c))[d.propertyIsEnumberable()]; e.hasOwnProperty()
    let in_args = direct_call(16, "hasOwnProperty");
    let in_prop = direct_call(40, "propertyIsEnumberable");
    let last = direct_call(70, "hasOwnProperty");
    let (in_args_span, in_prop_span, last_span) = (in_args.span, in_prop.span, last.span);
    let outer = call(
        at(0, 38),
        target(member(at(0, 15), target(ident(0, "a")), ident(2, "isPrototypeOf"), false)),
        vec![Node::Call(in_args)],
    );
    let subscript = member(at(0, 66), target(Node::Call(outer)), Node::Call(in_prop), true);
    let body = vec![Node::Other(vec![subscript]), Node::Other(vec![Node::Other(vec![Node::Call(last)])])];

    assert_eq!(
        lint(body),
        vec![
            finding(at(0, 38), "isPrototypeOf"),
            finding(in_args_span, "hasOwnProperty"),
            finding(in_prop_span, "propertyIsEnumberable"),
            finding(last_span, "hasOwnProperty"),
        ]
    );
}

#[test]
fn a_pass_visits_the_callee_before_the_arguments() {
    let in_callee = direct_call(0, "hasOwnProperty");
    let in_args = direct_call(30, "isPrototypeOf");
    let (callee_span, args_span) = (in_callee.span, in_args.span);
    let outer = call(
        at(0, 60),
        target(member(at(0, 28), target(Node::Call(in_callee)), ident(24, "call"), false)),
        vec![Node::Call(in_args)],
    );
    assert_eq!(
        lint(vec![Node::Call(outer)]),
        vec![finding(callee_span, "hasOwnProperty"), finding(args_span, "isPrototypeOf")]
    );
}

#[test]
fn a_pass_keeps_what_the_context_held() {
    let program = Program { body: vec![Node::Call(direct_call(0, "isPrototypeOf"))] };
    let rule = NoPrototypeBuiltins::new();
    let mut context = Context::new();
    context.add_diagnostic(at(90, 91), "earlier", "kept".to_string());

    rule.lint_program(&mut context, &program);
    rule.lint_program(&mut context, &program);

    let kept = Diagnostic { span: at(90, 91), code: "earlier".to_string(), message: "kept".to_string() };
    let found = finding(at(0, 22), "isPrototypeOf");
    assert_eq!(context.diagnostics, vec![kept, found.clone(), found]);
}

#[test]
fn two_passes_over_one_tree_agree() {
    let program = Program {
        body: vec![
            Node::Call(direct_call(0, "hasOwnProperty")),
            Node::Other(vec![Node::Call(direct_call(30, "toString"))]),
            Node::Call(direct_call(60, "propertyIsEnumberable")),
        ],
    };
    let mut first = Context::new();
    NoPrototypeBuiltins::new().lint_program(&mut first, &program);
    let mut second = Context::new();
    NoPrototypeBuiltins::new().lint_program(&mut second, &program);

    assert_eq!(first.diagnostics.len(), 2);
    assert_eq!(first.diagnostics, second.diagnostics);
}

#[test]
fn a_tree_without_calls_has_no_finding() {
    assert_eq!(lint(vec![]), vec![]);
    assert_eq!(lint(vec![ident(0, "hasOwnProperty")]), vec![]);
    let access = member(at(0, 18), target(ident(0, "foo")), ident(4, "hasOwnProperty"), false);
    assert_eq!(lint(vec![Node::Other(vec![access, Node::Other(vec![])])]), vec![]);
}

#[test]
fn a_deep_tree_is_walked_to_the_bottom() {
    let mut node = Node::Call(direct_call(0, "hasOwnProperty"));
    for _ in 0..200 {
        node = Node::Other(vec![ident(0, "x"), node]);
    }
    assert_eq!(lint(vec![node]), vec![finding(at(0, 23), "hasOwnProperty")]);
}
