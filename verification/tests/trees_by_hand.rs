//! Trees built by hand, among them shapes that no parser gives.

use c_rule_check::analyzer::{analyze, fixed_bounds, function_size_finding, StaticAnalyzer};
use c_rule_check::ast::{
    cast_target_of, leading_type_of, BinaryOperator, Declarator, DerivedDeclarator, Node,
    NodeKind, Span, Specifier, TypeSpecifier,
};
use c_rule_check::config::{Rule, RuleSet};
use c_rule_check::diagnostics::Diagnostic;
use c_rule_check::rules::FUNCTION_SIZE_LIMIT;
use c_rule_check::source::Source;
use c_rule_check::symbols::SymbolType;

/// Ten lines of ten bytes each: the byte at offset `10 * k` is on line
/// `k + 1`.
fn ten_lines() -> Source {
    Source::new("123456789\n".repeat(10)).unwrap()
}

fn at(line: usize) -> Span {
    Span { start: 10 * (line - 1), end: 10 * (line - 1) + 4 }
}

fn node(kind: NodeKind, line: usize, children: Vec<Node>) -> Node {
    Node::new(kind, at(line), children)
}

fn identifier(name: &str, line: usize) -> Node {
    Node::leaf(NodeKind::Identifier(String::from(name)), at(line))
}

fn constant(line: usize) -> Node {
    Node::leaf(NodeKind::Constant, at(line))
}

fn call(name: &str, line: usize) -> Node {
    node(NodeKind::Call, line, vec![identifier(name, line)])
}

fn named(name: &str, derived: Vec<DerivedDeclarator>) -> Declarator {
    Declarator { name: Some(String::from(name)), derived }
}

fn function(name: &str, returns: TypeSpecifier, line: usize, body: Vec<Node>) -> Node {
    node(
        NodeKind::FunctionDefinition {
            specifiers: vec![Specifier::Type(returns)],
            declarator: named(name, vec![DerivedDeclarator::KRFunction]),
        },
        line,
        body,
    )
}

fn declaration(name: &str, returns: TypeSpecifier, line: usize) -> Node {
    node(
        NodeKind::Declaration {
            specifiers: vec![Specifier::Type(returns)],
            declarators: vec![named(name, vec![DerivedDeclarator::Function])],
        },
        line,
        vec![],
    )
}

fn unit(children: Vec<Node>) -> Node {
    Node::new(NodeKind::Other, Span { start: 0, end: 100 }, children)
}

fn comparison(operator: BinaryOperator, operands: Vec<Node>) -> Node {
    node(NodeKind::BinaryOperator(operator), 1, operands)
}

fn while_loop(condition: Node) -> Node {
    node(NodeKind::While, 1, vec![condition, node(NodeKind::Other, 1, vec![])])
}

fn found(root: &Node, rules: RuleSet) -> Vec<(Rule, usize)> {
    analyze(root, rules, &ten_lines()).iter().map(|d| (d.rule, d.line)).collect()
}

#[test]
fn leaf_has_no_children() {
    let leaf = Node::leaf(NodeKind::Goto, Span { start: 1, end: 2 });
    assert!(matches!(leaf.kind, NodeKind::Goto));
    assert_eq!(leaf.span, Span { start: 1, end: 2 });
    assert!(leaf.children.is_empty());
}

#[test]
fn callee_name_of_a_call() {
    assert_eq!(call("f", 1).callee_name(), Some(&String::from("f")));
    assert_eq!(node(NodeKind::Call, 1, vec![]).callee_name(), None);
    assert_eq!(node(NodeKind::Call, 1, vec![constant(1)]).callee_name(), None);
    assert_eq!(node(NodeKind::Call, 1, vec![constant(1), identifier("f", 1)]).callee_name(), None);
    assert_eq!(node(NodeKind::Other, 1, vec![identifier("f", 1)]).callee_name(), None);
    assert_eq!(identifier("f", 1).callee_name(), None);
}

#[test]
fn leading_type_is_the_single_type_specifier() {
    assert_eq!(leading_type_of(&vec![Specifier::Type(TypeSpecifier::Int)]), TypeSpecifier::Int);
    assert_eq!(leading_type_of(&vec![Specifier::Type(TypeSpecifier::Void)]), TypeSpecifier::Void);
    assert_eq!(leading_type_of(&vec![]), TypeSpecifier::Void);
    assert_eq!(leading_type_of(&vec![Specifier::Other]), TypeSpecifier::Void);
    assert_eq!(
        leading_type_of(&vec![
            Specifier::Type(TypeSpecifier::Unsigned),
            Specifier::Type(TypeSpecifier::Int)
        ]),
        TypeSpecifier::Void
    );
    assert_eq!(
        leading_type_of(&vec![Specifier::Other, Specifier::Type(TypeSpecifier::Int)]),
        TypeSpecifier::Void
    );
}

#[test]
fn cast_target_is_the_first_specifier() {
    assert_eq!(cast_target_of(&vec![Specifier::Type(TypeSpecifier::Void)]), TypeSpecifier::Void);
    assert_eq!(
        cast_target_of(&vec![
            Specifier::Type(TypeSpecifier::Unsigned),
            Specifier::Type(TypeSpecifier::Int)
        ]),
        TypeSpecifier::Unsigned
    );
    assert_eq!(
        cast_target_of(&vec![Specifier::Other, Specifier::Type(TypeSpecifier::Int)]),
        TypeSpecifier::Other
    );
    assert_eq!(cast_target_of(&vec![]), TypeSpecifier::Other);
}

#[test]
fn function_declarators() {
    assert!(named("f", vec![DerivedDeclarator::Function]).is_function());
    assert!(named("f", vec![DerivedDeclarator::KRFunction]).is_function());
    assert!(named("f", vec![DerivedDeclarator::KRFunction, DerivedDeclarator::Pointer])
        .is_function());
    assert!(!named("f", vec![DerivedDeclarator::Pointer, DerivedDeclarator::Function])
        .is_function());
    assert!(!named("f", vec![DerivedDeclarator::Array]).is_function());
    assert!(!named("f", vec![DerivedDeclarator::Block]).is_function());
    assert!(!named("f", vec![]).is_function());
}

#[test]
fn relational_operators() {
    assert!(BinaryOperator::Less.relational());
    assert!(BinaryOperator::LessOrEqual.relational());
    assert!(BinaryOperator::Greater.relational());
    assert!(BinaryOperator::GreaterOrEqual.relational());
    assert!(BinaryOperator::Equals.relational());
    assert!(!BinaryOperator::NotEquals.relational());
    assert!(!BinaryOperator::Other.relational());
}

#[test]
fn bounds_need_a_comparison_with_a_constant() {
    let x = || identifier("x", 1);
    assert!(fixed_bounds(&while_loop(comparison(BinaryOperator::Less, vec![x(), constant(1)]))));
    assert!(fixed_bounds(&while_loop(comparison(BinaryOperator::Equals, vec![constant(1), x()]))));
    assert!(fixed_bounds(&while_loop(comparison(
        BinaryOperator::Greater,
        vec![constant(1), constant(1)]
    ))));
    assert!(!fixed_bounds(&while_loop(comparison(BinaryOperator::Less, vec![x(), x()]))));
    assert!(!fixed_bounds(&while_loop(comparison(
        BinaryOperator::NotEquals,
        vec![x(), constant(1)]
    ))));
    assert!(!fixed_bounds(&while_loop(comparison(BinaryOperator::Other, vec![x(), constant(1)]))));
    assert!(!fixed_bounds(&while_loop(constant(1))));
    assert!(!fixed_bounds(&while_loop(x())));
}

#[test]
fn loop_without_a_condition_is_unbounded() {
    let bare = node(NodeKind::While, 3, vec![]);
    assert!(!fixed_bounds(&bare));
    assert_eq!(found(&unit(vec![bare]), RuleSet::uniform(true)), vec![(Rule::LoopBounds, 3)]);
}

#[test]
fn comparison_with_missing_operands() {
    assert!(!fixed_bounds(&while_loop(comparison(BinaryOperator::Less, vec![]))));
    assert!(fixed_bounds(&while_loop(comparison(BinaryOperator::Less, vec![constant(1)]))));
    assert!(!fixed_bounds(&while_loop(comparison(BinaryOperator::Less, vec![identifier("x", 1)]))));
    assert!(!fixed_bounds(&while_loop(comparison(
        BinaryOperator::Less,
        vec![identifier("x", 1), identifier("y", 1), constant(1)]
    ))));
}

#[test]
fn size_finding_at_the_limit() {
    assert_eq!(FUNCTION_SIZE_LIMIT, 60);
    let f = function("f", TypeSpecifier::Void, 1, vec![]);
    assert_eq!(function_size_finding(&f, 1, 60), None);
    assert_eq!(function_size_finding(&f, 1, 61), Some(Diagnostic::new(Rule::FunctionSize, 1, at(1))));
    assert_eq!(function_size_finding(&f, 7, 66), None);
    assert_eq!(function_size_finding(&f, 7, 67), Some(Diagnostic::new(Rule::FunctionSize, 7, at(1))));
    assert_eq!(function_size_finding(&f, 1, 1), None);
}

#[test]
fn size_finding_at_the_ends_of_the_range() {
    let f = function("f", TypeSpecifier::Void, 1, vec![]);
    assert_eq!(function_size_finding(&f, 10, 3), None);
    assert_eq!(function_size_finding(&f, usize::MAX, 0), None);
    assert_eq!(function_size_finding(&f, usize::MAX, usize::MAX), None);
    assert_eq!(
        function_size_finding(&f, 0, usize::MAX),
        Some(Diagnostic::new(Rule::FunctionSize, 0, at(1)))
    );
    assert_eq!(function_size_finding(&f, 0, 59), None);
    assert_eq!(function_size_finding(&f, 0, 60), Some(Diagnostic::new(Rule::FunctionSize, 0, at(1))));
}

#[test]
fn function_without_a_name_is_walked() {
    let nameless = node(
        NodeKind::FunctionDefinition {
            specifiers: vec![Specifier::Type(TypeSpecifier::Int)],
            declarator: Declarator { name: None, derived: vec![DerivedDeclarator::Function] },
        },
        1,
        vec![call("f", 2), node(NodeKind::Goto, 3, vec![])],
    );
    assert_eq!(found(&unit(vec![nameless]), RuleSet::uniform(true)), vec![(Rule::Goto, 3)]);
}

#[test]
fn function_without_a_name_keeps_the_current_function() {
    let nameless = node(
        NodeKind::FunctionDefinition {
            specifiers: vec![Specifier::Type(TypeSpecifier::Int)],
            declarator: Declarator { name: None, derived: vec![DerivedDeclarator::Function] },
        },
        2,
        vec![call("h", 3), call("g", 4)],
    );
    let outer = function("h", TypeSpecifier::Void, 1, vec![nameless, call("h", 5)]);
    assert_eq!(
        found(&unit(vec![outer]), RuleSet::only(Rule::Recursion)),
        vec![(Rule::Recursion, 3), (Rule::Recursion, 5)]
    );
}

#[test]
fn setting_a_nameless_function_changes_nothing() {
    let source = ten_lines();
    let mut analyzer = StaticAnalyzer::new(RuleSet::uniform(true), &source);
    analyzer.current_function = Some(String::from("h"));
    analyzer.current_function_type_cast = Some(TypeSpecifier::Int);
    let nameless = node(
        NodeKind::FunctionDefinition {
            specifiers: vec![],
            declarator: Declarator { name: None, derived: vec![] },
        },
        1,
        vec![],
    );
    let previous = analyzer.set_current_function(&nameless);
    assert_eq!(previous, Some(String::from("h")));
    assert_eq!(analyzer.current_function, Some(String::from("h")));
    assert_eq!(analyzer.current_function_type_cast, Some(TypeSpecifier::Int));
    assert!(analyzer.diagnostics.is_empty());
    assert!(analyzer.symbol_table.lookup(&String::from("h")).is_none());

    let mut fresh = StaticAnalyzer::new(RuleSet::uniform(true), &source);
    assert_eq!(fresh.set_current_function(&nameless), None);
    assert_eq!(fresh.current_function, None);
}

#[test]
fn declaration_without_a_declarator_is_walked() {
    let bare = node(
        NodeKind::Declaration {
            specifiers: vec![Specifier::Type(TypeSpecifier::Other)],
            declarators: vec![],
        },
        1,
        vec![call("malloc", 2)],
    );
    assert_eq!(
        found(&unit(vec![bare]), RuleSet::uniform(true)),
        vec![(Rule::HeapAllocation, 2)]
    );
}

#[test]
fn declaration_counts_only_where_values_are_checked() {
    let tree = unit(vec![
        declaration("g", TypeSpecifier::Int, 1),
        function("f", TypeSpecifier::Void, 2, vec![call("g", 3)]),
    ]);
    let source = ten_lines();
    let mut with = StaticAnalyzer::new(RuleSet::only(Rule::ReturnValue), &source);
    with.visit(&tree);
    assert!(with.symbol_table.lookup(&String::from("g")).is_some());
    assert!(with.symbol_table.lookup(&String::from("f")).is_some());
    let mut without = StaticAnalyzer::new(RuleSet::uniform(false), &source);
    without.visit(&tree);
    assert!(without.symbol_table.lookup(&String::from("g")).is_none());
    assert!(without.symbol_table.lookup(&String::from("f")).is_some());
}

#[test]
fn walk_leaves_the_scope_as_it_was() {
    let tree = unit(vec![function(
        "f",
        TypeSpecifier::Int,
        1,
        vec![node(NodeKind::Cast { specifiers: vec![] }, 2, vec![call("f", 2)])],
    )]);
    let source = ten_lines();
    let mut analyzer = StaticAnalyzer::new(RuleSet::uniform(true), &source);
    analyzer.visit(&tree);
    assert_eq!(analyzer.current_function, None);
    assert_eq!(analyzer.current_function_type_cast, None);
    assert_eq!(analyzer.diagnostics, vec![Diagnostic::new(Rule::Recursion, 2, at(2))]);
    assert_eq!(
        analyzer.symbol_table.lookup(&String::from("f")).map(|symbol| symbol.symbol_type),
        Some(SymbolType::Function { return_type: TypeSpecifier::Int })
    );
}

#[test]
fn walk_appends_to_what_was_found_before() {
    let source = ten_lines();
    let mut analyzer = StaticAnalyzer::new(RuleSet::uniform(true), &source);
    analyzer.visit(&node(NodeKind::Goto, 4, vec![]));
    analyzer.visit(&call("free", 2));
    assert_eq!(
        analyzer.diagnostics,
        vec![
            Diagnostic::new(Rule::Goto, 4, at(4)),
            Diagnostic::new(Rule::HeapAllocation, 2, at(2))
        ]
    );
}

#[test]
fn call_inside_a_nested_function_belongs_to_it() {
    let inner = function("g", TypeSpecifier::Void, 2, vec![call("f", 3), call("g", 4)]);
    let outer = function("f", TypeSpecifier::Void, 1, vec![inner, call("f", 5), call("g", 6)]);
    assert_eq!(
        found(&unit(vec![outer]), RuleSet::only(Rule::Recursion)),
        vec![(Rule::Recursion, 4), (Rule::Recursion, 5)]
    );
}

#[test]
fn node_outside_the_text_is_not_reported() {
    let lost = Node::new(
        NodeKind::Goto,
        Span { start: usize::MAX, end: usize::MAX },
        vec![node(NodeKind::Goto, 2, vec![])],
    );
    let beyond = Node::new(NodeKind::Goto, Span { start: 101, end: 102 }, vec![]);
    let last = Node::new(NodeKind::Goto, Span { start: 100, end: 100 }, vec![]);
    assert_eq!(
        found(&unit(vec![lost, beyond, last]), RuleSet::uniform(true)),
        vec![(Rule::Goto, 2), (Rule::Goto, 11)]
    );
}

#[test]
fn function_that_ends_outside_the_text_has_no_size() {
    let mut text = String::new();
    for _ in 0..100 {
        text.push_str("123456789\n");
    }
    let source = Source::new(text).unwrap();
    let body = || vec![node(NodeKind::Goto, 2, vec![])];
    let inside = Node::new(
        NodeKind::FunctionDefinition {
            specifiers: vec![],
            declarator: named("f", vec![DerivedDeclarator::Function]),
        },
        Span { start: 0, end: 1000 },
        body(),
    );
    let outside = Node::new(
        NodeKind::FunctionDefinition {
            specifiers: vec![],
            declarator: named("f", vec![DerivedDeclarator::Function]),
        },
        Span { start: 0, end: 1001 },
        body(),
    );
    let rules = RuleSet::uniform(true);
    let seen: Vec<Rule> = analyze(&inside, rules, &source).iter().map(|d| d.rule).collect();
    assert_eq!(seen, vec![Rule::FunctionSize, Rule::Goto]);
    let seen: Vec<Rule> = analyze(&outside, rules, &source).iter().map(|d| d.rule).collect();
    assert_eq!(seen, vec![Rule::Goto]);
}

#[test]
fn each_check_answers_for_its_own_nodes() {
    let source = ten_lines();
    let mut analyzer = StaticAnalyzer::new(RuleSet::uniform(false), &source);
    analyzer.symbol_table.register(String::from("g"), TypeSpecifier::Int);
    analyzer.current_function = Some(String::from("f"));
    let goto = node(NodeKind::Goto, 2, vec![]);
    assert_eq!(analyzer.check_goto(&goto), Some(Diagnostic::new(Rule::Goto, 2, at(2))));
    assert_eq!(analyzer.check_goto(&call("f", 2)), None);
    assert_eq!(
        analyzer.check_setjmp(&call("setjmp", 3)),
        Some(Diagnostic::new(Rule::Setjmp, 3, at(3)))
    );
    assert_eq!(analyzer.check_setjmp(&call("longjmp", 3)), None);
    assert_eq!(analyzer.check_setjmp(&identifier("setjmp", 3)), None);
    assert_eq!(
        analyzer.check_longjmp(&call("longjmp", 4)),
        Some(Diagnostic::new(Rule::Longjmp, 4, at(4)))
    );
    assert_eq!(analyzer.check_longjmp(&call("setjmp", 4)), None);
    assert_eq!(
        analyzer.check_recursion(&call("f", 5)),
        Some(Diagnostic::new(Rule::Recursion, 5, at(5)))
    );
    assert_eq!(analyzer.check_recursion(&call("g", 5)), None);
    assert_eq!(
        analyzer.check_heap_usage(&call("realloc", 6)),
        Some(Diagnostic::new(Rule::HeapAllocation, 6, at(6)))
    );
    assert_eq!(analyzer.check_heap_usage(&call("alloc", 6)), None);
    assert_eq!(
        analyzer.check_return_value(&call("g", 7)),
        Some(Diagnostic::new(Rule::ReturnValue, 7, at(7)))
    );
    assert_eq!(analyzer.check_return_value(&call("h", 7)), None);
    analyzer.current_function_type_cast = Some(TypeSpecifier::Void);
    assert_eq!(analyzer.check_return_value(&call("g", 7)), None);
    assert_eq!(
        analyzer.check_while_loop_bounds(&node(NodeKind::While, 8, vec![constant(8)])),
        Some(Diagnostic::new(Rule::LoopBounds, 8, at(8)))
    );
    assert_eq!(analyzer.check_while_loop_bounds(&goto), None);
    assert_eq!(analyzer.check_function_size(&goto), None);
    assert_eq!(analyzer.get_line_number(95), Some(10));
    assert_eq!(analyzer.get_line_number(101), None);
    assert_eq!(
        analyzer.get_source_code_from_span(&Span { start: 0, end: 3 }),
        Some(String::from("123\n^^^"))
    );
    assert_eq!(analyzer.get_source_code_from_span(&Span { start: 0, end: 101 }), None);
}

#[test]
fn current_function_is_set_and_handed_back() {
    let source = ten_lines();
    let mut analyzer = StaticAnalyzer::new(RuleSet::uniform(true), &source);
    let previous = analyzer.set_current_function(&function("f", TypeSpecifier::Int, 1, vec![]));
    assert_eq!(previous, None);
    assert_eq!(analyzer.current_function, Some(String::from("f")));
    let previous = analyzer.set_current_function(&function("g", TypeSpecifier::Int, 1, vec![]));
    assert_eq!(previous, Some(String::from("f")));
    assert_eq!(analyzer.current_function, Some(String::from("g")));
}

#[test]
fn functions_are_added_to_the_table() {
    let source = ten_lines();
    let mut analyzer = StaticAnalyzer::new(RuleSet::uniform(false), &source);
    analyzer.add_function_to_symbol_table(&declaration("g", TypeSpecifier::Long, 1));
    analyzer.add_function_to_symbol_table(&function("f", TypeSpecifier::Void, 2, vec![]));
    analyzer.add_function_to_symbol_table(&call("h", 3));
    analyzer.add_function_to_symbol_table(&node(
        NodeKind::Declaration {
            specifiers: vec![Specifier::Type(TypeSpecifier::Int)],
            declarators: vec![named("v", vec![]), named("w", vec![DerivedDeclarator::Function])],
        },
        4,
        vec![],
    ));
    let kind = |name: &str| {
        analyzer.symbol_table.lookup(&String::from(name)).map(|symbol| symbol.symbol_type)
    };
    assert_eq!(kind("g"), Some(SymbolType::Function { return_type: TypeSpecifier::Long }));
    assert_eq!(kind("f"), Some(SymbolType::Function { return_type: TypeSpecifier::Void }));
    assert_eq!(kind("h"), None);
    assert_eq!(kind("v"), None);
    assert_eq!(kind("w"), None);
}

#[test]
fn rule_set_switches() {
    let none = RuleSet::uniform(false);
    let all = RuleSet::uniform(true);
    let one = RuleSet::only(Rule::LoopBounds);
    for rule in [
        Rule::Goto,
        Rule::Setjmp,
        Rule::Longjmp,
        Rule::Recursion,
        Rule::LoopBounds,
        Rule::HeapAllocation,
        Rule::FunctionSize,
        Rule::ReturnValue,
    ] {
        assert!(!none.is_enabled(rule));
        assert!(all.is_enabled(rule));
        assert_eq!(one.is_enabled(rule), rule == Rule::LoopBounds);
    }
    assert!(one.fixed_loop_bounds);
    assert!(!one.restrict_goto);
}
