//! What each rule finds at a node, and what a walk of a tree finds in all.
//!
//! A walk visits a node before its children and the children in order. It
//! carries a [`Scope`] down the tree and a table of the functions met so far
//! along the whole walk: a call is judged against the functions that were
//! defined or declared before it.

use vstd::prelude::*;

use crate::ast::{cast_target, leading_type, Node, NodeKind, TypeSpecifier};
use crate::config::{Rule, RuleSet};
use crate::diagnostics::{Diagnostic, Severity};
use crate::source::line_at;
use crate::symbols::{SymbolType, Symbols};

verus! {

/// The longest function that the size rule accepts, in lines.
pub const FUNCTION_SIZE_LIMIT: usize = 60;

/// What a node inherits from the nodes around it.
pub struct Scope {
    /// The name of the innermost function definition with a plain name that
    /// the node lies in.
    pub current_function: Option<Seq<char>>,
    /// The target of the innermost cast that the node lies in.
    pub active_cast: Option<TypeSpecifier>,
}

/// What a walk leaves behind: the findings in the order of the visit, and
/// the table of functions.
pub struct Outcome {
    pub findings: Seq<Diagnostic>,
    pub symbols: Symbols,
}

impl Scope {
    /// The scope of the root: in no function, under no cast.
    pub open spec fn outermost() -> Scope {
        Scope { current_function: None, active_cast: None }
    }
}

/// A finding of `rule` at `node`, if the start of the node can be located
/// in the text.
pub open spec fn finding(rule: Rule, node: Node, text: Seq<char>) -> Option<Diagnostic> {
    match line_at(text, node.span.start as int) {
        Some(line) => Some(Diagnostic { rule, line, span: node.span, severity: Severity::Error }),
        None => None,
    }
}

/// The functions that manage the heap.
pub open spec fn is_heap_function(name: Seq<char>) -> bool {
    name == "malloc"@ || name == "calloc"@ || name == "realloc"@ || name == "free"@
}

/// The condition of a loop is a comparison with a constant on one side at
/// least. The condition is the first child of the loop, its operands are the
/// first two children of the comparison.
pub open spec fn has_fixed_bounds(node: Node) -> bool {
    node.children@.len() > 0 && {
        let condition = node.children@[0];
        &&& condition.kind matches NodeKind::BinaryOperator(operator)
        &&& operator.is_relational()
        &&& (condition.children@.len() > 0 && condition.children@[0].kind is Constant)
            || (condition.children@.len() > 1 && condition.children@[1].kind is Constant)
    }
}

/// A function that starts on `start_line` and ends on `end_line` has more
/// lines than the limit.
pub open spec fn exceeds_size_limit(start_line: int, end_line: int) -> bool {
    end_line - start_line + 1 > FUNCTION_SIZE_LIMIT
}

pub open spec fn goto_finding(node: Node, text: Seq<char>) -> Option<Diagnostic> {
    if node.kind is Goto {
        finding(Rule::Goto, node, text)
    } else {
        None
    }
}

pub open spec fn setjmp_finding(node: Node, text: Seq<char>) -> Option<Diagnostic> {
    if node.callee() == Some("setjmp"@) {
        finding(Rule::Setjmp, node, text)
    } else {
        None
    }
}

pub open spec fn longjmp_finding(node: Node, text: Seq<char>) -> Option<Diagnostic> {
    if node.callee() == Some("longjmp"@) {
        finding(Rule::Longjmp, node, text)
    } else {
        None
    }
}

/// A call is recursive if it names the function it stands in.
pub open spec fn recursion_finding(node: Node, text: Seq<char>, scope: Scope) -> Option<
    Diagnostic,
> {
    if node.callee() is Some && node.callee() == scope.current_function {
        finding(Rule::Recursion, node, text)
    } else {
        None
    }
}

pub open spec fn loop_finding(node: Node, text: Seq<char>) -> Option<Diagnostic> {
    if node.kind is While && !has_fixed_bounds(node) {
        finding(Rule::LoopBounds, node, text)
    } else {
        None
    }
}

pub open spec fn heap_finding(node: Node, text: Seq<char>) -> Option<Diagnostic> {
    if node.callee() matches Some(name) && is_heap_function(name) {
        finding(Rule::HeapAllocation, node, text)
    } else {
        None
    }
}

/// A finding for the function that starts on `start_line` and ends on
/// `end_line`, if it is too long.
pub open spec fn size_finding_on(node: Node, start_line: usize, end_line: usize) -> Option<
    Diagnostic,
> {
    if exceeds_size_limit(start_line as int, end_line as int) {
        Some(
            Diagnostic {
                rule: Rule::FunctionSize,
                line: start_line,
                span: node.span,
                severity: Severity::Error,
            },
        )
    } else {
        None
    }
}

pub open spec fn size_finding(node: Node, text: Seq<char>) -> Option<Diagnostic> {
    if node.kind is FunctionDefinition {
        match (line_at(text, node.span.start as int), line_at(text, node.span.end as int)) {
            (Some(start_line), Some(end_line)) => size_finding_on(node, start_line, end_line),
            _ => None,
        }
    } else {
        None
    }
}

/// A call drops a value if it names a function that is known to return one
/// and no cast stands around the call.
pub open spec fn return_value_finding(
    node: Node,
    text: Seq<char>,
    scope: Scope,
    symbols: Symbols,
) -> Option<Diagnostic> {
    if node.callee() matches Some(name) && symbols.dom().contains(name)
        && symbols[name].yields_value() && scope.active_cast is None {
        finding(Rule::ReturnValue, node, text)
    } else {
        None
    }
}

/// The finding of a rule, if the rule is switched on.
pub open spec fn reported(on: bool, found: Option<Diagnostic>) -> Seq<Diagnostic> {
    match found {
        Some(diagnostic) => if on {
            seq![diagnostic]
        } else {
            Seq::empty()
        },
        None => Seq::empty(),
    }
}

/// The findings at one node, in the order in which they are reported.
pub open spec fn findings_at(
    node: Node,
    rules: RuleSet,
    text: Seq<char>,
    scope: Scope,
    symbols: Symbols,
) -> Seq<Diagnostic> {
    reported(rules.restrict_goto, goto_finding(node, text)) + reported(
        rules.fixed_loop_bounds,
        loop_finding(node, text),
    ) + reported(rules.restrict_recursion, recursion_finding(node, text, scope)) + reported(
        rules.restrict_setjmp,
        setjmp_finding(node, text),
    ) + reported(rules.restrict_longjmp, longjmp_finding(node, text)) + reported(
        rules.restrict_heap_allocation,
        heap_finding(node, text),
    ) + reported(rules.check_return_value, return_value_finding(node, text, scope, symbols))
        + reported(rules.restrict_function_size, size_finding(node, text))
}

/// The function that a node names, with its return type: a definition of a
/// named function, or a declaration whose first declarator declares a named
/// function.
pub open spec fn declared_function(node: Node) -> Option<(Seq<char>, SymbolType)> {
    match node.kind {
        NodeKind::FunctionDefinition { specifiers, declarator } => match declarator.name_view() {
            Some(name) => Some(
                (name, SymbolType::Function { return_type: leading_type(specifiers@) }),
            ),
            None => None,
        },
        NodeKind::Declaration { specifiers, declarators } => {
            if declarators@.len() > 0 && declarators@[0].declares_function() {
                match declarators@[0].name_view() {
                    Some(name) => Some(
                        (name, SymbolType::Function { return_type: leading_type(specifiers@) }),
                    ),
                    None => None,
                }
            } else {
                None
            }
        },
        _ => None,
    }
}

/// The table with the function that a node names.
pub open spec fn with_declared(node: Node, symbols: Symbols) -> Symbols {
    match declared_function(node) {
        Some((name, symbol_type)) => symbols.insert(name, symbol_type),
        None => symbols,
    }
}

/// The table once the node has been entered. A definition is always
/// recorded, a declaration only where return values are checked.
pub open spec fn symbols_at(node: Node, rules: RuleSet, symbols: Symbols) -> Symbols {
    if node.kind is FunctionDefinition || rules.check_return_value {
        with_declared(node, symbols)
    } else {
        symbols
    }
}

/// The plain name of the function that a node defines.
pub open spec fn defined_name(node: Node) -> Option<Seq<char>> {
    match node.kind {
        NodeKind::FunctionDefinition { specifiers, declarator } => declarator.name_view(),
        _ => None,
    }
}

/// The scope of the children of a node. A function definition with a plain
/// name makes that name the current function; one without leaves the
/// current function as it is.
pub open spec fn scope_in(node: Node, scope: Scope) -> Scope {
    match node.kind {
        NodeKind::FunctionDefinition { specifiers, declarator } => Scope {
            current_function: match defined_name(node) {
                Some(name) => Some(name),
                None => scope.current_function,
            },
            active_cast: scope.active_cast,
        },
        NodeKind::Cast { specifiers } => Scope {
            current_function: scope.current_function,
            active_cast: Some(cast_target(specifiers@)),
        },
        _ => scope,
    }
}

/// The walk of a node: the node itself, then its children.
pub open spec fn walk(
    node: Node,
    rules: RuleSet,
    text: Seq<char>,
    scope: Scope,
    symbols: Symbols,
) -> Outcome
    decreases node, 1nat, 0nat,
{
    let inner = walk_children(
        node,
        0,
        rules,
        text,
        scope_in(node, scope),
        symbols_at(node, rules, symbols),
    );
    Outcome {
        findings: findings_at(node, rules, text, scope, symbols) + inner.findings,
        symbols: inner.symbols,
    }
}

/// The walk of the children of `node` from the one at index `from` on.
pub open spec fn walk_children(
    node: Node,
    from: int,
    rules: RuleSet,
    text: Seq<char>,
    scope: Scope,
    symbols: Symbols,
) -> Outcome
    decreases node, 0nat, node.children@.len() - from,
{
    if 0 <= from < node.children@.len() {
        let first = walk(node.children@[from], rules, text, scope, symbols);
        let rest = walk_children(node, from + 1, rules, text, scope, first.symbols);
        Outcome { findings: first.findings + rest.findings, symbols: rest.symbols }
    } else {
        Outcome { findings: Seq::empty(), symbols }
    }
}

/// The findings of a whole tree in one walk. A call that stands before the
/// first declaration or definition of its callee is judged without it.
pub open spec fn analysis(root: Node, rules: RuleSet, text: Seq<char>) -> Seq<Diagnostic> {
    walk(root, rules, text, Scope::outermost(), Symbols::empty()).findings
}

/// The functions that a whole tree makes known: the table that a walk of it
/// leaves behind.
pub open spec fn declarations(root: Node, rules: RuleSet, text: Seq<char>) -> Symbols {
    walk(root, rules, text, Scope::outermost(), Symbols::empty()).symbols
}

/// The findings of a whole tree in a walk that starts from the functions
/// that the tree makes known, so that a call is judged by its callee
/// wherever the callee is declared.
pub open spec fn resolved_analysis(root: Node, rules: RuleSet, text: Seq<char>) -> Seq<
    Diagnostic,
> {
    walk(root, rules, text, Scope::outermost(), declarations(root, rules, text)).findings
}

} // verus!
