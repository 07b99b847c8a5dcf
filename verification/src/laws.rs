//! What holds of every walk, whatever the tree.

use vstd::prelude::*;

use crate::ast::{Node, TypeSpecifier};
use crate::config::{Rule, RuleSet};
use crate::diagnostics::Diagnostic;
use crate::rules::{
    analysis, findings_at, recursion_finding, return_value_finding, scope_in,
    size_finding_on, symbols_at, walk, walk_children, Scope, FUNCTION_SIZE_LIMIT,
};
use crate::source::line_at;
use crate::symbols::{SymbolType, Symbols};

verus! {

/// None of the findings is of the rule `rule`.
pub open spec fn silent_on(findings: Seq<Diagnostic>, rule: Rule) -> bool {
    forall|i: int| 0 <= i < findings.len() ==> (#[trigger] findings[i]).rule != rule
}

/// Every finding is of a rule that `rules` enables.
pub open spec fn all_enabled(findings: Seq<Diagnostic>, rules: RuleSet) -> bool {
    forall|i: int| 0 <= i < findings.len() ==> rules.enables((#[trigger] findings[i]).rule)
}

/// A walk reports findings of enabled rules only: with a rule switched off,
/// no finding of that rule comes out of any tree.
pub proof fn findings_are_of_enabled_rules(
    node: Node,
    rules: RuleSet,
    text: Seq<char>,
    scope: Scope,
    symbols: Symbols,
)
    ensures
        all_enabled(walk(node, rules, text, scope, symbols).findings, rules),
    decreases node, 1nat, 0nat,
{
    child_findings_are_of_enabled_rules(
        node,
        0,
        rules,
        text,
        scope_in(node, scope),
        symbols_at(node, rules, symbols),
    );
}

/// The walk of the children of a node reports findings of enabled rules
/// only.
pub proof fn child_findings_are_of_enabled_rules(
    node: Node,
    from: int,
    rules: RuleSet,
    text: Seq<char>,
    scope: Scope,
    symbols: Symbols,
)
    ensures
        all_enabled(walk_children(node, from, rules, text, scope, symbols).findings, rules),
    decreases node, 0nat, node.children@.len() - from,
{
    if 0 <= from < node.children@.len() {
        let first = walk(node.children@[from], rules, text, scope, symbols);
        findings_are_of_enabled_rules(node.children@[from], rules, text, scope, symbols);
        child_findings_are_of_enabled_rules(node, from + 1, rules, text, scope, first.symbols);
    }
}

/// A disabled rule is silent on every tree.
pub proof fn disabled_rule_is_silent(root: Node, rules: RuleSet, text: Seq<char>, rule: Rule)
    requires
        !rules.enables(rule),
    ensures
        silent_on(analysis(root, rules, text), rule),
{
    findings_are_of_enabled_rules(root, rules, text, Scope::outermost(), Symbols::empty());
}

/// The findings are a function of the tree, the rule set and the text: two
/// runs on the same three give the same findings, and each finding renders
/// to the same text.
pub proof fn analysis_is_deterministic(
    root: Node,
    rules: RuleSet,
    text: Seq<char>,
    first: Seq<Diagnostic>,
    second: Seq<Diagnostic>,
)
    requires
        first == analysis(root, rules, text),
        second == analysis(root, rules, text),
    ensures
        first == second,
        forall|i: int|
            0 <= i < first.len() ==> (#[trigger] first[i]).rendered(text) == second[i].rendered(
                text,
            ),
{
}

/// The last registration of a name wins: a table to which a name was added
/// twice holds what was added last, and nothing else has changed since the
/// first addition.
pub proof fn last_registration_wins(
    symbols: Symbols,
    name: Seq<char>,
    first: TypeSpecifier,
    second: TypeSpecifier,
)
    ensures
        symbols.insert(name, SymbolType::Function { return_type: first }).insert(
            name,
            SymbolType::Function { return_type: second },
        ) == symbols.insert(name, SymbolType::Function { return_type: second }),
        symbols.insert(name, SymbolType::Function { return_type: first }).insert(
            name,
            SymbolType::Function { return_type: second },
        )[name] == (SymbolType::Function { return_type: second }),
{
    assert(symbols.insert(name, SymbolType::Function { return_type: first }).insert(
        name,
        SymbolType::Function { return_type: second },
    ) =~= symbols.insert(name, SymbolType::Function { return_type: second }));
}

/// The size rule draws the line at the limit: a function of exactly
/// `FUNCTION_SIZE_LIMIT` lines is accepted, one line more is reported, and
/// in general a function is reported exactly if it has more lines than the
/// limit.
pub proof fn size_limit_is_sharp(node: Node, start_line: usize, end_line: usize)
    ensures
        size_finding_on(node, start_line, end_line) is Some <==> end_line - start_line + 1
            > FUNCTION_SIZE_LIMIT,
        end_line - start_line + 1 == FUNCTION_SIZE_LIMIT ==> size_finding_on(
            node,
            start_line,
            end_line,
        ) is None,
        end_line - start_line + 1 == FUNCTION_SIZE_LIMIT + 1 ==> size_finding_on(
            node,
            start_line,
            end_line,
        ) is Some,
        size_finding_on(node, start_line, end_line) matches Some(d) ==> d.rule
            == Rule::FunctionSize && d.line == start_line,
{
}

/// Recursion is reported for a direct call only: a call is reported
/// exactly if its callee is a bare name, that name is the one of the
/// function around the call, and the call can be located.
pub proof fn recursion_is_direct(node: Node, text: Seq<char>, scope: Scope)
    ensures
        recursion_finding(node, text, scope) is Some <==> (node.callee() is Some && node.callee()
            == scope.current_function && line_at(text, node.span.start as int) is Some),
        node.callee() != scope.current_function ==> recursion_finding(node, text, scope) is None,
        scope.current_function is None ==> recursion_finding(node, text, scope) is None,
{
}

/// Under a cast no call is reported for dropping its value, however deep
/// the call stands under the cast.
pub proof fn cast_handles_return_values(
    node: Node,
    rules: RuleSet,
    text: Seq<char>,
    scope: Scope,
    symbols: Symbols,
)
    requires
        scope.active_cast is Some,
    ensures
        silent_on(walk(node, rules, text, scope, symbols).findings, Rule::ReturnValue),
    decreases node, 1nat, 0nat,
{
    assert(return_value_finding(node, text, scope, symbols) is None);
    cast_handles_return_values_of_children(
        node,
        0,
        rules,
        text,
        scope_in(node, scope),
        symbols_at(node, rules, symbols),
    );
}

/// Under a cast no call among the children of a node is reported for
/// dropping its value.
pub proof fn cast_handles_return_values_of_children(
    node: Node,
    from: int,
    rules: RuleSet,
    text: Seq<char>,
    scope: Scope,
    symbols: Symbols,
)
    requires
        scope.active_cast is Some,
    ensures
        silent_on(walk_children(node, from, rules, text, scope, symbols).findings, Rule::ReturnValue),
    decreases node, 0nat, node.children@.len() - from,
{
    if 0 <= from < node.children@.len() {
        let first = walk(node.children@[from], rules, text, scope, symbols);
        cast_handles_return_values(node.children@[from], rules, text, scope, symbols);
        cast_handles_return_values_of_children(node, from + 1, rules, text, scope, first.symbols);
    }
}

/// The walk of a cast expression reports no dropped return value, whatever
/// the cast stands in.
pub proof fn nothing_is_dropped_in_a_cast(
    node: Node,
    rules: RuleSet,
    text: Seq<char>,
    scope: Scope,
    symbols: Symbols,
)
    requires
        node.kind is Cast,
    ensures
        silent_on(walk(node, rules, text, scope, symbols).findings, Rule::ReturnValue),
{
    assert(findings_at(node, rules, text, scope, symbols) =~= Seq::<Diagnostic>::empty());
    cast_handles_return_values_of_children(
        node,
        0,
        rules,
        text,
        scope_in(node, scope),
        symbols_at(node, rules, symbols),
    );
}

} // verus!
