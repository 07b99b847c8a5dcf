//! The analyzer: one walk over a tree that reports what the rules find.

use vstd::prelude::*;
use vstd::string::*;

use crate::ast::{cast_target_of, leading_type_of, Node, NodeKind, Span, TypeSpecifier};
use crate::config::{Rule, RuleSet};
use crate::diagnostics::{excerpt_at, excerpt_string, Diagnostic};
use crate::laws::{all_enabled, findings_are_of_enabled_rules};
use crate::rules::{
    analysis, declarations, defined_name, finding, findings_at, goto_finding, has_fixed_bounds, heap_finding,
    longjmp_finding, loop_finding, recursion_finding, reported, resolved_analysis,
    return_value_finding, scope_in, setjmp_finding, size_finding, size_finding_on, symbols_at, walk,
    walk_children, with_declared, Outcome, Scope, FUNCTION_SIZE_LIMIT,
};
use crate::source::{line_at, Source};
use crate::symbols::{SymbolTable, Symbols};

verus! {

/// The state of a walk.
pub struct StaticAnalyzer<'a> {
    /// The rules that are switched on.
    pub rule_set: RuleSet,
    /// The functions met so far.
    pub symbol_table: SymbolTable,
    /// The target of the innermost cast around the node in hand.
    pub current_function_type_cast: Option<TypeSpecifier>,
    /// The text that the spans of the tree point into.
    pub source: &'a Source,
    /// The name of the innermost named function definition around the node
    /// in hand.
    pub current_function: Option<String>,
    /// The findings so far, in the order of the visit.
    pub diagnostics: Vec<Diagnostic>,
}

/// Whether a name is the given word.
fn is_word(name: &String, word: &str) -> (same: bool)
    ensures
        same == (name@ == word@),
{
    *name == String::from_str(word)
}

/// Whether a loop is bounded by its condition.
pub fn fixed_bounds(node: &Node) -> (fixed: bool)
    ensures
        fixed == has_fixed_bounds(*node),
{
    if node.children.len() == 0 {
        return false;
    }
    let condition = &node.children[0];
    match condition.kind {
        NodeKind::BinaryOperator(operator) => {
            if !operator.relational() {
                return false;
            }
            let operands = &condition.children;
            let left = operands.len() > 0 && matches!(operands[0].kind, NodeKind::Constant);
            let right = operands.len() > 1 && matches!(operands[1].kind, NodeKind::Constant);
            left || right
        },
        _ => false,
    }
}

/// The finding for a function that starts on `start_line` and ends on
/// `end_line`: one if the function has more than `FUNCTION_SIZE_LIMIT` lines.
pub fn function_size_finding(node: &Node, start_line: usize, end_line: usize) -> (found: Option<
    Diagnostic,
>)
    ensures
        found == size_finding_on(*node, start_line, end_line),
{
    if end_line > start_line && end_line - start_line >= FUNCTION_SIZE_LIMIT {
        Some(Diagnostic::new(Rule::FunctionSize, start_line, node.span))
    } else {
        None
    }
}

impl<'a> StaticAnalyzer<'a> {
    /// The scope of the node in hand.
    pub open spec fn scope(self) -> Scope {
        Scope {
            current_function: match self.current_function {
                Some(name) => Some(name@),
                None => None,
            },
            active_cast: self.current_function_type_cast,
        }
    }

    /// `self` is what a walk with the given outcome makes of `before`: the
    /// findings are appended, the table is the walk's, the rest is as it was.
    pub open spec fn walked(self, before: Self, outcome: Outcome) -> bool {
        &&& self.rule_set == before.rule_set
        &&& self.source == before.source
        &&& self.scope() == before.scope()
        &&& self.diagnostics@ == before.diagnostics@ + outcome.findings
        &&& self.symbol_table@ == outcome.symbols
    }

    /// The findings at `node` in the state `self`.
    pub open spec fn findings_here(self, node: Node) -> Seq<Diagnostic> {
        findings_at(node, self.rule_set, self.source@, self.scope(), self.symbol_table@)
    }

    /// The walk of `node` from the state `self`.
    pub open spec fn walk_of(self, node: Node) -> Outcome {
        walk(node, self.rule_set, self.source@, self.scope(), self.symbol_table@)
    }

    /// An analyzer at the root of a tree: no function known, no finding yet.
    pub fn new(rule_set: RuleSet, source: &'a Source) -> (analyzer: Self)
        ensures
            analyzer.rule_set == rule_set,
            analyzer.source == source,
            analyzer.symbol_table@ == Symbols::empty(),
            analyzer.scope() == Scope::outermost(),
            analyzer.diagnostics@ == Seq::<Diagnostic>::empty(),
    {
        StaticAnalyzer {
            rule_set,
            symbol_table: SymbolTable::new(),
            current_function_type_cast: None,
            source,
            current_function: None,
            diagnostics: Vec::new(),
        }
    }

    /// The line of a byte offset, if the offset lies in the source.
    pub fn get_line_number(&self, span_point: usize) -> (line: Option<usize>)
        ensures
            line == line_at(self.source@, span_point as int),
    {
        self.source.line_of(span_point)
    }

    /// The source text of a span with a line of carets under it.
    pub fn get_source_code_from_span(&self, span: &Span) -> (lines: Option<String>)
        ensures
            match lines {
                Some(text) => excerpt_at(self.source@, span.start as int, span.end as int) == Some(
                    text@,
                ),
                None => excerpt_at(self.source@, span.start as int, span.end as int) is None,
            },
    {
        excerpt_string(self.source, *span)
    }

    /// A finding of `rule` at the line on which `node` starts.
    fn report(&self, rule: Rule, node: &Node) -> (found: Option<Diagnostic>)
        ensures
            found == finding(rule, *node, self.source@),
    {
        match self.get_line_number(node.span.start) {
            Some(line) => Some(Diagnostic::new(rule, line, node.span)),
            None => None,
        }
    }

    /// Finds a `goto` statement.
    pub fn check_goto(&self, node: &Node) -> (found: Option<Diagnostic>)
        ensures
            found == goto_finding(*node, self.source@),
    {
        match node.kind {
            NodeKind::Goto => self.report(Rule::Goto, node),
            _ => None,
        }
    }

    /// Finds a call of `setjmp`.
    pub fn check_setjmp(&self, node: &Node) -> (found: Option<Diagnostic>)
        ensures
            found == setjmp_finding(*node, self.source@),
    {
        match node.callee_name() {
            Some(name) => {
                if is_word(name, "setjmp") {
                    self.report(Rule::Setjmp, node)
                } else {
                    None
                }
            },
            None => None,
        }
    }

    /// Finds a call of `longjmp`.
    pub fn check_longjmp(&self, node: &Node) -> (found: Option<Diagnostic>)
        ensures
            found == longjmp_finding(*node, self.source@),
    {
        match node.callee_name() {
            Some(name) => {
                if is_word(name, "longjmp") {
                    self.report(Rule::Longjmp, node)
                } else {
                    None
                }
            },
            None => None,
        }
    }

    /// Makes the function that `node` defines the current one and hands
    /// back the one that was current before. A definition without a plain
    /// name leaves the current function as it is.
    pub fn set_current_function(&mut self, node: &Node) -> (previous: Option<String>)
        requires
            node.kind is FunctionDefinition,
        ensures
            previous == old(self).current_function,
            final(self).scope().current_function == match defined_name(*node) {
                Some(name) => Some(name),
                None => old(self).scope().current_function,
            },
            defined_name(*node) is None ==> final(self).current_function == old(
                self,
            ).current_function,
            final(self).scope() == scope_in(*node, old(self).scope()),
            final(self).current_function_type_cast == old(self).current_function_type_cast,
            final(self).rule_set == old(self).rule_set,
            final(self).source == old(self).source,
            final(self).symbol_table == old(self).symbol_table,
            final(self).diagnostics == old(self).diagnostics,
    {
        match &node.kind {
            NodeKind::FunctionDefinition { specifiers, declarator } => {
                match &declarator.name {
                    Some(identifier) => {
                        let mut name: Option<String> = Some(identifier.clone());
                        std::mem::swap(&mut self.current_function, &mut name);
                        name
                    },
                    None => self.current_function_name(),
                }
            },
            _ => self.current_function_name(),
        }
    }

    /// The name of the current function.
    fn current_function_name(&self) -> (name: Option<String>)
        ensures
            name == self.current_function,
    {
        match &self.current_function {
            Some(current_function) => Some(current_function.clone()),
            None => None,
        }
    }

    /// Finds a call of the function that the call stands in.
    pub fn check_recursion(&self, node: &Node) -> (found: Option<Diagnostic>)
        ensures
            found == recursion_finding(*node, self.source@, self.scope()),
    {
        match node.callee_name() {
            Some(name) => match &self.current_function {
                Some(current_function) => {
                    if *name == *current_function {
                        self.report(Rule::Recursion, node)
                    } else {
                        None
                    }
                },
                None => None,
            },
            None => None,
        }
    }

    /// Finds a `while` loop whose condition does not bound it.
    pub fn check_while_loop_bounds(&self, node: &Node) -> (found: Option<Diagnostic>)
        ensures
            found == loop_finding(*node, self.source@),
    {
        match node.kind {
            NodeKind::While => {
                if fixed_bounds(node) {
                    None
                } else {
                    self.report(Rule::LoopBounds, node)
                }
            },
            _ => None,
        }
    }

    /// Finds a call of a function that manages the heap.
    pub fn check_heap_usage(&self, node: &Node) -> (found: Option<Diagnostic>)
        ensures
            found == heap_finding(*node, self.source@),
    {
        match node.callee_name() {
            Some(name) => {
                if is_word(name, "malloc") || is_word(name, "calloc") || is_word(name, "realloc")
                    || is_word(name, "free") {
                    self.report(Rule::HeapAllocation, node)
                } else {
                    None
                }
            },
            None => None,
        }
    }

    /// Finds a function definition of more than `FUNCTION_SIZE_LIMIT` lines.
    pub fn check_function_size(&self, node: &Node) -> (found: Option<Diagnostic>)
        ensures
            found == size_finding(*node, self.source@),
    {
        match node.kind {
            NodeKind::FunctionDefinition { .. } => {
                match (self.get_line_number(node.span.start), self.get_line_number(node.span.end)) {
                    (Some(start_line), Some(end_line)) => function_size_finding(
                        node,
                        start_line,
                        end_line,
                    ),
                    _ => None,
                }
            },
            _ => None,
        }
    }

    /// Records the function that `node` defines or declares, with the type
    /// it returns.
    pub fn add_function_to_symbol_table(&mut self, node: &Node)
        ensures
            final(self).symbol_table@ == with_declared(*node, old(self).symbol_table@),
            final(self).rule_set == old(self).rule_set,
            final(self).source == old(self).source,
            final(self).current_function == old(self).current_function,
            final(self).current_function_type_cast == old(self).current_function_type_cast,
            final(self).diagnostics == old(self).diagnostics,
    {
        match &node.kind {
            NodeKind::FunctionDefinition { specifiers, declarator } => {
                match &declarator.name {
                    Some(identifier) => {
                        // Extract the return type of the function
                        let return_type = leading_type_of(specifiers);
                        self.symbol_table.register(identifier.clone(), return_type);
                    },
                    None => {},
                }
            },
            NodeKind::Declaration { specifiers, declarators } => {
                // A function declaration has a function declarator first
                if declarators.len() > 0 && declarators[0].is_function() {
                    match &declarators[0].name {
                        Some(identifier) => {
                            let return_type = leading_type_of(specifiers);
                            self.symbol_table.register(identifier.clone(), return_type);
                        },
                        None => {},
                    }
                }
            },
            _ => {},
        }
    }

    /// Finds a call that drops the value of a function known to return one.
    pub fn check_return_value(&self, node: &Node) -> (found: Option<Diagnostic>)
        ensures
            found == return_value_finding(
                *node,
                self.source@,
                self.scope(),
                self.symbol_table@,
            ),
    {
        match node.callee_name() {
            Some(name) => match self.symbol_table.lookup(name) {
                Some(symbol) => {
                    // Check if the return type is not void
                    if symbol.symbol_type.returns_value() {
                        // Ensure that no cast stands around the call
                        if self.current_function_type_cast.is_none() {
                            self.report(Rule::ReturnValue, node)
                        } else {
                            None
                        }
                    } else {
                        None
                    }
                },
                None => None,
            },
            None => None,
        }
    }

    /// Walks the children of `node` in order.
    pub fn visit_children(&mut self, node: &Node)
        ensures
            final(self).walked(
                *old(self),
                walk_children(
                    *node,
                    0,
                    old(self).rule_set,
                    old(self).source@,
                    old(self).scope(),
                    old(self).symbol_table@,
                ),
            ),
        decreases *node, 0nat,
    {
        let ghost before = *self;
        let ghost whole = walk_children(
            *node,
            0,
            before.rule_set,
            before.source@,
            before.scope(),
            before.symbol_table@,
        );
        let mut i: usize = 0;
        while i < node.children.len()
            invariant
                i <= node.children@.len(),
                self.rule_set == before.rule_set,
                self.source == before.source,
                self.scope() == before.scope(),
                self.diagnostics@ + walk_children(
                    *node,
                    i as int,
                    before.rule_set,
                    before.source@,
                    before.scope(),
                    self.symbol_table@,
                ).findings == before.diagnostics@ + whole.findings,
                walk_children(
                    *node,
                    i as int,
                    before.rule_set,
                    before.source@,
                    before.scope(),
                    self.symbol_table@,
                ).symbols == whole.symbols,
            decreases node.children@.len() - i,
        {
            let ghost reached = *self;
            self.visit(&node.children[i]);
            proof {
                let first = reached.walk_of(node.children@[i as int]);
                let rest = walk_children(
                    *node,
                    i + 1,
                    before.rule_set,
                    before.source@,
                    before.scope(),
                    first.symbols,
                );
                assert((reached.diagnostics@ + first.findings) + rest.findings
                    =~= reached.diagnostics@ + (first.findings + rest.findings));
            }
            i = i + 1;
        }
        assert(self.diagnostics@ + Seq::<Diagnostic>::empty() =~= self.diagnostics@);
    }

    /// Walks `node`: reports what the rules find at it, then walks its
    /// children.
    pub fn visit(&mut self, node: &Node)
        ensures
            final(self).walked(*old(self), old(self).walk_of(*node)),
        decreases *node, 2nat,
    {
        match &node.kind {
            NodeKind::FunctionDefinition { .. } => self.visit_function_definition(node),
            NodeKind::Declaration { .. } => self.visit_declaration(node),
            NodeKind::Goto => self.visit_statement(node),
            NodeKind::While => self.visit_while_statement(node),
            NodeKind::Call => self.visit_call_expression(node),
            NodeKind::Cast { .. } => self.visit_cast_expression(node),
            NodeKind::BinaryOperator(_) => self.visit_expression(node),
            NodeKind::Identifier(_) => self.visit_expression(node),
            NodeKind::Constant => self.visit_expression(node),
            NodeKind::Other => self.visit_statement(node),
        }
    }

    /// Walks an expression that no rule looks at.
    pub fn visit_expression(&mut self, node: &Node)
        requires
            node.kind is BinaryOperator || node.kind is Identifier || node.kind is Constant
                || node.kind is Other,
        ensures
            final(self).walked(*old(self), old(self).walk_of(*node)),
        decreases *node, 1nat,
    {
        self.visit_children(node);
        proof {
            old(self).lemma_nothing_found(*node);
        }
    }

    /// Walks a declaration. Where return values are checked, a declared
    /// function is recorded first.
    pub fn visit_declaration(&mut self, node: &Node)
        requires
            node.kind is Declaration,
        ensures
            final(self).walked(*old(self), old(self).walk_of(*node)),
        decreases *node, 1nat,
    {
        if self.rule_set.check_return_value {
            self.add_function_to_symbol_table(node);
        }
        self.visit_children(node);
        proof {
            old(self).lemma_nothing_found(*node);
        }
    }

    /// Walks a statement other than a loop.
    pub fn visit_statement(&mut self, node: &Node)
        requires
            node.kind is Goto || node.kind is Other,
        ensures
            final(self).walked(*old(self), old(self).walk_of(*node)),
        decreases *node, 1nat,
    {
        let found = self.check_goto(node);
        self.record(self.rule_set.restrict_goto, found);
        proof {
            assert(self.diagnostics@ =~= old(self).diagnostics@ + old(self).findings_here(*node));
        }
        let ghost entered = *self;
        self.visit_children(node);
        proof {
            old(self).lemma_walk_unfolds(*node, entered.diagnostics@, self.diagnostics@);
        }
    }

    /// Walks a function definition: records the function, reports it if it
    /// is too long, and walks its parts as parts of that function.
    pub fn visit_function_definition(&mut self, node: &Node)
        requires
            node.kind is FunctionDefinition,
        ensures
            final(self).walked(*old(self), old(self).walk_of(*node)),
        decreases *node, 1nat,
    {
        // Insert the function into the symbol table with its return type
        self.add_function_to_symbol_table(node);
        let previous = self.set_current_function(node);
        let found = self.check_function_size(node);
        self.record(self.rule_set.restrict_function_size, found);
        proof {
            assert(self.diagnostics@ =~= old(self).diagnostics@ + old(self).findings_here(*node));
        }
        let ghost entered = *self;
        self.visit_children(node);
        self.current_function = previous;
        proof {
            old(self).lemma_walk_unfolds(*node, entered.diagnostics@, self.diagnostics@);
        }
    }

    /// Walks a cast: what stands under it is under a cast.
    pub fn visit_cast_expression(&mut self, node: &Node)
        requires
            node.kind is Cast,
        ensures
            final(self).walked(*old(self), old(self).walk_of(*node)),
        decreases *node, 1nat,
    {
        let previous = self.current_function_type_cast;
        match &node.kind {
            NodeKind::Cast { specifiers } => {
                self.current_function_type_cast = Some(cast_target_of(specifiers));
            },
            _ => {},
        }
        self.visit_children(node);
        self.current_function_type_cast = previous;
        proof {
            old(self).lemma_nothing_found(*node);
        }
    }

    /// Walks a call: reports what the rules on calls find, then walks the
    /// callee and the arguments.
    pub fn visit_call_expression(&mut self, node: &Node)
        requires
            node.kind is Call,
        ensures
            final(self).walked(*old(self), old(self).walk_of(*node)),
        decreases *node, 1nat,
    {
        let recursion = self.check_recursion(node);
        let setjmp = self.check_setjmp(node);
        let longjmp = self.check_longjmp(node);
        let heap = self.check_heap_usage(node);
        let dropped = self.check_return_value(node);
        self.record(self.rule_set.restrict_recursion, recursion);
        self.record(self.rule_set.restrict_setjmp, setjmp);
        self.record(self.rule_set.restrict_longjmp, longjmp);
        self.record(self.rule_set.restrict_heap_allocation, heap);
        self.record(self.rule_set.check_return_value, dropped);
        proof {
            old(self).lemma_findings_at_call(*node);
            lemma_appended_in_turn(
                old(self).diagnostics@,
                reported(self.rule_set.restrict_recursion, recursion),
                reported(self.rule_set.restrict_setjmp, setjmp),
                reported(self.rule_set.restrict_longjmp, longjmp),
                reported(self.rule_set.restrict_heap_allocation, heap),
                reported(self.rule_set.check_return_value, dropped),
            );
        }
        let ghost entered = *self;
        self.visit_children(node);
        proof {
            old(self).lemma_walk_unfolds(*node, entered.diagnostics@, self.diagnostics@);
        }
    }

    /// Walks a `while` loop: reports it unless its condition bounds it,
    /// then walks the condition and the body.
    pub fn visit_while_statement(&mut self, node: &Node)
        requires
            node.kind is While,
        ensures
            final(self).walked(*old(self), old(self).walk_of(*node)),
        decreases *node, 1nat,
    {
        let found = self.check_while_loop_bounds(node);
        self.record(self.rule_set.fixed_loop_bounds, found);
        proof {
            assert(self.diagnostics@ =~= old(self).diagnostics@ + old(self).findings_here(*node));
        }
        let ghost entered = *self;
        self.visit_children(node);
        proof {
            old(self).lemma_walk_unfolds(*node, entered.diagnostics@, self.diagnostics@);
        }
    }

    /// Appends the finding of a rule if the rule is switched on.
    fn record(&mut self, on: bool, found: Option<Diagnostic>)
        ensures
            final(self).diagnostics@ == old(self).diagnostics@ + reported(on, found),
            final(self).rule_set == old(self).rule_set,
            final(self).source == old(self).source,
            final(self).symbol_table == old(self).symbol_table,
            final(self).current_function == old(self).current_function,
            final(self).current_function_type_cast == old(self).current_function_type_cast,
    {
        match found {
            Some(diagnostic) => {
                if on {
                    self.diagnostics.push(diagnostic);
                }
            },
            None => {},
        }
        assert(self.diagnostics@ =~= old(self).diagnostics@ + reported(on, found));
    }

    /// A walk is the findings at the node, then the walk of the children:
    /// findings that grow by the one and then by the other have grown by the
    /// walk.
    proof fn lemma_walk_unfolds(
        self,
        node: Node,
        entered: Seq<Diagnostic>,
        left: Seq<Diagnostic>,
    )
        requires
            entered == self.diagnostics@ + self.findings_here(node),
            left == entered + walk_children(
                node,
                0,
                self.rule_set,
                self.source@,
                scope_in(node, self.scope()),
                symbols_at(node, self.rule_set, self.symbol_table@),
            ).findings,
        ensures
            left == self.diagnostics@ + self.walk_of(node).findings,
            self.walk_of(node).symbols == walk_children(
                node,
                0,
                self.rule_set,
                self.source@,
                scope_in(node, self.scope()),
                symbols_at(node, self.rule_set, self.symbol_table@),
            ).symbols,
    {
        let inner = walk_children(
            node,
            0,
            self.rule_set,
            self.source@,
            scope_in(node, self.scope()),
            symbols_at(node, self.rule_set, self.symbol_table@),
        );
        assert((self.diagnostics@ + self.findings_here(node)) + inner.findings
            =~= self.diagnostics@ + (self.findings_here(node) + inner.findings));
    }

    /// What the rules on calls can find at a call, in order.
    proof fn lemma_findings_at_call(self, node: Node)
        requires
            node.kind is Call,
        ensures
            self.findings_here(node) == reported(
                self.rule_set.restrict_recursion,
                recursion_finding(node, self.source@, self.scope()),
            ) + reported(self.rule_set.restrict_setjmp, setjmp_finding(node, self.source@))
                + reported(self.rule_set.restrict_longjmp, longjmp_finding(node, self.source@))
                + reported(self.rule_set.restrict_heap_allocation, heap_finding(node, self.source@))
                + reported(
                self.rule_set.check_return_value,
                return_value_finding(node, self.source@, self.scope(), self.symbol_table@),
            ),
    {
        let none = Seq::<Diagnostic>::empty();
        let calls = reported(
            self.rule_set.restrict_recursion,
            recursion_finding(node, self.source@, self.scope()),
        ) + reported(self.rule_set.restrict_setjmp, setjmp_finding(node, self.source@))
            + reported(self.rule_set.restrict_longjmp, longjmp_finding(node, self.source@))
            + reported(self.rule_set.restrict_heap_allocation, heap_finding(node, self.source@))
            + reported(
            self.rule_set.check_return_value,
            return_value_finding(node, self.source@, self.scope(), self.symbol_table@),
        );
        assert(reported(self.rule_set.restrict_goto, goto_finding(node, self.source@)) == none);
        assert(reported(self.rule_set.fixed_loop_bounds, loop_finding(node, self.source@))
            == none);
        assert(reported(self.rule_set.restrict_function_size, size_finding(node, self.source@))
            == none);
        assert(none + none =~= none);
        assert(none + reported(
            self.rule_set.restrict_recursion,
            recursion_finding(node, self.source@, self.scope()),
        ) =~= reported(
            self.rule_set.restrict_recursion,
            recursion_finding(node, self.source@, self.scope()),
        ));
        assert(calls + none =~= calls);
    }

    /// No rule finds anything at a node that is neither a function
    /// definition, a `goto`, a loop nor a call.
    proof fn lemma_nothing_found(self, node: Node)
        requires
            !(node.kind is FunctionDefinition),
            !(node.kind is Goto),
            !(node.kind is While),
            !(node.kind is Call),
        ensures
            self.findings_here(node) == Seq::<Diagnostic>::empty(),
            self.walk_of(node).findings == walk_children(
                node,
                0,
                self.rule_set,
                self.source@,
                scope_in(node, self.scope()),
                symbols_at(node, self.rule_set, self.symbol_table@),
            ).findings,
            self.walk_of(node).symbols == walk_children(
                node,
                0,
                self.rule_set,
                self.source@,
                scope_in(node, self.scope()),
                symbols_at(node, self.rule_set, self.symbol_table@),
            ).symbols,
    {
        assert(self.findings_here(node) =~= Seq::<Diagnostic>::empty());
        assert(Seq::<Diagnostic>::empty() + walk_children(
            node,
            0,
            self.rule_set,
            self.source@,
            scope_in(node, self.scope()),
            symbols_at(node, self.rule_set, self.symbol_table@),
        ).findings =~= walk_children(
            node,
            0,
            self.rule_set,
            self.source@,
            scope_in(node, self.scope()),
            symbols_at(node, self.rule_set, self.symbol_table@),
        ).findings);
    }
}

/// Five sequences appended one after the other are their concatenation
/// appended at once.
proof fn lemma_appended_in_turn(
    base: Seq<Diagnostic>,
    a: Seq<Diagnostic>,
    b: Seq<Diagnostic>,
    c: Seq<Diagnostic>,
    d: Seq<Diagnostic>,
    e: Seq<Diagnostic>,
)
    ensures
        base + a + b + c + d + e == base + (a + b + c + d + e),
{
    assert(base + a + b + c + d + e =~= base + (a + b + c + d + e));
}

/// Analyses a tree: one walk from its root, with every enabled rule.
///
/// The findings come in the order of the walk, and each is of an enabled
/// rule.
pub fn analyze(ast: &Node, rule_set: RuleSet, source: &Source) -> (diagnostics: Vec<Diagnostic>)
    ensures
        diagnostics@ == analysis(*ast, rule_set, source@),
        all_enabled(diagnostics@, rule_set),
{
    let mut analyzer = StaticAnalyzer::new(rule_set, source);
    analyzer.visit(ast);
    proof {
        findings_are_of_enabled_rules(
            *ast,
            rule_set,
            source@,
            Scope::outermost(),
            Symbols::empty(),
        );
        assert(Seq::<Diagnostic>::empty() + analysis(*ast, rule_set, source@) =~= analysis(
            *ast,
            rule_set,
            source@,
        ));
    }
    analyzer.diagnostics
}

/// Analyses a tree in two walks: the first collects the functions that the
/// tree defines and declares, the second reports what the rules find with
/// those functions known from the start.
///
/// The findings come in the order of the second walk, and each is of an
/// enabled rule.
pub fn analyze_two_pass(ast: &Node, rule_set: RuleSet, source: &Source) -> (diagnostics: Vec<
    Diagnostic,
>)
    ensures
        diagnostics@ == resolved_analysis(*ast, rule_set, source@),
        all_enabled(diagnostics@, rule_set),
{
    let mut collector = StaticAnalyzer::new(rule_set, source);
    collector.visit(ast);
    let mut analyzer = StaticAnalyzer {
        rule_set,
        symbol_table: collector.symbol_table,
        current_function_type_cast: None,
        source,
        current_function: None,
        diagnostics: Vec::new(),
    };
    analyzer.visit(ast);
    proof {
        findings_are_of_enabled_rules(
            *ast,
            rule_set,
            source@,
            Scope::outermost(),
            declarations(*ast, rule_set, source@),
        );
        assert(Seq::<Diagnostic>::empty() + resolved_analysis(*ast, rule_set, source@)
            =~= resolved_analysis(*ast, rule_set, source@));
    }
    analyzer.diagnostics
}

} // verus!
