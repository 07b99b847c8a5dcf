//! Which rules a run enforces.

use vstd::prelude::*;

verus! {

/// One switch per rule. Every switch is set by whoever loads the
/// configuration: there are no defaults.
#[derive(Clone, Copy, Debug, PartialEq, Eq, Structural)]
pub struct RuleSet {
    // Avoid complex flow constructs
    pub restrict_goto: bool,
    pub restrict_setjmp: bool,
    pub restrict_longjmp: bool,
    pub restrict_recursion: bool,
    // Enforce loop bounds
    pub fixed_loop_bounds: bool,
    // Restrict heap allocation, e.g. malloc
    pub restrict_heap_allocation: bool,
    // Restrict function size
    pub restrict_function_size: bool,
    // Check return value of functions
    pub check_return_value: bool,
}

/// A configuration as it is stored: the rule set under its key.
#[derive(Clone, Copy, Debug, PartialEq, Eq, Structural)]
pub struct RulesConfig {
    pub rule_set: RuleSet,
}

/// The rules.
#[derive(Clone, Copy, Debug, PartialEq, Eq, Structural)]
pub enum Rule {
    Goto,
    Setjmp,
    Longjmp,
    Recursion,
    LoopBounds,
    HeapAllocation,
    FunctionSize,
    ReturnValue,
}

impl RuleSet {
    /// The switch of a rule.
    pub open spec fn enables(self, rule: Rule) -> bool {
        match rule {
            Rule::Goto => self.restrict_goto,
            Rule::Setjmp => self.restrict_setjmp,
            Rule::Longjmp => self.restrict_longjmp,
            Rule::Recursion => self.restrict_recursion,
            Rule::LoopBounds => self.fixed_loop_bounds,
            Rule::HeapAllocation => self.restrict_heap_allocation,
            Rule::FunctionSize => self.restrict_function_size,
            Rule::ReturnValue => self.check_return_value,
        }
    }

    /// Whether a rule is switched on.
    pub fn is_enabled(&self, rule: Rule) -> (on: bool)
        ensures
            on == self.enables(rule),
    {
        match rule {
            Rule::Goto => self.restrict_goto,
            Rule::Setjmp => self.restrict_setjmp,
            Rule::Longjmp => self.restrict_longjmp,
            Rule::Recursion => self.restrict_recursion,
            Rule::LoopBounds => self.fixed_loop_bounds,
            Rule::HeapAllocation => self.restrict_heap_allocation,
            Rule::FunctionSize => self.restrict_function_size,
            Rule::ReturnValue => self.check_return_value,
        }
    }

    /// The rule set with every switch in the same position.
    pub fn uniform(on: bool) -> (rules: RuleSet)
        ensures
            forall|rule: Rule| rules.enables(rule) == on,
    {
        RuleSet {
            restrict_goto: on,
            restrict_setjmp: on,
            restrict_longjmp: on,
            restrict_recursion: on,
            fixed_loop_bounds: on,
            restrict_heap_allocation: on,
            restrict_function_size: on,
            check_return_value: on,
        }
    }

    /// The rule set in which one rule is switched on and no other.
    pub fn only(rule: Rule) -> (rules: RuleSet)
        ensures
            forall|other: Rule| rules.enables(other) == (other == rule),
    {
        RuleSet {
            restrict_goto: rule == Rule::Goto,
            restrict_setjmp: rule == Rule::Setjmp,
            restrict_longjmp: rule == Rule::Longjmp,
            restrict_recursion: rule == Rule::Recursion,
            fixed_loop_bounds: rule == Rule::LoopBounds,
            restrict_heap_allocation: rule == Rule::HeapAllocation,
            restrict_function_size: rule == Rule::FunctionSize,
            check_return_value: rule == Rule::ReturnValue,
        }
    }
}

} // verus!
