//! Findings and their text.

use vstd::prelude::*;
use vstd::string::*;

use crate::ast::Span;
use crate::config::Rule;
use crate::source::{slice_at, Source};

verus! {

/// How grave a finding is. Every rule reports errors today.
#[derive(Clone, Copy, Debug, PartialEq, Eq, Structural)]
pub enum Severity {
    Error,
    Warning,
}

/// One finding: the rule that was broken, and where.
#[derive(Clone, Copy, Debug, PartialEq, Eq, Structural)]
pub struct Diagnostic {
    pub rule: Rule,
    /// The line on which the offending node starts.
    pub line: usize,
    /// The bytes that the offending node covers.
    pub span: Span,
    pub severity: Severity,
}

impl Rule {
    /// What a finding of the rule says.
    pub open spec fn message(self) -> Seq<char> {
        match self {
            Rule::Goto => "'goto' statement found"@,
            Rule::Setjmp => "'setjmp' call found"@,
            Rule::Longjmp => "'longjmp' call found"@,
            Rule::Recursion => "Recursion found"@,
            Rule::LoopBounds => "Loop does not have fixed bounds"@,
            Rule::HeapAllocation => "Heap usage found"@,
            Rule::FunctionSize => "Function size exceeds 60 lines"@,
            Rule::ReturnValue => "Call to non-void function does not handle the return value"@,
        }
    }

    /// Findings of the rule are shown with the source text they cover.
    pub open spec fn shows_excerpt(self) -> bool {
        self == Rule::HeapAllocation || self == Rule::ReturnValue
    }

    pub fn description(&self) -> (text: &'static str)
        ensures
            text@ == self.message(),
    {
        match self {
            Rule::Goto => "'goto' statement found",
            Rule::Setjmp => "'setjmp' call found",
            Rule::Longjmp => "'longjmp' call found",
            Rule::Recursion => "Recursion found",
            Rule::LoopBounds => "Loop does not have fixed bounds",
            Rule::HeapAllocation => "Heap usage found",
            Rule::FunctionSize => "Function size exceeds 60 lines",
            Rule::ReturnValue => "Call to non-void function does not handle the return value",
        }
    }

    pub fn has_excerpt(&self) -> (r: bool)
        ensures
            r == self.shows_excerpt(),
    {
        match self {
            Rule::HeapAllocation => true,
            Rule::ReturnValue => true,
            _ => false,
        }
    }
}

impl Severity {
    /// The word that a rendered finding starts with.
    pub open spec fn label(self) -> Seq<char> {
        match self {
            Severity::Error => "Error"@,
            Severity::Warning => "Warning"@,
        }
    }

    pub fn word(&self) -> (text: &'static str)
        ensures
            text@ == self.label(),
    {
        match self {
            Severity::Error => "Error",
            Severity::Warning => "Warning",
        }
    }
}

/// The exit status of a run without findings.
pub const EXIT_CLEAN: u8 = 0;

/// The exit status of a run with findings.
pub const EXIT_FINDINGS: u8 = 1;

/// The exit status of a run that could not start: the configuration or the
/// source could not be read.
pub const EXIT_FAILURE: u8 = 2;

/// The exit status of a run that ended with the given findings.
pub fn exit_status(diagnostics: &Vec<Diagnostic>) -> (status: u8)
    ensures
        status == if diagnostics@.len() == 0 {
            EXIT_CLEAN
        } else {
            EXIT_FINDINGS
        },
{
    if diagnostics.len() == 0 {
        EXIT_CLEAN
    } else {
        EXIT_FINDINGS
    }
}

/// The character of a decimal digit.
pub open spec fn digit(d: int) -> char {
    if d == 0 {
        '0'
    } else if d == 1 {
        '1'
    } else if d == 2 {
        '2'
    } else if d == 3 {
        '3'
    } else if d == 4 {
        '4'
    } else if d == 5 {
        '5'
    } else if d == 6 {
        '6'
    } else if d == 7 {
        '7'
    } else if d == 8 {
        '8'
    } else {
        '9'
    }
}

/// A number in decimal, without leading zeros.
pub open spec fn decimal(n: nat) -> Seq<char>
    decreases n,
{
    if n < 10 {
        seq![digit(n as int)]
    } else {
        decimal(n / 10).push(digit((n % 10) as int))
    }
}

/// `n` carets.
pub open spec fn carets(n: nat) -> Seq<char> {
    Seq::new(n, |i: int| '^')
}

/// The text that a span covers and, on the next line, a caret under each
/// of its bytes; `None` where the span does not cut the text at character
/// boundaries.
pub open spec fn excerpt_at(text: Seq<char>, start: int, end: int) -> Option<Seq<char>> {
    match slice_at(text, start, end) {
        Some(part) => Some(part + "\n"@ + carets((end - start) as nat)),
        None => None,
    }
}

fn digit_text(d: usize) -> (text: &'static str)
    requires
        d < 10,
    ensures
        text@ == seq![digit(d as int)],
{
    proof {
        reveal_strlit("0");
        reveal_strlit("1");
        reveal_strlit("2");
        reveal_strlit("3");
        reveal_strlit("4");
        reveal_strlit("5");
        reveal_strlit("6");
        reveal_strlit("7");
        reveal_strlit("8");
        reveal_strlit("9");
    }
    let text = if d == 0 {
        "0"
    } else if d == 1 {
        "1"
    } else if d == 2 {
        "2"
    } else if d == 3 {
        "3"
    } else if d == 4 {
        "4"
    } else if d == 5 {
        "5"
    } else if d == 6 {
        "6"
    } else if d == 7 {
        "7"
    } else if d == 8 {
        "8"
    } else {
        "9"
    };
    assert(text@ =~= seq![digit(d as int)]);
    text
}

/// Writes a number in decimal.
pub fn decimal_string(n: usize) -> (text: String)
    ensures
        text@ == decimal(n as nat),
    decreases n,
{
    if n < 10 {
        String::from_str(digit_text(n))
    } else {
        let mut text = decimal_string(n / 10);
        text.append(digit_text(n % 10));
        assert(text@ =~= decimal(n as nat));
        text
    }
}

/// Writes `n` carets.
pub fn caret_string(n: usize) -> (text: String)
    ensures
        text@ == carets(n as nat),
{
    proof {
        reveal_strlit("^");
    }
    let mut text = String::new();
    let mut i: usize = 0;
    while i < n
        invariant
            i <= n,
            text@ == carets(i as nat),
            "^"@.len() == 1,
            "^"@[0] == '^',
        decreases n - i,
    {
        text.append("^");
        i = i + 1;
        assert(text@ =~= carets(i as nat));
    }
    text
}

impl Diagnostic {
    /// A finding of error severity.
    pub fn new(rule: Rule, line: usize, span: Span) -> (d: Diagnostic)
        ensures
            d == (Diagnostic { rule, line, span, severity: Severity::Error }),
    {
        Diagnostic { rule, line, span, severity: Severity::Error }
    }

    /// The first line of the rendered finding:
    /// `Error: <message> at line <N>`.
    pub open spec fn headline(self) -> Seq<char> {
        self.severity.label() + ": "@ + self.rule.message() + " at line "@ + decimal(
            self.line as nat,
        )
    }

    /// The two lines under the first, for the rules that show the source:
    /// the text that the span covers, and a caret under each of its bytes.
    /// Empty for the other rules, and where the span does not cut the text
    /// at character boundaries.
    pub open spec fn excerpt(self, text: Seq<char>) -> Seq<char> {
        if self.rule.shows_excerpt() {
            match excerpt_at(text, self.span.start as int, self.span.end as int) {
                Some(lines) => "\n"@ + lines,
                None => Seq::<char>::empty(),
            }
        } else {
            Seq::<char>::empty()
        }
    }

    /// The rendered finding.
    pub open spec fn rendered(self, text: Seq<char>) -> Seq<char> {
        self.headline() + self.excerpt(text)
    }

    /// What the finding says.
    pub fn message(&self) -> (text: String)
        ensures
            text@ == self.rule.message(),
    {
        String::from_str(self.rule.description())
    }

    /// Renders the finding against the source it was found in.
    pub fn render(&self, source: &Source) -> (text: String)
        ensures
            text@ == self.rendered(source@),
    {
        let mut text = String::from_str(self.severity.word());
        text.append(": ");
        text.append(self.rule.description());
        text.append(" at line ");
        let number = decimal_string(self.line);
        text.append(number.as_str());
        assert(text@ == self.headline());
        if self.rule.has_excerpt() {
            match excerpt_string(source, self.span) {
                Some(lines) => {
                    text.append("\n");
                    text.append(lines.as_str());
                    assert(text@ =~= self.rendered(source@));
                },
                None => {
                    assert(text@ =~= self.rendered(source@));
                },
            }
        } else {
            assert(text@ =~= self.rendered(source@));
        }
        text
    }
}

/// Cuts the text of a span out of the source and underlines it.
pub fn excerpt_string(source: &Source, span: Span) -> (lines: Option<String>)
    ensures
        match lines {
            Some(text) => excerpt_at(source@, span.start as int, span.end as int) == Some(text@),
            None => excerpt_at(source@, span.start as int, span.end as int) is None,
        },
{
    match source.slice(span) {
        Some(part) => {
            let mut text = String::from_str(part);
            text.append("\n");
            let underline = caret_string(span.end - span.start);
            text.append(underline.as_str());
            Some(text)
        },
        None => None,
    }
}

} // verus!
